//! A few small building blocks: a person record, a calculator that keeps a
//! history of what it was asked, shapes that describe how they are drawn, a
//! maximum finder, letter grades and plain integer operations.

pub mod calculator;
pub mod grading;
pub mod numeric;
pub mod person;
pub mod shapes;
pub mod text;

pub use calculator::{CalculationError, Calculator};
pub use grading::grade;
pub use numeric::{find_max, multiply, subtract};
pub use person::Person;
pub use shapes::{Circle, Drawable, Rectangle};
