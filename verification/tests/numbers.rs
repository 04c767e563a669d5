use calculator::{find_max, grade, multiply, subtract};
use std::cmp::Ordering;

#[derive(Debug, Clone, Copy)]
struct Tagged {
    key: u8,
    tag: char,
}

impl PartialEq for Tagged {
    fn eq(&self, other: &Self) -> bool {
        self.key == other.key
    }
}

impl Eq for Tagged {}

impl PartialOrd for Tagged {
    fn partial_cmp(&self, other: &Self) -> Option<Ordering> {
        Some(self.cmp(other))
    }
}

impl Ord for Tagged {
    fn cmp(&self, other: &Self) -> Ordering {
        self.key.cmp(&other.key)
    }
}

#[test]
fn find_max_of_sample() {
    let numbers: Vec<i32> = vec![3, 1, 4, 1, 5, 9];
    assert_eq!(find_max(&numbers), Some(9));
}

#[test]
fn find_max_of_empty_slice_is_none() {
    let nothing: Vec<i32> = Vec::new();
    assert_eq!(find_max(&nothing), None);
}

#[test]
fn find_max_handles_any_position() {
    assert_eq!(find_max(&[7u64]), Some(7));
    assert_eq!(find_max(&[9i32, 2, 3]), Some(9));
    assert_eq!(find_max(&[2i32, 9, 3]), Some(9));
    assert_eq!(find_max(&[-5i32, -9, -7]), Some(-5));
    assert_eq!(find_max(&[i32::MIN, i32::MAX, 0]), Some(i32::MAX));
    assert_eq!(find_max(&['b', 'z', 'a']), Some('z'));
}

#[test]
fn find_max_returns_the_last_of_equal_greatest() {
    let items = [
        Tagged { key: 5, tag: 'a' },
        Tagged { key: 2, tag: 'b' },
        Tagged { key: 5, tag: 'c' },
        Tagged { key: 1, tag: 'd' },
    ];
    let found = find_max(&items).map(|item| item.tag);
    assert_eq!(found, Some('c'));
    assert_eq!(found, items.iter().copied().max().map(|item| item.tag));
}

#[test]
fn multiply_and_subtract() {
    assert_eq!(multiply(6, 7), 42);
    assert_eq!(multiply(-4, 5), -20);
    assert_eq!(multiply(0, i32::MIN), 0);
    assert_eq!(multiply(46_340, 46_340), 2_147_395_600);
    assert_eq!(subtract(6, 7), -1);
    assert_eq!(subtract(i32::MAX, 0), i32::MAX);
    assert_eq!(subtract(-1, i32::MAX), i32::MIN);
}

#[test]
fn grades_at_the_boundaries() {
    assert_eq!(grade(100), "A");
    assert_eq!(grade(90), "A");
    assert_eq!(grade(89), "B");
    assert_eq!(grade(85), "B");
    assert_eq!(grade(80), "B");
    assert_eq!(grade(79), "C");
    assert_eq!(grade(70), "C");
    assert_eq!(grade(69), "F");
    assert_eq!(grade(0), "F");
    assert_eq!(grade(101), "F");
    assert_eq!(grade(-90), "F");
    assert_eq!(grade(i32::MAX), "F");
}
