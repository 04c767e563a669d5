//! A calculator's history: one line of text for every operation that
//! succeeded, in the order in which they were asked for.
//!
//! The calculator does not compute. Its caller works out each result in
//! whatever number type it uses and hands over the operands and the result
//! as they are to be written; for a division it also says whether the divisor
//! equals zero. The calculator decides whether the operation counts and
//! keeps the record.

use vstd::prelude::*;
use vstd::string::StringExecFns;

verus! {

/// Why a calculation was refused.
#[derive(Debug, Clone, Copy, PartialEq, Eq, Structural)]
pub enum CalculationError {
    DivisionByZero,
    NegativeSquareRoot,
}

impl CalculationError {
    /// The error in words.
    pub open spec fn description(self) -> Seq<char> {
        match self {
            CalculationError::DivisionByZero => "Division by zero"@,
            CalculationError::NegativeSquareRoot => "Negative square root"@,
        }
    }

    /// Writes the error in words.
    pub fn message(&self) -> (text: String)
        ensures
            text@ == self.description(),
    {
        match self {
            CalculationError::DivisionByZero => String::from_str("Division by zero"),
            CalculationError::NegativeSquareRoot => String::from_str("Negative square root"),
        }
    }
}

/// The line that records one operation: the left operand, the operator, the
/// right operand, an equals sign and the result, separated by single spaces.
pub open spec fn record(a: Seq<char>, operator: char, b: Seq<char>, result: Seq<char>) -> Seq<
    char,
> {
    a + seq![' ', operator, ' '] + b + seq![' ', '=', ' '] + result
}

/// One request to a calculator, with its operands and result as written.
/// It serves to state what a request does to the history.
pub enum Call {
    Add { a: Seq<char>, b: Seq<char>, sum: Seq<char> },
    Divide { a: Seq<char>, b: Seq<char>, divisor_is_zero: bool, quotient: Seq<char> },
}

impl Call {
    /// An addition always succeeds; a division succeeds unless its divisor is
    /// zero.
    pub open spec fn succeeds(self) -> bool {
        match self {
            Call::Add { .. } => true,
            Call::Divide { divisor_is_zero, .. } => !divisor_is_zero,
        }
    }

    /// The line that the request leaves in the history when it succeeds.
    pub open spec fn entry(self) -> Seq<char> {
        match self {
            Call::Add { a, b, sum } => record(a, '+', b, sum),
            Call::Divide { a, b, quotient, .. } => record(a, '/', b, quotient),
        }
    }
}

/// The history after one request: a successful one adds its line at the end,
/// a refused one changes nothing.
pub open spec fn after(history: Seq<Seq<char>>, call: Call) -> Seq<Seq<char>> {
    if call.succeeds() {
        history.push(call.entry())
    } else {
        history
    }
}

/// The history after a series of requests, made one after the other.
pub open spec fn after_all(history: Seq<Seq<char>>, calls: Seq<Call>) -> Seq<Seq<char>>
    decreases calls.len(),
{
    if calls.len() == 0 {
        history
    } else {
        after(after_all(history, calls.drop_last()), calls.last())
    }
}

/// Keeps the history of the operations that it accepted. The history starts
/// empty and changes in one way only: an accepted operation adds its line at
/// the end.
pub struct Calculator {
    history: Vec<String>,
}

impl View for Calculator {
    type V = Seq<Seq<char>>;

    /// The lines of the history, oldest first.
    closed spec fn view(&self) -> Seq<Seq<char>> {
        Seq::new(self.history@.len(), |i: int| self.history@[i]@)
    }
}

impl Calculator {
    /// A calculator that has not been asked anything yet.
    pub fn new() -> (calculator: Self)
        ensures
            calculator@ == Seq::<Seq<char>>::empty(),
    {
        let calculator = Self { history: Vec::new() };
        assert(calculator@ =~= Seq::<Seq<char>>::empty());
        calculator
    }

    /// The lines recorded so far, oldest first.
    pub fn history(&self) -> (lines: &Vec<String>)
        ensures
            lines@.len() == self@.len(),
            forall|i: int| 0 <= i < lines@.len() ==> (#[trigger] lines@[i])@ == self@[i],
    {
        &self.history
    }

    /// Puts one line at the end of the history.
    fn append_record(&mut self, a: &str, operator: &str, b: &str, result: &str)
        requires
            operator@.len() == 1,
        ensures
            final(self)@ == old(self)@.push(record(a@, operator@[0], b@, result@)),
    {
        proof {
            reveal_strlit(" ");
            reveal_strlit(" = ");
        }
        let mut line = String::from_str(a);
        line.append(" ");
        line.append(operator);
        line.append(" ");
        line.append(b);
        line.append(" = ");
        line.append(result);
        assert(line@ =~= record(a@, operator@[0], b@, result@));
        self.history.push(line);
        assert(self@ =~= old(self)@.push(record(a@, operator@[0], b@, result@)));
    }

    /// Records the addition of `a` and `b`, whose sum the caller has found
    /// to be `sum`. An addition is never refused.
    pub fn add(&mut self, a: &str, b: &str, sum: &str)
        ensures
            final(self)@ == after(old(self)@, (Call::Add { a: a@, b: b@, sum: sum@ })),
            final(self)@.len() == old(self)@.len() + 1,
    {
        proof {
            reveal_strlit("+");
        }
        self.append_record(a, "+", b, sum);
    }

    /// Records the division of `a` by `b`, whose quotient the caller has
    /// found to be `quotient`, unless the divisor is zero: then the division
    /// is refused and the history stays as it is.
    pub fn divide(&mut self, a: &str, b: &str, divisor_is_zero: bool, quotient: &str) -> (outcome:
        Result<(), CalculationError>)
        ensures
            divisor_is_zero ==> outcome == Err::<(), CalculationError>(
                CalculationError::DivisionByZero,
            ) && final(self)@ == old(self)@,
            !divisor_is_zero ==> outcome == Ok::<(), CalculationError>(()) && final(self)@
                == old(self)@.push(record(a@, '/', b@, quotient@)),
            final(self)@ == after(
                old(self)@,
                (Call::Divide { a: a@, b: b@, divisor_is_zero, quotient: quotient@ }),
            ),
    {
        if divisor_is_zero {
            return Err(CalculationError::DivisionByZero);
        }
        proof {
            reveal_strlit("/");
        }
        self.append_record(a, "/", b, quotient);
        Ok(())
    }
}

/// A history only ever grows at its end: whatever is asked, the lines that
/// were there stay where they were, and each request adds at most one line.
pub proof fn lemma_history_is_append_only(history: Seq<Seq<char>>, calls: Seq<Call>)
    ensures
        history.is_prefix_of(after_all(history, calls)),
        after_all(history, calls).len() <= history.len() + calls.len(),
    decreases calls.len(),
{
    if calls.len() > 0 {
        lemma_history_is_append_only(history, calls.drop_last());
    }
}

/// After a series of requests that all succeed, the history holds one line
/// more for each of them, in the order in which they were made: nothing is
/// reordered, merged or dropped.
pub proof fn lemma_successful_calls_are_recorded_in_order(
    history: Seq<Seq<char>>,
    calls: Seq<Call>,
)
    requires
        forall|i: int| 0 <= i < calls.len() ==> (#[trigger] calls[i]).succeeds(),
    ensures
        after_all(history, calls).len() == history.len() + calls.len(),
        forall|i: int|
            0 <= i < history.len() ==> #[trigger] after_all(history, calls)[i] == history[i],
        forall|i: int|
            0 <= i < calls.len() ==> after_all(history, calls)[history.len() + i]
                == (#[trigger] calls[i]).entry(),
    decreases calls.len(),
{
    if calls.len() > 0 {
        let earlier = calls.drop_last();
        assert forall|i: int| 0 <= i < earlier.len() implies (#[trigger] earlier[i]).succeeds() by {
            assert(earlier[i] == calls[i]);
        }
        lemma_successful_calls_are_recorded_in_order(history, earlier);
        assert forall|i: int| 0 <= i < calls.len() implies after_all(history, calls)[history.len()
            + i] == (#[trigger] calls[i]).entry() by {
            if i < earlier.len() {
                assert(earlier[i] == calls[i]);
            }
        }
    }
}

/// A refused request leaves no trace: the history after a series of requests
/// is the history after the successful ones among them alone, and it has
/// grown by exactly as many lines as requests succeeded.
pub proof fn lemma_refused_calls_leave_no_trace(history: Seq<Seq<char>>, calls: Seq<Call>)
    ensures
        after_all(history, calls) == after_all(history, calls.filter(|c: Call| c.succeeds())),
        after_all(history, calls).len() == history.len() + calls.filter(
            |c: Call| c.succeeds(),
        ).len(),
    decreases calls.len(),
{
    let succeeds = |c: Call| c.succeeds();
    reveal(Seq::filter);
    if calls.len() > 0 {
        let earlier = calls.drop_last();
        lemma_refused_calls_leave_no_trace(history, earlier);
        if calls.last().succeeds() {
            assert(calls.filter(succeeds).drop_last() =~= earlier.filter(succeeds));
        }
    }
}

} // verus!
