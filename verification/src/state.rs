//! The calculator's state and the operations that the keys stand for.
//!
//! Wherever a key needs the entry as a number, the host reads the entry as
//! decimal text first and hands in what it got: the pattern of the number, or
//! `None` where the text is no number.

use vstd::prelude::*;
use crate::binary64::{negate, negated, HUNDRED, ZERO};
use crate::operation::{Arithmetic, Operation};
use crate::text::holds;

verus! {

/// The character that separates the integer part of an entry from the rest.
pub const DECIMAL_POINT: char = '.';

/// What the host has to deliver before a key is fully handled.
#[derive(Debug, Clone, Copy, PartialEq, Eq, Structural)]
pub enum Update {
    /// Nothing: the state is already as the key leaves it.
    Done,
    /// The result of the computation belongs in the accumulator.
    Accumulator(Arithmetic),
    /// The decimal text of the result of the computation replaces the entry.
    Entry(Arithmetic),
}

/// What the display shows.
#[derive(Debug, Clone, Copy, PartialEq, Eq, Structural)]
pub enum Readout {
    /// The entry, as typed so far.
    Entry,
    /// The decimal text of the accumulator.
    Accumulator,
}

/// The calculator as a mathematical value.
pub struct Calculator {
    /// The pattern of the last committed result, or of the last operand read.
    pub accumulator: u64,
    /// The characters typed since the last operator, computation or reset.
    pub entry: Seq<char>,
    /// The operator that waits for its second operand.
    pub pending: Operation,
}

impl Calculator {
    /// The calculator when it is switched on: zero, nothing typed, no operator.
    pub open spec fn initial() -> Calculator {
        Calculator { accumulator: ZERO, entry: Seq::empty(), pending: Operation::Nothing }
    }

    /// The calculator with one more character at the end of the entry.
    pub open spec fn input_digit(self, digit: char) -> Calculator {
        Calculator { entry: self.entry.push(digit), ..self }
    }

    /// The calculator after the characters of `typed` were entered in turn, one
    /// digit key each.
    pub open spec fn typing(self, typed: Seq<char>) -> Calculator
        decreases typed.len(),
    {
        if typed.len() == 0 {
            self
        } else {
            self.typing(typed.drop_last()).input_digit(typed.last())
        }
    }

    /// The calculator after the decimal-point key: the point is appended unless
    /// the entry holds one already.
    pub open spec fn input_decimal_point(self) -> Calculator {
        if self.entry.contains(DECIMAL_POINT) {
            self
        } else {
            self.input_digit(DECIMAL_POINT)
        }
    }

    /// The number that the entry stands for, given what reading it as decimal
    /// text gave: zero where nothing was typed or the text is no number.
    pub open spec fn operand(self, parsed: Option<u64>) -> u64 {
        if self.entry.len() == 0 {
            ZERO
        } else {
            match parsed {
                Some(value) => value,
                None => ZERO,
            }
        }
    }

    /// The calculator after an operator key: a typed entry becomes the
    /// accumulator and is used up, and the operator replaces the one that
    /// waited, which is never applied.
    pub open spec fn set_operation(self, op: Operation, parsed: Option<u64>) -> Calculator {
        Calculator {
            accumulator: if self.entry.len() == 0 {
                self.accumulator
            } else {
                self.operand(parsed)
            },
            entry: Seq::empty(),
            pending: op,
        }
    }

    /// The computation that the compute key asks for.
    pub open spec fn calculation(self, parsed: Option<u64>) -> Arithmetic {
        self.pending.applied(self.accumulator, self.operand(parsed))
    }

    /// The calculator after the compute key: the entry is used up, no operator
    /// waits any more, and a result that needs no arithmetic is already in the
    /// accumulator.
    pub open spec fn calculate(self, parsed: Option<u64>) -> Calculator {
        Calculator {
            accumulator: match self.calculation(parsed) {
                Arithmetic::Value(value) => value,
                _ => self.accumulator,
            },
            entry: Seq::empty(),
            pending: Operation::Nothing,
        }
    }

    /// The calculator after the sign key: without an entry the accumulator
    /// changes its sign.
    pub open spec fn toggle_sign(self) -> Calculator {
        if self.entry.len() == 0 {
            Calculator { accumulator: negated(self.accumulator), ..self }
        } else {
            self
        }
    }

    /// What the sign key leaves to the host: the text of the negated entry, if
    /// there is an entry and it is a number.
    pub open spec fn sign_update(self, parsed: Option<u64>) -> Update {
        if self.entry.len() == 0 {
            Update::Done
        } else {
            match parsed {
                Some(value) => Update::Entry(Arithmetic::Value(negated(value))),
                None => Update::Done,
            }
        }
    }

    /// What the percent key leaves to the host: a hundredth of the accumulator
    /// where nothing was typed, else the text of a hundredth of the entry, if
    /// the entry is a number.
    pub open spec fn percent_update(self, parsed: Option<u64>) -> Update {
        if self.entry.len() == 0 {
            Update::Accumulator(Arithmetic::Quotient(self.accumulator, HUNDRED))
        } else {
            match parsed {
                Some(value) => Update::Entry(Arithmetic::Quotient(value, HUNDRED)),
                None => Update::Done,
            }
        }
    }

    /// The calculator with a new accumulator.
    pub open spec fn store(self, value: u64) -> Calculator {
        Calculator { accumulator: value, ..self }
    }

    /// The calculator with a new entry.
    pub open spec fn replace_entry(self, text: Seq<char>) -> Calculator {
        Calculator { entry: text, ..self }
    }

    /// What the display shows: the entry while something is typed, else the
    /// accumulator.
    pub open spec fn readout(self) -> Readout {
        if self.entry.len() == 0 {
            Readout::Accumulator
        } else {
            Readout::Entry
        }
    }
}

/// The running state of the calculator.
#[derive(Debug)]
pub struct CalculatorState {
    accumulator: u64,
    entry_buffer: String,
    pending_operator: Operation,
}

impl View for CalculatorState {
    type V = Calculator;

    closed spec fn view(&self) -> Calculator {
        Calculator {
            accumulator: self.accumulator,
            entry: self.entry_buffer@,
            pending: self.pending_operator,
        }
    }
}

impl CalculatorState {
    /// A calculator that has just been switched on.
    pub fn new() -> (state: CalculatorState)
        ensures
            state@ == Calculator::initial(),
    {
        CalculatorState {
            accumulator: ZERO,
            entry_buffer: String::new(),
            pending_operator: Operation::Nothing,
        }
    }

    /// The reset key: whatever the state was, it is the initial one again.
    pub fn clear(&mut self)
        ensures
            final(self)@ == Calculator::initial(),
    {
        self.accumulator = ZERO;
        self.entry_buffer.clear();
        self.pending_operator = Operation::Nothing;
    }

    /// An operator key. `parsed` is what reading the entry as decimal text gave.
    pub fn set_operation(&mut self, op: Operation, parsed: Option<u64>)
        ensures
            final(self)@ == old(self)@.set_operation(op, parsed),
    {
        if !self.entry_buffer.as_str().is_empty() {
            self.accumulator = match parsed {
                Some(value) => value,
                None => ZERO,
            };
            self.entry_buffer.clear();
        }
        assert(self.entry_buffer@ =~= Seq::<char>::empty());
        self.pending_operator = op;
    }

    /// A digit key: the character is appended to the entry, whatever it is.
    pub fn input_digit(&mut self, digit: char)
        ensures
            final(self)@ == old(self)@.input_digit(digit),
    {
        self.entry_buffer.push(digit);
    }

    /// The decimal-point key: the point is appended unless the entry holds one.
    pub fn input_decimal_point(&mut self)
        ensures
            final(self)@ == old(self)@.input_decimal_point(),
    {
        if !holds(self.entry_buffer.as_str(), DECIMAL_POINT) {
            self.entry_buffer.push(DECIMAL_POINT);
        }
    }

    /// The compute key. `parsed` is what reading the entry as decimal text gave.
    /// The entry is used up, no operator waits any more, and the result is
    /// handed out as the computation that gives it. Where that is a plain value
    /// the accumulator holds it already; else the accumulator waits for the
    /// result to be stored.
    pub fn calculate(&mut self, parsed: Option<u64>) -> (work: Arithmetic)
        ensures
            work == old(self)@.calculation(parsed),
            final(self)@ == old(self)@.calculate(parsed),
    {
        let operand: u64 = if self.entry_buffer.as_str().is_empty() {
            ZERO
        } else {
            match parsed {
                Some(value) => value,
                None => ZERO,
            }
        };
        self.entry_buffer.clear();
        let work = self.pending_operator.apply(self.accumulator, operand);
        if let Arithmetic::Value(value) = work {
            self.accumulator = value;
        }
        self.pending_operator = Operation::Nothing;
        work
    }

    /// The sign key. `parsed` is what reading the entry as decimal text gave.
    /// Without an entry the accumulator changes its sign at once. With an entry
    /// that is a number, the text of the negated number is to replace it; an
    /// entry that is no number stays as it is.
    pub fn toggle_sign(&mut self, parsed: Option<u64>) -> (update: Update)
        ensures
            update == old(self)@.sign_update(parsed),
            final(self)@ == old(self)@.toggle_sign(),
    {
        if !self.entry_buffer.as_str().is_empty() {
            match parsed {
                Some(value) => Update::Entry(Arithmetic::Value(negate(value))),
                None => Update::Done,
            }
        } else {
            self.accumulator = negate(self.accumulator);
            Update::Done
        }
    }

    /// The percent key. `parsed` is what reading the entry as decimal text gave.
    /// Without an entry a hundredth of the accumulator is to become the
    /// accumulator. With an entry that is a number, the text of a hundredth of
    /// it is to replace the entry; an entry that is no number stays as it is.
    pub fn percent(&self, parsed: Option<u64>) -> (update: Update)
        ensures
            update == self@.percent_update(parsed),
    {
        if !self.entry_buffer.as_str().is_empty() {
            match parsed {
                Some(value) => Update::Entry(Arithmetic::Quotient(value, HUNDRED)),
                None => Update::Done,
            }
        } else {
            Update::Accumulator(Arithmetic::Quotient(self.accumulator, HUNDRED))
        }
    }

    /// Puts a computed result into the accumulator.
    pub fn store(&mut self, value: u64)
        ensures
            final(self)@ == old(self)@.store(value),
    {
        self.accumulator = value;
    }

    /// Puts the decimal text of a computed result in the place of the entry.
    pub fn replace_entry(&mut self, text: String)
        ensures
            final(self)@ == old(self)@.replace_entry(text@),
    {
        self.entry_buffer = text;
    }

    /// Tells which of the two the display shows.
    pub fn readout(&self) -> (shown: Readout)
        ensures
            shown == self@.readout(),
    {
        if self.entry_buffer.as_str().is_empty() {
            Readout::Accumulator
        } else {
            Readout::Entry
        }
    }

    /// The pattern of the accumulator.
    pub fn accumulator(&self) -> (bits: u64)
        ensures
            bits == self@.accumulator,
    {
        self.accumulator
    }

    /// The entry as typed so far.
    pub fn entry_buffer(&self) -> (text: &str)
        ensures
            text@ == self@.entry,
    {
        self.entry_buffer.as_str()
    }

    /// The operator that waits for its second operand.
    pub fn pending_operator(&self) -> (op: Operation)
        ensures
            op == self@.pending,
    {
        self.pending_operator
    }
}

} // verus!
