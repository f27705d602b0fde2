//! What holds of the calculator over several keys.

use vstd::prelude::*;
use crate::binary64::{exponent, law_negligible_by_exponent, negated, negligible, ZERO};
use crate::operation::{Arithmetic, Operation};
use crate::state::{Calculator, Readout, Update, DECIMAL_POINT};

verus! {

/// Whether at most one decimal point stands in an entry.
pub open spec fn at_most_one_point(entry: Seq<char>) -> bool {
    forall|i: int, j: int|
        0 <= i < j < entry.len() ==> !(entry[i] == DECIMAL_POINT && entry[j] == DECIMAL_POINT)
}

/// The number that a typed text stands for, given what reading it as decimal
/// text gave: zero where nothing was typed or the text is no number.
pub open spec fn typed_number(typed: Seq<char>, parsed: Option<u64>) -> u64 {
    if typed.len() == 0 {
        ZERO
    } else {
        match parsed {
            Some(value) => value,
            None => ZERO,
        }
    }
}

/// Typing appends to the entry and touches nothing else.
pub proof fn law_typing_appends(start: Calculator, typed: Seq<char>)
    ensures
        start.typing(typed) == (Calculator { entry: start.entry + typed, ..start }),
    decreases typed.len(),
{
    if typed.len() == 0 {
        assert(start.entry + typed =~= start.entry);
    } else {
        law_typing_appends(start, typed.drop_last());
        assert((start.entry + typed.drop_last()).push(typed.last()) =~= start.entry + typed);
    }
}

/// While no operator waits, the compute key passes the operand through: no
/// arithmetic is left to do, the operand is the result and the new
/// accumulator, and the entry is empty afterwards.
pub proof fn law_compute_without_operator(state: Calculator, parsed: Option<u64>)
    requires
        state.pending == Operation::Nothing,
    ensures
        state.calculation(parsed) == Arithmetic::Value(state.operand(parsed)),
        state.calculate(parsed) == (Calculator {
            accumulator: state.operand(parsed),
            entry: Seq::empty(),
            pending: Operation::Nothing,
        }),
{
}

/// The compute key follows the table of the operators: a sum, a difference, a
/// product or a quotient of the accumulator and the operand, in this order;
/// zero in place of a quotient whose divisor is negligible; the operand itself
/// where no operator waits.
pub proof fn law_compute_by_operator(state: Calculator, parsed: Option<u64>)
    ensures
        state.calculation(parsed) == match state.pending {
            Operation::Add => Arithmetic::Sum(state.accumulator, state.operand(parsed)),
            Operation::Subtract => Arithmetic::Difference(state.accumulator, state.operand(parsed)),
            Operation::Multiply => Arithmetic::Product(state.accumulator, state.operand(parsed)),
            Operation::Divide => if negligible(state.operand(parsed)) {
                Arithmetic::Value(ZERO)
            } else {
                Arithmetic::Quotient(state.accumulator, state.operand(parsed))
            },
            Operation::Nothing => Arithmetic::Value(state.operand(parsed)),
        },
        state.calculate(parsed).entry.len() == 0,
        state.calculate(parsed).pending == Operation::Nothing,
        state.calculation(parsed) is Value ==> state.calculation(parsed) == Arithmetic::Value(
            state.calculate(parsed).accumulator,
        ),
        !(state.calculation(parsed) is Value) ==> state.calculate(parsed).accumulator
            == state.accumulator,
{
}

/// A division by nothing, by zero of either sign or by a subnormal number is
/// never carried out: the compute key gives zero and puts it in the
/// accumulator.
pub proof fn law_division_by_zero(state: Calculator, parsed: Option<u64>)
    requires
        state.pending == Operation::Divide,
        exponent(state.operand(parsed)) == 0,
    ensures
        state.calculation(parsed) == Arithmetic::Value(ZERO),
        state.calculate(parsed) == (Calculator {
            accumulator: ZERO,
            entry: Seq::empty(),
            pending: Operation::Nothing,
        }),
{
    law_negligible_by_exponent(state.operand(parsed));
}

/// Digits typed into a fresh calculator and followed by the compute key, with
/// no operator key in between, give the number that the typed text reads as:
/// zero where nothing was typed or the text is no number. That number is the
/// new accumulator, and the entry is empty afterwards.
pub proof fn law_typed_number_passes_through(typed: Seq<char>, parsed: Option<u64>)
    ensures
        Calculator::initial().typing(typed).entry == typed,
        Calculator::initial().typing(typed).calculation(parsed) == Arithmetic::Value(
            typed_number(typed, parsed),
        ),
        Calculator::initial().typing(typed).calculate(parsed) == (Calculator {
            accumulator: typed_number(typed, parsed),
            entry: Seq::empty(),
            pending: Operation::Nothing,
        }),
{
    law_typing_appends(Calculator::initial(), typed);
    assert(Calculator::initial().entry + typed =~= typed);
}

/// Of two operator keys in a row only the second operator is kept, and the
/// first is never applied: the pair leaves the state that the second key alone
/// would have left, had it found the entry that the first one found.
pub proof fn law_second_operator_overrides(
    state: Calculator,
    first: Operation,
    first_parsed: Option<u64>,
    second: Operation,
    second_parsed: Option<u64>,
)
    ensures
        state.set_operation(first, first_parsed).set_operation(second, second_parsed)
            == state.set_operation(second, first_parsed),
{
}

/// Two operator keys in a row, with nothing typed before the first, leave the
/// accumulator as it was and keep the second operator.
pub proof fn law_operators_keep_accumulator(
    state: Calculator,
    first: Operation,
    first_parsed: Option<u64>,
    second: Operation,
    second_parsed: Option<u64>,
)
    requires
        state.entry.len() == 0,
    ensures
        state.set_operation(first, first_parsed).set_operation(second, second_parsed)
            == (Calculator { accumulator: state.accumulator, entry: Seq::empty(), pending: second }),
{
}

/// The entry is emptied by the operator keys and by the compute key, and by no
/// other key but the reset: digits make it longer, and the sign and percent
/// keys leave it to the host to replace it.
pub proof fn law_entry_emptied(state: Calculator, op: Operation, parsed: Option<u64>, digit: char)
    ensures
        state.set_operation(op, parsed).entry.len() == 0,
        state.calculate(parsed).entry.len() == 0,
        Calculator::initial().entry.len() == 0,
        state.input_digit(digit).entry.len() == state.entry.len() + 1,
        state.input_decimal_point().entry.len() >= state.entry.len(),
        state.toggle_sign().entry == state.entry,
{
}

/// The operator that waits is changed by the operator keys, the compute key
/// and the reset alone.
pub proof fn law_pending_kept(state: Calculator, digit: char, value: u64, text: Seq<char>)
    ensures
        state.input_digit(digit).pending == state.pending,
        state.input_decimal_point().pending == state.pending,
        state.toggle_sign().pending == state.pending,
        state.store(value).pending == state.pending,
        state.replace_entry(text).pending == state.pending,
{
}

/// The decimal-point key never puts a second point into the entry, and a digit
/// key that types another character adds none.
pub proof fn law_one_decimal_point(state: Calculator, digit: char)
    requires
        at_most_one_point(state.entry),
    ensures
        at_most_one_point(state.input_decimal_point().entry),
        digit != DECIMAL_POINT ==> at_most_one_point(state.input_digit(digit).entry),
{
    let pointed = state.input_decimal_point().entry;
    assert forall|i: int, j: int| 0 <= i < j < pointed.len() implies !(pointed[i] == DECIMAL_POINT
        && pointed[j] == DECIMAL_POINT) by {
        if !state.entry.contains(DECIMAL_POINT) && j == state.entry.len() {
            assert(pointed[i] == state.entry[i]);
        }
    }
}

/// The sign key changes the sign of exactly one number. While nothing is
/// typed that is the accumulator, and a second press restores it. While
/// something is typed the state stays and the text of the negated entry is
/// asked for; negating that number once more gives the entry's number back.
pub proof fn law_sign_key(state: Calculator, value: u64)
    ensures
        state.entry.len() == 0 ==> state.toggle_sign().toggle_sign() == state,
        state.entry.len() == 0 ==> state.toggle_sign().accumulator == negated(state.accumulator),
        state.entry.len() == 0 ==> state.sign_update(Some(value)) == Update::Done,
        state.entry.len() > 0 ==> state.toggle_sign() == state,
        state.entry.len() > 0 ==> state.sign_update(Some(value)) == Update::Entry(
            Arithmetic::Value(negated(value)),
        ),
        negated(negated(value)) == value,
{
}

/// The display shows the entry exactly while something is typed: after a digit
/// key it does, after an operator key, the compute key and a reset it shows
/// the accumulator.
pub proof fn law_readout(state: Calculator, digit: char, op: Operation, parsed: Option<u64>)
    ensures
        state.input_digit(digit).readout() == Readout::Entry,
        state.input_decimal_point().readout() == Readout::Entry,
        state.set_operation(op, parsed).readout() == Readout::Accumulator,
        state.calculate(parsed).readout() == Readout::Accumulator,
        Calculator::initial().readout() == Readout::Accumulator,
{
}

} // verus!
