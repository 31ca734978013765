//! The four counter transitions, with saturating arithmetic.

use vstd::prelude::*;
use crate::codec::CounterCommand;

verus! {

/// The counter value after `c`, from `v`, for a counter whose largest value is `max`.
/// Increment saturates at `max`; Decrement saturates at zero.
pub open spec fn transition(c: CounterCommand, v: nat, max: nat) -> nat {
    match c {
        CounterCommand::Increment(n) => if v + n > max { max } else { (v + n) as nat },
        CounterCommand::Decrement(n) => if n > v { 0 } else { (v - n) as nat },
        CounterCommand::Update(n) => n as nat,
        CounterCommand::Reset => 0,
    }
}

/// Applies `c` to the value `v` of a counter whose largest value is `max`.
pub fn apply_command(c: &CounterCommand, v: u64, max: u64) -> (r: u64)
    requires
        v <= max,
    ensures
        r == transition(*c, v as nat, max as nat),
{
    match *c {
        CounterCommand::Increment(n) => if n > max - v {
            max
        } else {
            v + n
        },
        CounterCommand::Decrement(n) => if n > v {
            0
        } else {
            v - n
        },
        CounterCommand::Update(n) => n,
        CounterCommand::Reset => 0,
    }
}

/// Decrementing by more than the value leaves zero, never an underflow.
pub proof fn lemma_decrement_floor(v: nat, n: u64, max: nat)
    requires
        n > v,
    ensures
        transition(CounterCommand::Decrement(n), v, max) == 0,
{
}

/// Incrementing by `n` and then decrementing by `n` returns to the start,
/// when the increment does not reach past the counter's largest value.
pub proof fn lemma_increment_decrement_inverse(v: nat, n: u64, max: nat)
    requires
        v + n <= max,
    ensures
        transition(CounterCommand::Decrement(n), transition(CounterCommand::Increment(n), v, max), max)
            == v,
{
}

/// Repeating Reset or Update changes nothing more.
pub proof fn lemma_reset_update_idempotent(v: nat, n: u64, max: nat)
    ensures
        transition(CounterCommand::Reset, transition(CounterCommand::Reset, v, max), max)
            == transition(CounterCommand::Reset, v, max),
        transition(CounterCommand::Update(n), transition(CounterCommand::Update(n), v, max), max)
            == transition(CounterCommand::Update(n), v, max),
{
}

} // verus!
