//! Halving a whole number again and again.

use vstd::prelude::*;

verus! {

/// A number after so many halvings, each rounded down.
pub open spec fn halved(number: int, times: nat) -> int
    decreases times,
{
    if times == 0 {
        number
    } else {
        halved(number, (times - 1) as nat) / 2
    }
}

/// Halving never grows a number: what is left after `later` halvings is
/// no more than what was left after `earlier` ones.
pub proof fn lemma_halved_decreases(number: int, earlier: nat, later: nat)
    requires
        0 <= number,
        earlier <= later,
    ensures
        0 <= halved(number, later) <= halved(number, earlier),
    decreases later,
{
    if later == 0 {
    } else if earlier == later {
        lemma_halved_decreases(number, 0, (later - 1) as nat);
    } else {
        lemma_halved_decreases(number, earlier, (later - 1) as nat);
    }
}

} // verus!
