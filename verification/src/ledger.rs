//! The value-movement model: atomic transfer between two balances. The real
//! ledger moves lamports between accounts; here the same all-or-nothing
//! behaviour is stated and proved over plain balances.

use vstd::prelude::*;

verus! {

/// Atomically move `amount` from one balance to the other.
///
/// Either the whole transfer happens, or nothing does: on an insufficient
/// source balance both balances are left untouched and `false` comes back.
pub fn transfer(from: &mut u64, to: &mut u64, amount: u64) -> (ok: bool)
    requires
        *old(to) + amount <= u64::MAX,
    ensures
        ok ==> *old(from) >= amount
            && *final(from) == *old(from) - amount
            && *final(to) == *old(to) + amount,
        !ok ==> *old(from) < amount
            && *final(from) == *old(from)
            && *final(to) == *old(to),
{
    if *from >= amount {
        *from = *from - amount;
        *to = *to + amount;
        true
    } else {
        false
    }
}

} // verus!
