//! The funder authorization registry: who may fund a pool, and how the
//! three-slot list is changed.

use crate::state::Address;
use crate::state::ErrorCode;
use crate::state::EventAuthorizeFunder;
use crate::state::EventUnauthorizeFunder;
use crate::state::FunderList;
use crate::state::Pool;
use vstd::prelude::*;

verus! {

/// An address may fund a pool iff it is the pool authority or occupies a
/// funder slot.
pub open spec fn is_authorized_funder(pool: Pool, a: Address) -> bool {
    a == pool.authority || pool.funders.listed(a)
}

/// What authorizing `a` does to the list: rejected when `a` is the
/// authority or already listed; otherwise `a` takes the first free slot,
/// and a full list is a capacity error.
pub open spec fn spec_authorize(f: FunderList, authority: Address, a: Address) -> Result<
    FunderList,
    ErrorCode,
> {
    if a == authority {
        Err(ErrorCode::FunderAlreadyAuthorized)
    } else if f.listed(a) {
        Err(ErrorCode::FunderAlreadyAuthorized)
    } else if f.s0 == Address::zero_spec() {
        Ok(FunderList { s0: a, ..f })
    } else if f.s1 == Address::zero_spec() {
        Ok(FunderList { s1: a, ..f })
    } else if f.s2 == Address::zero_spec() {
        Ok(FunderList { s2: a, ..f })
    } else {
        Err(ErrorCode::MaxFunders)
    }
}

/// What deauthorizing `a` does to the list: rejected when `a` is the
/// authority or not listed; otherwise the first slot holding `a` becomes
/// free again.
pub open spec fn spec_deauthorize(f: FunderList, authority: Address, a: Address) -> Result<
    FunderList,
    ErrorCode,
> {
    if a == authority {
        Err(ErrorCode::CannotDeauthorizePoolAuthority)
    } else if f.s0 == a {
        Ok(FunderList { s0: Address::zero_spec(), ..f })
    } else if f.s1 == a {
        Ok(FunderList { s1: Address::zero_spec(), ..f })
    } else if f.s2 == a {
        Ok(FunderList { s2: Address::zero_spec(), ..f })
    } else {
        Err(ErrorCode::CannotDeauthorizeMissingAuthority)
    }
}

/// Admin-only: puts `funder_to_add` into the first free funder slot.
/// Only the funder list changes; a rejection changes nothing.
pub fn authorize_funder(pool: &mut Pool, caller: Address, funder_to_add: Address) -> (r: Result<
    EventAuthorizeFunder,
    ErrorCode,
>)
    ensures
        caller != old(pool).authority ==> r == Err::<EventAuthorizeFunder, ErrorCode>(
            ErrorCode::Unauthorized,
        ) && *final(pool) == *old(pool),
        caller == old(pool).authority ==> match spec_authorize(
            old(pool).funders,
            old(pool).authority,
            funder_to_add,
        ) {
            Ok(f2) => r == Ok::<EventAuthorizeFunder, ErrorCode>(
                EventAuthorizeFunder { new_funder: funder_to_add },
            ) && *final(pool) == Pool { funders: f2, ..*old(pool) },
            Err(e) => r == Err::<EventAuthorizeFunder, ErrorCode>(e) && *final(pool) == *old(pool),
        },
{
    if !(caller == pool.authority) {
        return Err(ErrorCode::Unauthorized);
    }
    if funder_to_add == pool.authority {
        return Err(ErrorCode::FunderAlreadyAuthorized);
    }
    let zero = Address::zero();
    if pool.funders.s0 == funder_to_add || pool.funders.s1 == funder_to_add || pool.funders.s2
        == funder_to_add {
        return Err(ErrorCode::FunderAlreadyAuthorized);
    }
    if pool.funders.s0 == zero {
        pool.funders.s0 = funder_to_add;
    } else if pool.funders.s1 == zero {
        pool.funders.s1 = funder_to_add;
    } else if pool.funders.s2 == zero {
        pool.funders.s2 = funder_to_add;
    } else {
        return Err(ErrorCode::MaxFunders);
    }
    Ok(EventAuthorizeFunder { new_funder: funder_to_add })
}

/// Admin-only: frees the slot holding `funder_to_remove`.
/// Only the funder list changes; a rejection changes nothing.
pub fn deauthorize_funder(pool: &mut Pool, caller: Address, funder_to_remove: Address) -> (r:
    Result<EventUnauthorizeFunder, ErrorCode>)
    ensures
        caller != old(pool).authority ==> r == Err::<EventUnauthorizeFunder, ErrorCode>(
            ErrorCode::Unauthorized,
        ) && *final(pool) == *old(pool),
        caller == old(pool).authority ==> match spec_deauthorize(
            old(pool).funders,
            old(pool).authority,
            funder_to_remove,
        ) {
            Ok(f2) => r == Ok::<EventUnauthorizeFunder, ErrorCode>(
                EventUnauthorizeFunder { funder: funder_to_remove },
            ) && *final(pool) == Pool { funders: f2, ..*old(pool) },
            Err(e) => r == Err::<EventUnauthorizeFunder, ErrorCode>(e) && *final(pool) == *old(pool),
        },
{
    if !(caller == pool.authority) {
        return Err(ErrorCode::Unauthorized);
    }
    if funder_to_remove == pool.authority {
        return Err(ErrorCode::CannotDeauthorizePoolAuthority);
    }
    let zero = Address::zero();
    if pool.funders.s0 == funder_to_remove {
        pool.funders.s0 = zero;
    } else if pool.funders.s1 == funder_to_remove {
        pool.funders.s1 = zero;
    } else if pool.funders.s2 == funder_to_remove {
        pool.funders.s2 = zero;
    } else {
        return Err(ErrorCode::CannotDeauthorizeMissingAuthority);
    }
    Ok(EventUnauthorizeFunder { funder: funder_to_remove })
}

} // verus!
