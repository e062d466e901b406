//! The transfer legs of the orchestrator: the model of the asset transfer
//! service moving fungible units between two holding accounts of one asset
//! type, and the variant that consumes a delegated-authority capability.

use vstd::prelude::*;

use crate::engine::AuthorityCapability;
use crate::errors::ErrorCode;
use crate::record::HoldingAccount;

verus! {

/// Whether the service can move `amount` units from `from` to `to`.
pub open spec fn transfer_fits(from: HoldingAccount, to: HoldingAccount, amount: u64) -> bool {
    from.balance >= amount && to.balance + amount <= u64::MAX
}

/// Move `amount` units from `from` to `to`. The service refuses, moving
/// nothing, exactly when `from` lacks the units or `to` cannot hold them.
pub(crate) fn transfer_units(
    from: &mut HoldingAccount,
    to: &mut HoldingAccount,
    amount: u64,
) -> (r: Result<(), ErrorCode>)
    requires
        old(from).mint@ == old(to).mint@,
    ensures
        r matches Ok(()) <==> transfer_fits(*old(from), *old(to), amount),
        r matches Err(e) ==> e == ErrorCode::ServiceUnavailable,
        r matches Ok(()) ==> *final(from) == (HoldingAccount {
            balance: (old(from).balance - amount) as u64,
            ..*old(from)
        }) && *final(to) == (HoldingAccount {
            balance: (old(to).balance + amount) as u64,
            ..*old(to)
        }),
        r matches Err(e) ==> *final(from) == *old(from) && *final(to) == *old(to),
{
    if from.balance < amount {
        return Err(ErrorCode::ServiceUnavailable);
    }
    if amount > u64::MAX - to.balance {
        return Err(ErrorCode::ServiceUnavailable);
    }
    from.balance = from.balance - amount;
    to.balance = to.balance + amount;
    Ok(())
}

/// Move `amount` units out of the custody account `from`, under the
/// delegated authority `cap`. The capability must prove control of `from`;
/// it is consumed by the call.
pub(crate) fn release_from_custody(
    cap: AuthorityCapability,
    from: &mut HoldingAccount,
    to: &mut HoldingAccount,
    amount: u64,
) -> (r: Result<(), ErrorCode>)
    requires
        cap.authority@ == old(from).owner@,
        old(from).mint@ == old(to).mint@,
    ensures
        r matches Ok(()) <==> transfer_fits(*old(from), *old(to), amount),
        r matches Err(e) ==> e == ErrorCode::ServiceUnavailable,
        r matches Ok(()) ==> *final(from) == (HoldingAccount {
            balance: (old(from).balance - amount) as u64,
            ..*old(from)
        }) && *final(to) == (HoldingAccount {
            balance: (old(to).balance + amount) as u64,
            ..*old(to)
        }),
        r matches Err(e) ==> *final(from) == *old(from) && *final(to) == *old(to),
{
    let _ = cap;
    transfer_units(from, to, amount)
}

} // verus!
