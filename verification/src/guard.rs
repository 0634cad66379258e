//! The two checks that stand before every change: who signs, and whether an
//! address is the one that its seeds lead to.

use vstd::prelude::*;
use crate::address::address_view;
use crate::address::derived_view;
use crate::address::Address;
use crate::errors::ErrorCode;

verus! {

/// The signer must be the authority that a record names.
pub open spec fn authorized(signer: Seq<u8>, authority: Seq<u8>) -> Result<(), ErrorCode> {
    if signer == authority {
        Ok(())
    } else {
        Err(ErrorCode::Unauthorized)
    }
}

/// The address derived from the seeds must be the address referred to. The
/// bump of the derivation comes back.
pub open spec fn matched(derived: Option<(Seq<u8>, u8)>, referenced: Seq<u8>) -> Result<
    u8,
    ErrorCode,
> {
    match derived {
        Some((address, bump)) => if address == referenced {
            Ok(bump)
        } else {
            Err(ErrorCode::AddressMismatch)
        },
        None => Err(ErrorCode::AddressMismatch),
    }
}

/// The address recomputed with a stored bump must be the address referred to.
pub open spec fn rematched(recomputed: Option<Seq<u8>>, referenced: Seq<u8>) -> Result<
    (),
    ErrorCode,
> {
    if recomputed == Some(referenced) {
        Ok(())
    } else {
        Err(ErrorCode::AddressMismatch)
    }
}

/// Checks the signer of a request against the authority of a record.
pub fn check_authority(signer: &Address, authority: &Address) -> (r: Result<(), ErrorCode>)
    ensures
        r == authorized(signer@, authority@),
{
    if signer.same(authority) {
        Ok(())
    } else {
        Err(ErrorCode::Unauthorized)
    }
}

/// Checks a derived address against the address that a request refers to.
pub fn check_address(derived: &Option<(Address, u8)>, referenced: &Address) -> (r: Result<
    u8,
    ErrorCode,
>)
    ensures
        r == matched(derived_view(*derived), referenced@),
{
    match derived {
        Some((address, bump)) => {
            if address.same(referenced) {
                Ok(*bump)
            } else {
                Err(ErrorCode::AddressMismatch)
            }
        },
        None => Err(ErrorCode::AddressMismatch),
    }
}

/// Checks an address recomputed with a stored bump against the address that a
/// request refers to.
pub fn check_stored_address(recomputed: &Option<Address>, referenced: &Address) -> (r: Result<
    (),
    ErrorCode,
>)
    ensures
        r == rematched(address_view(*recomputed), referenced@),
{
    match recomputed {
        Some(address) => {
            if address.same(referenced) {
                Ok(())
            } else {
                Err(ErrorCode::AddressMismatch)
            }
        },
        None => Err(ErrorCode::AddressMismatch),
    }
}

} // verus!
