//! The 128-bit identifiers that performance records carry.
//!
//! A GUID is a value of `r_efi`. The library carries it through as it is and reads it in
//! one way only: as the sixteen bytes that are written into a record.

use vstd::prelude::*;

verus! {

/// `r_efi::base::Guid`, which the library carries through without looking into it.
#[verifier::external_type_specification]
#[verifier::external_body]
pub struct ExGuid(r_efi::base::Guid);

/// The sixteen bytes of a GUID, in the order in which they lie in memory. The function has
/// no definition here: it stands for what `Guid::as_bytes` returns.
pub uninterp spec fn guid_bytes(guid: r_efi::base::Guid) -> [u8; 16];

/// `Guid::as_bytes` of `r_efi` gives access to a GUID as an array of sixteen bytes, without
/// converting anything. The contract is not proved: it says that the array which the call
/// returns holds the bytes which `guid_bytes` names, so that two calls on one GUID return
/// the same bytes.
pub assume_specification[ r_efi::base::Guid::as_bytes ](guid: &r_efi::base::Guid) -> (bytes: &[
    u8;
    16
])
    ensures
        *bytes == guid_bytes(*guid),
;

} // verus!
