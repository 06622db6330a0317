//! Keys under which the ownership-voucher store keeps its per-voucher
//! metadata.
use vstd::prelude::*;

verus! {

/// Metadata that the owner-onboarding and manufacturing servers record for
/// an ownership voucher.
#[non_exhaustive]
#[derive(Clone, Copy, Debug, PartialEq, Eq, Structural)]
pub enum OwnershipVoucherStoreMetadataKey {
    To2Performed,
    To0AcceptOwnerWaitSeconds,
}

/// The store key of each metadata entry.
pub open spec fn metadata_key(k: OwnershipVoucherStoreMetadataKey) -> Seq<char> {
    match k {
        OwnershipVoucherStoreMetadataKey::To2Performed => "fdo.to2_performed"@,
        OwnershipVoucherStoreMetadataKey::To0AcceptOwnerWaitSeconds => "fdo.to0_accept_owner_wait_seconds"@,
    }
}

impl OwnershipVoucherStoreMetadataKey {
    /// The store key of this entry.
    pub fn to_key(&self) -> (r: &'static str)
        ensures
            r@ == metadata_key(*self),
    {
        match self {
            OwnershipVoucherStoreMetadataKey::To2Performed => "fdo.to2_performed",
            OwnershipVoucherStoreMetadataKey::To0AcceptOwnerWaitSeconds => {
                "fdo.to0_accept_owner_wait_seconds"
            },
        }
    }
}

} // verus!
