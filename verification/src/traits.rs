//! The assets the transfer pallet moves, and the transactors it moves them
//! with.
use vstd::prelude::*;
use crate::types::{here, MultiAsset, MultiLocation};

verus! {

/// An asset as the transfer pallet names it: the native token, a fungible
/// asset of the asset registry, or one instance of a non-fungible class.
#[derive(Clone, Debug, PartialEq, Eq, PartialOrd, Ord)]
pub enum XAsset<AssetId, ClassId, InstanceId> {
    Native,
    Fungible(AssetId),
    NonFungible(ClassId, InstanceId),
}

/// The location of `asset`, given `registered`, the location that the
/// registry keeps for a fungible or non-fungible asset.
pub open spec fn xasset_location<A, C, I>(
    asset: XAsset<A, C, I>,
    registered: Option<MultiLocation>,
) -> Option<MultiLocation> {
    match asset {
        XAsset::Native => Some(here()),
        _ => registered,
    }
}

impl<AssetId, ClassId, InstanceId> XAsset<AssetId, ClassId, InstanceId> {
    /// The location of the asset: `(0, Here)` for the native token, and the
    /// location that the registry keeps for the others (`registered`).
    pub fn into_location(self, registered: Option<MultiLocation>) -> (r: Option<MultiLocation>)
        ensures
            r == xasset_location(self, registered),
    {
        match self {
            XAsset::Native => Some(MultiLocation::here()),
            _ => registered,
        }
    }
}

/// Why a dispatched call failed.
#[derive(Clone, Copy, Debug)]
pub enum DispatchError {
    /// A failure described by its text.
    Other(&'static str),
}

/// The outcome of a dispatched call.
pub type DispatchResult = Result<(), DispatchError>;

/// Moves assets and data from a sender to a destination on another chain.
pub trait XTransact {
    /// Sends the fungible `asset` from `sender` to `dest`.
    fn transfer_fungible(
        sender: MultiLocation,
        asset: MultiAsset,
        dest: MultiLocation,
    ) -> DispatchResult;

    /// Sends the non-fungible `asset` from `sender` to `dest`.
    fn transfer_nonfungible(
        sender: MultiLocation,
        asset: MultiAsset,
        dest: MultiLocation,
    ) -> DispatchResult;

    /// Sends `data` from `sender` to `dest`.
    fn transfer_generic(sender: MultiLocation, data: Vec<u8>, dest: MultiLocation) -> DispatchResult;
}

/// The transactor that accepts every transfer and does nothing.
impl XTransact for () {
    fn transfer_fungible(
        sender: MultiLocation,
        asset: MultiAsset,
        dest: MultiLocation,
    ) -> (r: DispatchResult)
        ensures
            r is Ok,
    {
        Ok(())
    }

    fn transfer_nonfungible(
        sender: MultiLocation,
        asset: MultiAsset,
        dest: MultiLocation,
    ) -> (r: DispatchResult)
        ensures
            r is Ok,
    {
        Ok(())
    }

    fn transfer_generic(sender: MultiLocation, data: Vec<u8>, dest: MultiLocation) -> (r:
        DispatchResult)
        ensures
            r is Ok,
    {
        Ok(())
    }
}

} // verus!
