//! How the transfer pallet routes an outgoing transfer: to the chain bridge,
//! to the Celer bridge, or over XCM, by the shape of the destination.
use vstd::prelude::*;
use crate::bridge::{bridge_path, check_cb_key, is_cb_key, parse_bridge_path, CB_ASSET_KEY};
use crate::traits::{xasset_location, XAsset};
use crate::transact::{key_bytes, KeyData};
use crate::types::{
    concrete_fungible, local_account, Junction, Junctions, MultiAsset, MultiLocation, NetworkId,
};

verus! {

/// The key that marks locations reached through the Celer bridge: `"ce"`.
pub const CE_ASSET_KEY: [u8; 2] = [0x63, 0x65];

/// Whether `key` holds exactly the Celer bridge key `"ce"`.
pub open spec fn is_ce_key(key: KeyData) -> bool {
    key_bytes(key) == CE_ASSET_KEY@
}

/// Whether `key` holds exactly the Celer bridge key `"ce"`.
pub fn check_ce_key(key: &KeyData) -> (r: bool)
    ensures
        r == is_ce_key(*key),
{
    let r = key.length == 2 && key.data[0] == CE_ASSET_KEY[0] && key.data[1] == CE_ASSET_KEY[1];
    proof {
        if r {
            assert(key_bytes(*key) =~= CE_ASSET_KEY@);
        } else if key_bytes(*key) == CE_ASSET_KEY@ {
            assert(key_bytes(*key).len() == 2);
            assert(key_bytes(*key)[0] == key.data@[0]);
            assert(key_bytes(*key)[1] == key.data@[1]);
        }
    }
    r
}

/// The transactor that carries a transfer out.
#[derive(Clone, Copy, Debug, PartialEq, Eq, Structural)]
pub enum TransferRoute {
    /// The chain bridge, to a solo chain.
    ChainBridge,
    /// The Celer bridge, to a solo chain.
    CelerBridge,
    /// XCM, to an account on the relay chain or on a sibling parachain.
    Xcm,
}

/// The route of a transfer to `dest`: a bridge-shaped `dest` goes over the
/// bridge its key names, `(1, X1(AccountId32))` and
/// `(1, X2(Parachain, AccountId32))` go over XCM, and any other destination
/// has no route.
pub open spec fn transfer_route(dest: MultiLocation) -> Option<TransferRoute> {
    match bridge_path(dest) {
        Some((key, _, _)) => if is_cb_key(key) {
            Some(TransferRoute::ChainBridge)
        } else if is_ce_key(key) {
            Some(TransferRoute::CelerBridge)
        } else {
            None
        },
        None => if dest.parents == 1 && ((dest.interior matches Junctions::X1(
            Junction::AccountId32 { .. },
        )) || (dest.interior matches Junctions::X2(
            Junction::Parachain(_),
            Junction::AccountId32 { .. },
        ))) {
            Some(TransferRoute::Xcm)
        } else {
            None
        },
    }
}

/// The transfer pallet's decisions.
pub struct Pallet;

impl Pallet {
    /// Finds the transactor that carries a transfer to `dest`.
    pub fn route(dest: &MultiLocation) -> (r: Option<TransferRoute>)
        ensures
            r == transfer_route(*dest),
    {
        match parse_bridge_path(dest) {
            Some((key, _, _)) => {
                if check_cb_key(&key) {
                    Some(TransferRoute::ChainBridge)
                } else if check_ce_key(&key) {
                    Some(TransferRoute::CelerBridge)
                } else {
                    None
                }
            },
            None => {
                if dest.parents == 1 {
                    match &dest.interior {
                        Junctions::X1(Junction::AccountId32 { .. }) => Some(TransferRoute::Xcm),
                        Junctions::X2(Junction::Parachain(_), Junction::AccountId32 { .. }) => Some(
                            TransferRoute::Xcm,
                        ),
                        _ => None,
                    }
                } else {
                    None
                }
            },
        }
    }

    /// The asset that a transfer of `amount` of `asset` moves: `amount` of
    /// the asset at the location of `asset` (`registered` is the location the
    /// registry keeps for an asset other than the native token).  `None` for
    /// a non-fungible asset, and when the location is unknown.
    pub fn transfer_asset<A, C, I>(
        asset: XAsset<A, C, I>,
        amount: u128,
        registered: Option<MultiLocation>,
    ) -> (r: Option<MultiAsset>)
        ensures
            r == (match asset {
                XAsset::NonFungible(..) => None,
                _ => match xasset_location(asset, registered) {
                    Some(location) => Some(concrete_fungible(location, amount)),
                    None => None,
                },
            }),
    {
        match asset {
            XAsset::NonFungible(..) => None,
            _ => match asset.into_location(registered) {
                Some(location) => Some(MultiAsset::concrete_fungible(location, amount)),
                None => None,
            },
        }
    }
}

/// `(1, X1(AccountId32 { network, id }))`, an account on the relay chain.
pub open spec fn relay_account(network: Option<NetworkId>, id: [u8; 32]) -> MultiLocation {
    MultiLocation { parents: 1, interior: Junctions::X1(Junction::AccountId32 { network, id }) }
}

/// `(1, X2(Parachain(p), AccountId32 { network, id }))`, an account on a
/// sibling parachain.
pub open spec fn sibling_account(p: u32, network: Option<NetworkId>, id: [u8; 32]) -> MultiLocation {
    MultiLocation {
        parents: 1,
        interior: Junctions::X2(Junction::Parachain(p), Junction::AccountId32 { network, id }),
    }
}

/// `(0, X3(GeneralKey(key), GeneralIndex(chain), GeneralKey(recipient)))`.
pub open spec fn bridge_destination(key: KeyData, chain: u128, recipient: KeyData) -> MultiLocation {
    MultiLocation {
        parents: 0,
        interior: Junctions::X3(
            Junction::GeneralKey { length: key.length, data: key.data },
            Junction::GeneralIndex(chain),
            Junction::GeneralKey { length: recipient.length, data: recipient.data },
        ),
    }
}

/// Transfers go over XCM to every account on the relay chain and on every
/// sibling parachain, whatever network the account names (or none); over the
/// chain bridge to every bridge destination with the key `"cb"`, and over the
/// Celer bridge to every one with the key `"ce"`, whatever the chain and the
/// recipient; local accounts have no route.
pub proof fn lemma_route_by_destination(
    network: Option<NetworkId>,
    id: [u8; 32],
    p: u32,
    key: KeyData,
    chain: u128,
    recipient: KeyData,
)
    ensures
        transfer_route(relay_account(network, id)) == Some(TransferRoute::Xcm),
        transfer_route(sibling_account(p, network, id)) == Some(TransferRoute::Xcm),
        key_bytes(key) == seq![0x63u8, 0x62u8] ==> transfer_route(
            bridge_destination(key, chain, recipient),
        ) == Some(TransferRoute::ChainBridge),
        key_bytes(key) == seq![0x63u8, 0x65u8] ==> transfer_route(
            bridge_destination(key, chain, recipient),
        ) == Some(TransferRoute::CelerBridge),
        key_bytes(key) != seq![0x63u8, 0x62u8] && key_bytes(key) != seq![0x63u8, 0x65u8]
            ==> transfer_route(bridge_destination(key, chain, recipient)) is None,
        transfer_route(local_account(id)) is None,
{
    assert(CB_ASSET_KEY@ =~= seq![0x63u8, 0x62u8]);
    assert(CE_ASSET_KEY@ =~= seq![0x63u8, 0x65u8]);
}

} // verus!
