//! The shape of bridge destinations: a location `(0, X3(GeneralKey(key),
//! GeneralIndex(chain), GeneralKey(recipient)))` names `recipient` on the
//! bridged chain `chain`, when `key` is the bridge key `"cb"`.
use vstd::prelude::*;
use crate::transact::{key_bytes, KeyData};
use crate::types::{location, local_account, Junction, Junctions, MultiLocation};

verus! {

/// The key that marks locations reached through the chain bridge: `"cb"`.
pub const CB_ASSET_KEY: [u8; 2] = [0x63, 0x62];

/// The bridge key as the 32-byte data of a general key junction.
pub const CB_KEY_DATA: [u8; 32] = [
    0x63, 0x62, 0, 0, 0, 0, 0, 0, 0, 0, 0, 0, 0, 0, 0, 0,
    0, 0, 0, 0, 0, 0, 0, 0, 0, 0, 0, 0, 0, 0, 0, 0,
];

/// Whether `key` holds exactly the bridge key `"cb"`.
pub open spec fn is_cb_key(key: KeyData) -> bool {
    key_bytes(key) == CB_ASSET_KEY@
}

/// Whether `key` holds exactly the bridge key `"cb"`.
pub fn check_cb_key(key: &KeyData) -> (r: bool)
    ensures
        r == is_cb_key(*key),
{
    let r = key.length == 2 && key.data[0] == CB_ASSET_KEY[0] && key.data[1] == CB_ASSET_KEY[1];
    proof {
        if r {
            assert(key_bytes(*key) =~= CB_ASSET_KEY@);
        } else if key_bytes(*key) == CB_ASSET_KEY@ {
            assert(key_bytes(*key).len() == 2);
            assert(key_bytes(*key)[0] == key.data@[0]);
            assert(key_bytes(*key)[1] == key.data@[1]);
        }
    }
    r
}

/// The parts of a bridge-shaped location: the key, the destination chain
/// index and the recipient key, if `who` is `(0, X3(GeneralKey, GeneralIndex,
/// GeneralKey))`.
pub open spec fn bridge_path(who: MultiLocation) -> Option<(KeyData, u128, KeyData)> {
    if who.parents == 0 {
        match who.interior {
            Junctions::X3(
                Junction::GeneralKey { length: l1, data: d1 },
                Junction::GeneralIndex(index),
                Junction::GeneralKey { length: l2, data: d2 },
            ) => Some(
                (KeyData { length: l1, data: d1 }, index, KeyData { length: l2, data: d2 }),
            ),
            _ => None,
        }
    } else {
        None
    }
}

/// Splits a bridge-shaped location into its key, chain index and recipient.
pub fn parse_bridge_path(who: &MultiLocation) -> (r: Option<(KeyData, u128, KeyData)>)
    ensures
        r == bridge_path(*who),
{
    if who.parents == 0 {
        match &who.interior {
            Junctions::X3(
                Junction::GeneralKey { length: l1, data: d1 },
                Junction::GeneralIndex(index),
                Junction::GeneralKey { length: l2, data: d2 },
            ) => Some(
                (KeyData { length: *l1, data: *d1 }, *index, KeyData { length: *l2, data: *d2 }),
            ),
            _ => None,
        }
    } else {
        None
    }
}

/// The bridge chain id of chain index `index`, if it fits in a byte.
pub open spec fn bridge_chain_id(index: u128) -> Option<u8> {
    if index <= 255 {
        Some(index as u8)
    } else {
        None
    }
}

/// Converts a chain index into a bridge chain id, if it fits in a byte.
pub fn to_bridge_chain_id(index: u128) -> (r: Option<u8>)
    ensures
        r == bridge_chain_id(index),
{
    if index <= 255 {
        Some(index as u8)
    } else {
        None
    }
}

/// The reserve location of the assets held for bridge chain `index`:
/// `(0, X2(GeneralKey("cb"), GeneralIndex(index)))`.
pub open spec fn dest_reserve(index: u128) -> MultiLocation {
    location(
        0,
        Junctions::X2(
            Junction::GeneralKey { length: 2, data: CB_KEY_DATA },
            Junction::GeneralIndex(index),
        ),
    )
}

/// Builds the reserve location of the assets held for bridge chain `index`.
pub fn dest_reserve_location(index: u128) -> (r: MultiLocation)
    ensures
        r == dest_reserve(index),
{
    MultiLocation::new(
        0,
        Junctions::X2(
            Junction::GeneralKey { length: 2, data: CB_KEY_DATA },
            Junction::GeneralIndex(index),
        ),
    )
}

/// Builds the location of the local 32-byte account `id`, on any network.
pub fn local_account_location(id: [u8; 32]) -> (r: MultiLocation)
    ensures
        r == local_account(id),
{
    MultiLocation::new(0, Junctions::X1(Junction::AccountId32 { network: None, id }))
}

/// The reserve of bridge chain `index` is `(0, X2(GeneralKey("cb"),
/// GeneralIndex(index)))`: its key is the bridge key, its second junction
/// names the chain, and so different chains have different reserves.
pub proof fn lemma_dest_reserve_names_its_chain(index: u128, other: u128)
    ensures
        dest_reserve(index).parents == 0,
        dest_reserve(index).interior matches Junctions::X2(
            Junction::GeneralKey { length, data },
            Junction::GeneralIndex(i),
        ) && i == index && key_bytes(KeyData { length, data }) == seq![0x63u8, 0x62u8],
        index != other ==> dest_reserve(index) != dest_reserve(other),
{
    assert(key_bytes(KeyData { length: 2, data: CB_KEY_DATA }) =~= seq![0x63u8, 0x62u8]);
}

} // verus!
