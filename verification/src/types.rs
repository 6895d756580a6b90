//! Plain-value models of the XCM location and asset types that the transfer
//! logic reads: locations, junctions, asset ids and fungibility.
//!
//! The shapes follow XCM version 3 (`xcm::v3`), so that a value converts one
//! for one.  Equality is written by hand because the byte arrays in these
//! types do not support structural equality in Verus.
use vstd::prelude::*;

verus! {

/// Compares two byte arrays element by element.
pub fn bytes_eq<const N: usize>(a: &[u8; N], b: &[u8; N]) -> (r: bool)
    ensures
        r == (*a == *b),
{
    let mut i: usize = 0;
    while i < N
        invariant
            i <= N,
            a@.len() == N,
            b@.len() == N,
            forall|j: int| 0 <= j < i ==> a@[j] == b@[j],
        decreases N - i,
    {
        if a[i] != b[i] {
            return false;
        }
        i = i + 1;
    }
    proof {
        assert(a@ =~= b@);
        vstd::array::axiom_array_ext_equal(*a, *b);
    }
    true
}

/// A global identifier of a consensus system.
#[derive(Clone, Copy, Debug)]
pub enum NetworkId {
    ByGenesis([u8; 32]),
    ByFork { block_number: u64, block_hash: [u8; 32] },
    Polkadot,
    Kusama,
    Westend,
    Rococo,
    Wococo,
    Ethereum { chain_id: u64 },
    BitcoinCore,
    BitcoinCash,
}

impl PartialEq for NetworkId {
    fn eq(&self, other: &Self) -> (r: bool) {
        match (self, other) {
            (NetworkId::ByGenesis(a), NetworkId::ByGenesis(b)) => bytes_eq(a, b),
            (
                NetworkId::ByFork { block_number: n1, block_hash: h1 },
                NetworkId::ByFork { block_number: n2, block_hash: h2 },
            ) => *n1 == *n2 && bytes_eq(h1, h2),
            (NetworkId::Polkadot, NetworkId::Polkadot) => true,
            (NetworkId::Kusama, NetworkId::Kusama) => true,
            (NetworkId::Westend, NetworkId::Westend) => true,
            (NetworkId::Rococo, NetworkId::Rococo) => true,
            (NetworkId::Wococo, NetworkId::Wococo) => true,
            (NetworkId::Ethereum { chain_id: a }, NetworkId::Ethereum { chain_id: b }) => *a == *b,
            (NetworkId::BitcoinCore, NetworkId::BitcoinCore) => true,
            (NetworkId::BitcoinCash, NetworkId::BitcoinCash) => true,
            _ => false,
        }
    }
}

impl vstd::std_specs::cmp::PartialEqSpecImpl for NetworkId {
    open spec fn obeys_eq_spec() -> bool {
        true
    }

    open spec fn eq_spec(&self, other: &Self) -> bool {
        *self == *other
    }
}

/// Compares two optional network ids.
pub fn network_eq(a: &Option<NetworkId>, b: &Option<NetworkId>) -> (r: bool)
    ensures
        r == (*a == *b),
{
    match (a, b) {
        (Some(x), Some(y)) => *x == *y,
        (None, None) => true,
        _ => false,
    }
}

/// The kind of a body in a plurality.
#[derive(Clone, Copy, Debug)]
pub enum BodyId {
    Unit,
    Moniker([u8; 4]),
    Index(u32),
    Executive,
    Technical,
    Legislative,
    Judicial,
    Defense,
    Administration,
    Treasury,
}

impl PartialEq for BodyId {
    fn eq(&self, other: &Self) -> (r: bool) {
        match (self, other) {
            (BodyId::Unit, BodyId::Unit) => true,
            (BodyId::Moniker(a), BodyId::Moniker(b)) => bytes_eq(a, b),
            (BodyId::Index(a), BodyId::Index(b)) => *a == *b,
            (BodyId::Executive, BodyId::Executive) => true,
            (BodyId::Technical, BodyId::Technical) => true,
            (BodyId::Legislative, BodyId::Legislative) => true,
            (BodyId::Judicial, BodyId::Judicial) => true,
            (BodyId::Defense, BodyId::Defense) => true,
            (BodyId::Administration, BodyId::Administration) => true,
            (BodyId::Treasury, BodyId::Treasury) => true,
            _ => false,
        }
    }
}

impl vstd::std_specs::cmp::PartialEqSpecImpl for BodyId {
    open spec fn obeys_eq_spec() -> bool {
        true
    }

    open spec fn eq_spec(&self, other: &Self) -> bool {
        *self == *other
    }
}

/// The part of a body that a plurality speaks for.
#[derive(Clone, Copy, Debug, PartialEq, Eq, Structural)]
pub enum BodyPart {
    Voice,
    Members { count: u32 },
    Fraction { nom: u32, denom: u32 },
    AtLeastProportion { nom: u32, denom: u32 },
    MoreThanProportion { nom: u32, denom: u32 },
}

/// One step of an interior location.
#[derive(Clone, Copy, Debug)]
pub enum Junction {
    Parachain(u32),
    AccountId32 { network: Option<NetworkId>, id: [u8; 32] },
    AccountIndex64 { network: Option<NetworkId>, index: u64 },
    AccountKey20 { network: Option<NetworkId>, key: [u8; 20] },
    PalletInstance(u8),
    GeneralIndex(u128),
    GeneralKey { length: u8, data: [u8; 32] },
    OnlyChild,
    Plurality { id: BodyId, part: BodyPart },
    GlobalConsensus(NetworkId),
}

impl PartialEq for Junction {
    fn eq(&self, other: &Self) -> (r: bool) {
        match (self, other) {
            (Junction::Parachain(a), Junction::Parachain(b)) => *a == *b,
            (
                Junction::AccountId32 { network: n1, id: i1 },
                Junction::AccountId32 { network: n2, id: i2 },
            ) => network_eq(n1, n2) && bytes_eq(i1, i2),
            (
                Junction::AccountIndex64 { network: n1, index: i1 },
                Junction::AccountIndex64 { network: n2, index: i2 },
            ) => network_eq(n1, n2) && *i1 == *i2,
            (
                Junction::AccountKey20 { network: n1, key: k1 },
                Junction::AccountKey20 { network: n2, key: k2 },
            ) => network_eq(n1, n2) && bytes_eq(k1, k2),
            (Junction::PalletInstance(a), Junction::PalletInstance(b)) => *a == *b,
            (Junction::GeneralIndex(a), Junction::GeneralIndex(b)) => *a == *b,
            (
                Junction::GeneralKey { length: l1, data: d1 },
                Junction::GeneralKey { length: l2, data: d2 },
            ) => *l1 == *l2 && bytes_eq(d1, d2),
            (Junction::OnlyChild, Junction::OnlyChild) => true,
            (Junction::Plurality { id: i1, part: p1 }, Junction::Plurality { id: i2, part: p2 }) => {
                *i1 == *i2 && *p1 == *p2
            },
            (Junction::GlobalConsensus(a), Junction::GlobalConsensus(b)) => *a == *b,
            _ => false,
        }
    }
}

impl vstd::std_specs::cmp::PartialEqSpecImpl for Junction {
    open spec fn obeys_eq_spec() -> bool {
        true
    }

    open spec fn eq_spec(&self, other: &Self) -> bool {
        *self == *other
    }
}

/// The interior of a location: up to eight junctions, outermost first.
#[derive(Clone, Copy, Debug)]
pub enum Junctions {
    Here,
    X1(Junction),
    X2(Junction, Junction),
    X3(Junction, Junction, Junction),
    X4(Junction, Junction, Junction, Junction),
    X5(Junction, Junction, Junction, Junction, Junction),
    X6(Junction, Junction, Junction, Junction, Junction, Junction),
    X7(Junction, Junction, Junction, Junction, Junction, Junction, Junction),
    X8(Junction, Junction, Junction, Junction, Junction, Junction, Junction, Junction),
}

impl Junctions {
    /// The outermost junction, if there is one.
    pub open spec fn spec_first(self) -> Option<Junction> {
        match self {
            Junctions::Here => None,
            Junctions::X1(a) => Some(a),
            Junctions::X2(a, ..) => Some(a),
            Junctions::X3(a, ..) => Some(a),
            Junctions::X4(a, ..) => Some(a),
            Junctions::X5(a, ..) => Some(a),
            Junctions::X6(a, ..) => Some(a),
            Junctions::X7(a, ..) => Some(a),
            Junctions::X8(a, ..) => Some(a),
        }
    }

    /// Returns the outermost junction, if there is one.
    pub fn first(&self) -> (r: Option<Junction>)
        ensures
            r == self.spec_first(),
    {
        match self {
            Junctions::Here => None,
            Junctions::X1(a) => Some(*a),
            Junctions::X2(a, ..) => Some(*a),
            Junctions::X3(a, ..) => Some(*a),
            Junctions::X4(a, ..) => Some(*a),
            Junctions::X5(a, ..) => Some(*a),
            Junctions::X6(a, ..) => Some(*a),
            Junctions::X7(a, ..) => Some(*a),
            Junctions::X8(a, ..) => Some(*a),
        }
    }
}

impl PartialEq for Junctions {
    fn eq(&self, other: &Self) -> (r: bool) {
        match (self, other) {
            (Junctions::Here, Junctions::Here) => true,
            (Junctions::X1(a1), Junctions::X1(b1)) => *a1 == *b1,
            (Junctions::X2(a1, a2), Junctions::X2(b1, b2)) => *a1 == *b1 && *a2 == *b2,
            (Junctions::X3(a1, a2, a3), Junctions::X3(b1, b2, b3)) => {
                *a1 == *b1 && *a2 == *b2 && *a3 == *b3
            },
            (Junctions::X4(a1, a2, a3, a4), Junctions::X4(b1, b2, b3, b4)) => {
                *a1 == *b1 && *a2 == *b2 && *a3 == *b3 && *a4 == *b4
            },
            (Junctions::X5(a1, a2, a3, a4, a5), Junctions::X5(b1, b2, b3, b4, b5)) => {
                *a1 == *b1 && *a2 == *b2 && *a3 == *b3 && *a4 == *b4 && *a5 == *b5
            },
            (Junctions::X6(a1, a2, a3, a4, a5, a6), Junctions::X6(b1, b2, b3, b4, b5, b6)) => {
                *a1 == *b1 && *a2 == *b2 && *a3 == *b3 && *a4 == *b4 && *a5 == *b5 && *a6 == *b6
            },
            (
                Junctions::X7(a1, a2, a3, a4, a5, a6, a7),
                Junctions::X7(b1, b2, b3, b4, b5, b6, b7),
            ) => {
                *a1 == *b1 && *a2 == *b2 && *a3 == *b3 && *a4 == *b4 && *a5 == *b5 && *a6 == *b6
                    && *a7 == *b7
            },
            (
                Junctions::X8(a1, a2, a3, a4, a5, a6, a7, a8),
                Junctions::X8(b1, b2, b3, b4, b5, b6, b7, b8),
            ) => {
                *a1 == *b1 && *a2 == *b2 && *a3 == *b3 && *a4 == *b4 && *a5 == *b5 && *a6 == *b6
                    && *a7 == *b7 && *a8 == *b8
            },
            _ => false,
        }
    }
}

impl vstd::std_specs::cmp::PartialEqSpecImpl for Junctions {
    open spec fn obeys_eq_spec() -> bool {
        true
    }

    open spec fn eq_spec(&self, other: &Self) -> bool {
        *self == *other
    }
}

/// A location relative to the current consensus system: a number of steps
/// up (`parents`), then down through the `interior` junctions.
#[derive(Clone, Copy, Debug)]
pub struct MultiLocation {
    pub parents: u8,
    pub interior: Junctions,
}

/// The location `(parents, interior)`.
pub open spec fn location(parents: u8, interior: Junctions) -> MultiLocation {
    MultiLocation { parents, interior }
}

/// The location of the current consensus system itself.
pub open spec fn here() -> MultiLocation {
    location(0, Junctions::Here)
}

/// The location of the parent consensus system.
pub open spec fn parent() -> MultiLocation {
    location(1, Junctions::Here)
}

/// The location `(parents, X1(Parachain(id)))`.
pub open spec fn parachain(parents: u8, id: u32) -> MultiLocation {
    location(parents, Junctions::X1(Junction::Parachain(id)))
}

/// The local 32-byte account `id`, on any network.
pub open spec fn local_account(id: [u8; 32]) -> MultiLocation {
    location(0, Junctions::X1(Junction::AccountId32 { network: None, id }))
}

impl MultiLocation {
    /// Builds the location `(parents, interior)`.
    pub fn new(parents: u8, interior: Junctions) -> (r: MultiLocation)
        ensures
            r == location(parents, interior),
    {
        MultiLocation { parents, interior }
    }

    /// Builds the location of the current consensus system.
    pub fn here() -> (r: MultiLocation)
        ensures
            r == here(),
    {
        MultiLocation { parents: 0, interior: Junctions::Here }
    }

    /// Builds the location of the parent consensus system.
    pub fn parent() -> (r: MultiLocation)
        ensures
            r == parent(),
    {
        MultiLocation { parents: 1, interior: Junctions::Here }
    }

    /// Returns the outermost interior junction, if there is one.
    pub fn first_interior(&self) -> (r: Option<Junction>)
        ensures
            r == self.interior.spec_first(),
    {
        self.interior.first()
    }
}

impl PartialEq for MultiLocation {
    fn eq(&self, other: &Self) -> (r: bool) {
        self.parents == other.parents && self.interior == other.interior
    }
}

impl vstd::std_specs::cmp::PartialEqSpecImpl for MultiLocation {
    open spec fn obeys_eq_spec() -> bool {
        true
    }

    open spec fn eq_spec(&self, other: &Self) -> bool {
        *self == *other
    }
}

/// How an asset is identified: by a location, or by an abstract 32-byte name.
#[derive(Clone, Copy, Debug)]
pub enum AssetId {
    Concrete(MultiLocation),
    Abstract([u8; 32]),
}

impl PartialEq for AssetId {
    fn eq(&self, other: &Self) -> (r: bool) {
        match (self, other) {
            (AssetId::Concrete(a), AssetId::Concrete(b)) => *a == *b,
            (AssetId::Abstract(a), AssetId::Abstract(b)) => bytes_eq(a, b),
            _ => false,
        }
    }
}

impl vstd::std_specs::cmp::PartialEqSpecImpl for AssetId {
    open spec fn obeys_eq_spec() -> bool {
        true
    }

    open spec fn eq_spec(&self, other: &Self) -> bool {
        *self == *other
    }
}

/// Which one of a class of non-fungible assets is meant.
#[derive(Clone, Copy, Debug)]
pub enum AssetInstance {
    Undefined,
    Index(u128),
    Array4([u8; 4]),
    Array8([u8; 8]),
    Array16([u8; 16]),
    Array32([u8; 32]),
}

impl PartialEq for AssetInstance {
    fn eq(&self, other: &Self) -> (r: bool) {
        match (self, other) {
            (AssetInstance::Undefined, AssetInstance::Undefined) => true,
            (AssetInstance::Index(a), AssetInstance::Index(b)) => *a == *b,
            (AssetInstance::Array4(a), AssetInstance::Array4(b)) => bytes_eq(a, b),
            (AssetInstance::Array8(a), AssetInstance::Array8(b)) => bytes_eq(a, b),
            (AssetInstance::Array16(a), AssetInstance::Array16(b)) => bytes_eq(a, b),
            (AssetInstance::Array32(a), AssetInstance::Array32(b)) => bytes_eq(a, b),
            _ => false,
        }
    }
}

impl vstd::std_specs::cmp::PartialEqSpecImpl for AssetInstance {
    open spec fn obeys_eq_spec() -> bool {
        true
    }

    open spec fn eq_spec(&self, other: &Self) -> bool {
        *self == *other
    }
}

/// An amount of a fungible asset, or one instance of a non-fungible asset.
#[derive(Clone, Copy, Debug)]
pub enum Fungibility {
    Fungible(u128),
    NonFungible(AssetInstance),
}

impl PartialEq for Fungibility {
    fn eq(&self, other: &Self) -> (r: bool) {
        match (self, other) {
            (Fungibility::Fungible(a), Fungibility::Fungible(b)) => *a == *b,
            (Fungibility::NonFungible(a), Fungibility::NonFungible(b)) => *a == *b,
            _ => false,
        }
    }
}

impl vstd::std_specs::cmp::PartialEqSpecImpl for Fungibility {
    open spec fn obeys_eq_spec() -> bool {
        true
    }

    open spec fn eq_spec(&self, other: &Self) -> bool {
        *self == *other
    }
}

/// An asset together with how much of it, or which instance of it, is meant.
#[derive(Clone, Copy, Debug)]
pub struct MultiAsset {
    pub id: AssetId,
    pub fun: Fungibility,
}

/// The amount `amount` of the asset at `location`.
pub open spec fn concrete_fungible(location: MultiLocation, amount: u128) -> MultiAsset {
    MultiAsset { id: AssetId::Concrete(location), fun: Fungibility::Fungible(amount) }
}

impl MultiAsset {
    /// Builds the asset `amount` of the asset at `location`.
    pub fn concrete_fungible(location: MultiLocation, amount: u128) -> (r: MultiAsset)
        ensures
            r == concrete_fungible(location, amount),
    {
        MultiAsset { id: AssetId::Concrete(location), fun: Fungibility::Fungible(amount) }
    }
}

impl PartialEq for MultiAsset {
    fn eq(&self, other: &Self) -> (r: bool) {
        self.id == other.id && self.fun == other.fun
    }
}

impl vstd::std_specs::cmp::PartialEqSpecImpl for MultiAsset {
    open spec fn obeys_eq_spec() -> bool {
        true
    }

    open spec fn eq_spec(&self, other: &Self) -> bool {
        *self == *other
    }
}

} // verus!
