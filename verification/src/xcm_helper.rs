//! Asset recognition for the XCM executor: which assets are native, where an
//! asset comes from, and how assets are matched against the local registry.
use vstd::prelude::*;
use crate::bridge::{
    bridge_chain_id, bridge_path, check_cb_key, dest_reserve, dest_reserve_location, is_cb_key,
    local_account_location, parse_bridge_path, to_bridge_chain_id,
};
use crate::transact::{answers, KeyData, Reason, Reply, Request, Step, Transactor, XcmError};
use crate::types::{
    here, local_account, parachain, parent, AssetId, Fungibility, Junction, Junctions, MultiAsset,
    MultiLocation,
};

verus! {

/// Decides which assets and asset ids are the chain's native token.
///
/// Implementations state what they decide through the three spec functions.
pub trait NativeAssetChecker {
    /// Whether `asset` is an amount of the native token.
    spec fn spec_is_native_asset(&self, asset: MultiAsset) -> bool;

    /// Whether `id` names the native token.
    spec fn spec_is_native_asset_id(&self, id: MultiLocation) -> bool;

    /// The location by which the native token is known to other chains.
    spec fn spec_native_asset_id(&self) -> MultiLocation;

    fn is_native_asset(&self, asset: &MultiAsset) -> (r: bool)
        ensures
            r == self.spec_is_native_asset(*asset),
    ;

    fn is_native_asset_id(&self, id: &MultiLocation) -> (r: bool)
        ensures
            r == self.spec_is_native_asset_id(*id),
    ;

    fn native_asset_id(&self) -> (r: MultiLocation)
        ensures
            r == self.spec_native_asset_id(),
    ;
}

/// Whether `id` is one of the two names of the native token of parachain
/// `para_id`: the local location `(0, Here)`, or `(1, X1(Parachain(para_id)))`
/// as seen from a sibling.
pub open spec fn is_native_location(para_id: u32, id: MultiLocation) -> bool {
    id == here() || id == parachain(1, para_id)
}

/// Whether `asset` is a fungible amount of the native token of `para_id`.
pub open spec fn is_native_fungible(para_id: u32, asset: MultiAsset) -> bool {
    match (asset.id, asset.fun) {
        (AssetId::Concrete(id), Fungibility::Fungible(_)) => is_native_location(para_id, id),
        _ => false,
    }
}

/// The native-token checker of the parachain `para_id`: the native token is a
/// concrete fungible asset whose id is `(0, Here)` or
/// `(1, X1(Parachain(para_id)))`.
#[derive(Clone, Copy, Debug)]
pub struct NativeAssetFilter {
    pub para_id: u32,
}

impl NativeAssetChecker for NativeAssetFilter {
    open spec fn spec_is_native_asset(&self, asset: MultiAsset) -> bool {
        is_native_fungible(self.para_id, asset)
    }

    open spec fn spec_is_native_asset_id(&self, id: MultiLocation) -> bool {
        is_native_location(self.para_id, id)
    }

    open spec fn spec_native_asset_id(&self) -> MultiLocation {
        parachain(1, self.para_id)
    }

    fn is_native_asset(&self, asset: &MultiAsset) -> (r: bool) {
        match (&asset.id, &asset.fun) {
            (AssetId::Concrete(id), Fungibility::Fungible(_)) => self.is_native_asset_id(id),
            _ => false,
        }
    }

    fn is_native_asset_id(&self, id: &MultiLocation) -> (r: bool) {
        let native_locations = [
            MultiLocation::here(),
            MultiLocation::new(1, Junctions::X1(Junction::Parachain(self.para_id))),
        ];
        *id == native_locations[0] || *id == native_locations[1]
    }

    fn native_asset_id(&self) -> (r: MultiLocation) {
        MultiLocation::new(1, Junctions::X1(Junction::Parachain(self.para_id)))
    }
}

/// The location of a concrete fungible asset, if `asset` is one.
pub open spec fn concrete_id(asset: MultiAsset) -> Option<MultiLocation> {
    match (asset.id, asset.fun) {
        (AssetId::Concrete(id), Fungibility::Fungible(_)) => Some(id),
        _ => None,
    }
}

/// The consensus system that issues the asset at `id`: the sibling or child
/// parachain it lives on, the relay chain above, or this chain itself.
pub open spec fn origin_of(id: MultiLocation) -> Option<MultiLocation> {
    if id.parents == 1 {
        match id.interior.spec_first() {
            Some(Junction::Parachain(p)) => Some(parachain(1, p)),
            _ => Some(parent()),
        }
    } else if id.parents == 0 {
        match id.interior.spec_first() {
            Some(Junction::Parachain(p)) => Some(parachain(0, p)),
            None => Some(id),
            _ => None,
        }
    } else {
        None
    }
}

/// The issuing consensus system of a concrete fungible asset.
pub open spec fn asset_origin(asset: MultiAsset) -> Option<MultiLocation> {
    match concrete_id(asset) {
        Some(id) => origin_of(id),
        None => None,
    }
}

/// Reads the location and the origin of concrete fungible assets.
pub struct ConcrateAsset;

impl ConcrateAsset {
    /// The location of `asset` if it is a concrete fungible asset.
    pub fn id(asset: &MultiAsset) -> (r: Option<MultiLocation>)
        ensures
            r == concrete_id(*asset),
    {
        match (&asset.id, &asset.fun) {
            (AssetId::Concrete(id), Fungibility::Fungible(_)) => Some(*id),
            _ => None,
        }
    }

    /// The consensus system that issues `asset`: `(1, X1(Parachain(p)))` for an
    /// asset of sibling parachain `p`, `(1, Here)` for any other asset above
    /// this chain, `(0, X1(Parachain(p)))` for an asset of child parachain `p`,
    /// and `(0, Here)` for the local asset `(0, Here)`.  `None` for an asset
    /// that is not concrete and fungible, and for any other location.
    pub fn origin(asset: &MultiAsset) -> (r: Option<MultiLocation>)
        ensures
            r == asset_origin(*asset),
    {
        match Self::id(asset) {
            None => None,
            Some(id) => {
                let first = id.first_interior();
                if id.parents == 1 {
                    match first {
                        Some(Junction::Parachain(p)) => Some(
                            MultiLocation::new(1, Junctions::X1(Junction::Parachain(p))),
                        ),
                        _ => Some(MultiLocation::parent()),
                    }
                } else if id.parents == 0 {
                    match first {
                        Some(Junction::Parachain(p)) => Some(
                            MultiLocation::new(0, Junctions::X1(Junction::Parachain(p))),
                        ),
                        None => Some(id),
                        _ => None,
                    }
                } else {
                    None
                }
            },
        }
    }
}

/// Accepts an asset from an origin only when the origin is the asset's
/// issuing consensus system: origins are trusted to send their own assets.
pub struct AssetOriginFilter;

impl AssetOriginFilter {
    /// Whether `origin` may send `asset`: exactly when `origin` issues it.
    pub fn filter_asset_location(asset: &MultiAsset, origin: &MultiLocation) -> (r: bool)
        ensures
            r == (asset_origin(*asset) == Some(*origin)),
    {
        match ConcrateAsset::origin(asset) {
            Some(id) => id == *origin,
            None => false,
        }
    }
}

/// Matches amounts of the native token.
#[derive(Clone, Copy, Debug)]
pub struct NativeAssetMatcher<C> {
    pub checker: C,
}

impl<C: NativeAssetChecker> NativeAssetMatcher<C> {
    /// The amount of `a` if it is a concrete fungible asset that the checker
    /// takes for the native token; `None` otherwise.
    pub fn matches_fungible(&self, a: &MultiAsset) -> (r: Option<u128>)
        ensures
            r == (match (a.id, a.fun) {
                (AssetId::Concrete(_), Fungibility::Fungible(amount)) => if self.checker.spec_is_native_asset(*a) {
                    Some(amount)
                } else {
                    None
                },
                _ => None,
            }),
    {
        match (&a.id, &a.fun) {
            (AssetId::Concrete(_), Fungibility::Fungible(amount)) => {
                if self.checker.is_native_asset(a) {
                    Some(*amount)
                } else {
                    None
                }
            },
            _ => None,
        }
    }
}

/// Why an asset did not match.
#[derive(Clone, Copy, Debug, PartialEq, Eq, Structural)]
pub enum MatchError {
    AssetNotFound,
}

/// Matches concrete fungible assets against the asset registry, which knows
/// assets by their location.
pub struct ConcreteAssetsMatcher;

impl ConcreteAssetsMatcher {
    /// The location under which the registry knows `a`, with the amount of
    /// `a`, if `a` is a concrete fungible asset.
    pub fn registry_key(a: &MultiAsset) -> (r: Option<(MultiLocation, u128)>)
        ensures
            r == (match (a.fun, a.id) {
                (Fungibility::Fungible(amount), AssetId::Concrete(id)) => Some((id, amount)),
                _ => None,
            }),
    {
        match (&a.fun, &a.id) {
            (Fungibility::Fungible(amount), AssetId::Concrete(id)) => Some((*id, *amount)),
            _ => None,
        }
    }

    /// Matches `a` given `registered`, the registry's asset id for the
    /// location of `a`: the asset id and amount for a concrete fungible asset
    /// that the registry knows, `AssetNotFound` otherwise.
    pub fn matches_fungibles<Id>(a: &MultiAsset, registered: Option<Id>) -> (r: Result<
        (Id, u128),
        MatchError,
    >)
        ensures
            r == (match (a.fun, a.id) {
                (Fungibility::Fungible(amount), AssetId::Concrete(_)) => match registered {
                    Some(id) => Ok((id, amount)),
                    None => Err(MatchError::AssetNotFound),
                },
                _ => Err(MatchError::AssetNotFound),
            }),
    {
        let amount = match (&a.fun, &a.id) {
            (Fungibility::Fungible(amount), AssetId::Concrete(_)) => *amount,
            _ => return Err(MatchError::AssetNotFound),
        };
        match registered {
            Some(id) => Ok((id, amount)),
            None => Err(MatchError::AssetNotFound),
        }
    }
}

} // verus!

verus! {

/// Where a deposit through the transfer adapter stands.
#[derive(Clone, Copy, Debug)]
pub enum XTransferStage {
    /// A transactor is depositing the asset into a local location.
    Depositing,
    /// Waiting for the reserve location of the asset at `location`.
    AwaitingReserve { dest_id: u8, location: MultiLocation, amount: u128, recipient: KeyData },
    /// Waiting for the account of the reserve of bridge chain `dest_id`.
    AwaitingReserveAccount {
        dest_id: u8,
        location: MultiLocation,
        amount: u128,
        recipient: KeyData,
    },
    /// A transactor is depositing the asset into the reserve account.
    DepositingToReserve {
        dest_id: u8,
        location: MultiLocation,
        amount: u128,
        recipient: KeyData,
    },
    /// Waiting for the bridge resource id of the asset.
    AwaitingRid { dest_id: u8, amount: u128, recipient: KeyData },
    /// The bridge is sending the asset on.
    Transferring,
}

/// A deposit through the transfer adapter, between two steps.
#[derive(Clone, Copy, Debug)]
pub struct XTransferDeposit {
    pub what: MultiAsset,
    pub who: MultiLocation,
    pub stage: XTransferStage,
}

impl XTransferDeposit {
    /// Whether `reply` is of the kind this deposit waits for.
    pub open spec fn expects(self, reply: Reply) -> bool {
        match self.stage {
            XTransferStage::AwaitingReserve { .. } => reply is Reserve,
            XTransferStage::AwaitingReserveAccount { .. } => reply is Account,
            XTransferStage::AwaitingRid { .. } => reply is Rid,
            _ => reply is Success || reply is Failure,
        }
    }

    /// Whether `reply` is of the kind this deposit waits for.
    pub fn accepts(&self, reply: &Reply) -> (r: bool)
        ensures
            r == self.expects(*reply),
    {
        match self.stage {
            XTransferStage::AwaitingReserve { .. } => matches!(reply, Reply::Reserve(_)),
            XTransferStage::AwaitingReserveAccount { .. } => matches!(reply, Reply::Account(_)),
            XTransferStage::AwaitingRid { .. } => matches!(reply, Reply::Rid(_)),
            _ => matches!(reply, Reply::Success) || matches!(reply, Reply::Failure),
        }
    }
}

/// The transactor adapter that forwards deposits to bridge-shaped locations
/// over the chain bridge, and hands everything else to the native-token
/// transactor or the assets transactor.
#[derive(Clone, Copy, Debug)]
pub struct XTransferAdapter<C> {
    pub checker: C,
}

/// The transactor for `asset` under `checker`: the native one exactly for the
/// native token.
pub open spec fn transactor_for<C: NativeAssetChecker>(checker: C, asset: MultiAsset) -> Transactor {
    if checker.spec_is_native_asset(asset) {
        Transactor::Native
    } else {
        Transactor::Fungibles
    }
}

/// Chooses the transactor for `asset`.
pub fn choose_transactor<C: NativeAssetChecker>(checker: &C, asset: &MultiAsset) -> (r: Transactor)
    ensures
        r == transactor_for(*checker, *asset),
{
    if checker.is_native_asset(asset) {
        Transactor::Native
    } else {
        Transactor::Fungibles
    }
}

impl<C: NativeAssetChecker> XTransferAdapter<C> {
    /// The first step of depositing `what` into `who`.
    pub open spec fn spec_deposit_asset(self, what: MultiAsset, who: MultiLocation) -> Step<XTransferDeposit, ()> {
        match bridge_path(who) {
            None => Step::Call(
                XTransferDeposit { what, who, stage: XTransferStage::Depositing },
                Request::Deposit { via: transactor_for(self.checker, what), what, who },
            ),
            Some((key, index, recipient)) => if !is_cb_key(key) {
                Step::Finished(Err(XcmError::FailedToTransactAsset(Reason::DismatchPath)))
            } else {
                match (what.fun, what.id) {
                    (Fungibility::Fungible(amount), AssetId::Concrete(location)) => match bridge_chain_id(index) {
                        None => Step::Finished(
                            Err(XcmError::FailedToTransactAsset(Reason::ChainIdConversionFailed)),
                        ),
                        Some(dest_id) => Step::Call(
                            XTransferDeposit {
                                what,
                                who,
                                stage: XTransferStage::AwaitingReserve {
                                    dest_id,
                                    location,
                                    amount,
                                    recipient,
                                },
                            },
                            Request::ReserveLocation { location },
                        ),
                    },
                    _ => Step::Finished(Err(XcmError::Unimplemented)),
                }
            },
        }
    }

    /// The step after `d` has been told `reply`.
    pub open spec fn spec_resume_deposit(self, d: XTransferDeposit, reply: Reply) -> Step<XTransferDeposit, ()> {
        match d.stage {
            XTransferStage::Depositing => if reply is Success {
                Step::Finished(Ok(()))
            } else {
                Step::Finished(Err(XcmError::CallFailed))
            },
            XTransferStage::AwaitingReserve { dest_id, location, amount, recipient } => match reply {
                Reply::Reserve(Some(reserve)) => if reserve != dest_reserve(dest_id as u128) {
                    Step::Call(
                        XTransferDeposit {
                            stage: XTransferStage::AwaitingReserveAccount {
                                dest_id,
                                location,
                                amount,
                                recipient,
                            },
                            ..d
                        },
                        Request::IntoAccount { location: dest_reserve(dest_id as u128) },
                    )
                } else {
                    Step::Call(
                        XTransferDeposit {
                            stage: XTransferStage::AwaitingRid { dest_id, amount, recipient },
                            ..d
                        },
                        Request::IntoRid { asset: location, dest_id },
                    )
                },
                _ => Step::Finished(Err(XcmError::FailedToTransactAsset(Reason::FailedGetreserve))),
            },
            XTransferStage::AwaitingReserveAccount { dest_id, location, amount, recipient } => match reply {
                Reply::Account(account) => Step::Call(
                    XTransferDeposit {
                        stage: XTransferStage::DepositingToReserve {
                            dest_id,
                            location,
                            amount,
                            recipient,
                        },
                        ..d
                    },
                    Request::Deposit {
                        via: transactor_for(self.checker, d.what),
                        what: d.what,
                        who: local_account(account),
                    },
                ),
                _ => Step::Finished(Err(XcmError::Unimplemented)),
            },
            XTransferStage::DepositingToReserve { dest_id, location, amount, recipient } => if reply is Success {
                Step::Call(
                    XTransferDeposit {
                        stage: XTransferStage::AwaitingRid { dest_id, amount, recipient },
                        ..d
                    },
                    Request::IntoRid { asset: location, dest_id },
                )
            } else {
                Step::Finished(Err(XcmError::FailedToTransactAsset(Reason::ReserveTransferFailed)))
            },
            XTransferStage::AwaitingRid { dest_id, amount, recipient } => match reply {
                Reply::Rid(rid) => Step::Call(
                    XTransferDeposit { stage: XTransferStage::Transferring, ..d },
                    Request::BridgeTransfer { dest_id, rid, recipient, amount },
                ),
                _ => Step::Finished(Err(XcmError::Unimplemented)),
            },
            XTransferStage::Transferring => if reply is Success {
                Step::Finished(Ok(()))
            } else {
                Step::Finished(Err(XcmError::CallFailedWrapped))
            },
        }
    }

    /// Whether `what` may be checked in from `origin`: asked of the native
    /// transactor for the native token and of the assets transactor otherwise.
    pub fn can_check_in(&self, origin: &MultiLocation, what: &MultiAsset) -> (r: Request)
        ensures
            r == (Request::CanCheckIn {
                via: transactor_for(self.checker, *what),
                origin: *origin,
                what: *what,
            }),
    {
        Request::CanCheckIn { via: choose_transactor(&self.checker, what), origin: *origin, what: *what }
    }

    /// Checks `what` in from `origin` through the transactor for `what`.
    pub fn check_in(&self, origin: &MultiLocation, what: &MultiAsset) -> (r: Request)
        ensures
            r == (Request::CheckIn {
                via: transactor_for(self.checker, *what),
                origin: *origin,
                what: *what,
            }),
    {
        Request::CheckIn { via: choose_transactor(&self.checker, what), origin: *origin, what: *what }
    }

    /// Checks `what` out to `dest` through the transactor for `what`.
    pub fn check_out(&self, dest: &MultiLocation, what: &MultiAsset) -> (r: Request)
        ensures
            r == (Request::CheckOut {
                via: transactor_for(self.checker, *what),
                dest: *dest,
                what: *what,
            }),
    {
        Request::CheckOut { via: choose_transactor(&self.checker, what), dest: *dest, what: *what }
    }

    /// Withdraws `what` from `who` through the transactor for `what`; what it
    /// answers is the result.
    pub fn withdraw_asset(&self, what: &MultiAsset, who: &MultiLocation) -> (r: Request)
        ensures
            r == (Request::Withdraw {
                via: transactor_for(self.checker, *what),
                what: *what,
                who: *who,
            }),
    {
        Request::Withdraw { via: choose_transactor(&self.checker, what), what: *what, who: *who }
    }

    /// Starts depositing `what` into `who`.
    ///
    /// A bridge-shaped `who` with the bridge key sends a concrete fungible
    /// `what` over the bridge, after putting it into the reserve account of
    /// the destination when the asset's reserve is elsewhere.  Any other `who`
    /// is a plain deposit through the transactor for `what`.
    pub fn deposit_asset(&self, what: &MultiAsset, who: &MultiLocation) -> (r: Step<XTransferDeposit, ()>)
        ensures
            r == self.spec_deposit_asset(*what, *who),
            r matches Step::Call(next, req) ==> forall|reply: Reply|
                #[trigger] answers(req, reply) ==> next.expects(reply),
    {
        match parse_bridge_path(who) {
            None => Step::Call(
                XTransferDeposit { what: *what, who: *who, stage: XTransferStage::Depositing },
                Request::Deposit {
                    via: choose_transactor(&self.checker, what),
                    what: *what,
                    who: *who,
                },
            ),
            Some((key, index, recipient)) => {
                if !check_cb_key(&key) {
                    return Step::Finished(
                        Err(XcmError::FailedToTransactAsset(Reason::DismatchPath)),
                    );
                }
                let (amount, location) = match (&what.fun, &what.id) {
                    (Fungibility::Fungible(amount), AssetId::Concrete(id)) => (*amount, *id),
                    _ => return Step::Finished(Err(XcmError::Unimplemented)),
                };
                match to_bridge_chain_id(index) {
                    None => Step::Finished(
                        Err(XcmError::FailedToTransactAsset(Reason::ChainIdConversionFailed)),
                    ),
                    Some(dest_id) => Step::Call(
                        XTransferDeposit {
                            what: *what,
                            who: *who,
                            stage: XTransferStage::AwaitingReserve {
                                dest_id,
                                location,
                                amount,
                                recipient,
                            },
                        },
                        Request::ReserveLocation { location },
                    ),
                }
            },
        }
    }

    /// Takes the deposit `d` on after its request was answered with `reply`.
    pub fn resume_deposit(&self, d: XTransferDeposit, reply: Reply) -> (r: Step<XTransferDeposit, ()>)
        requires
            d.expects(reply),
        ensures
            r == self.spec_resume_deposit(d, reply),
            r matches Step::Call(next, req) ==> forall|reply: Reply|
                #[trigger] answers(req, reply) ==> next.expects(reply),
    {
        match d.stage {
            XTransferStage::Depositing => {
                if matches!(reply, Reply::Success) {
                    Step::Finished(Ok(()))
                } else {
                    Step::Finished(Err(XcmError::CallFailed))
                }
            },
            XTransferStage::AwaitingReserve { dest_id, location, amount, recipient } => {
                match reply {
                    Reply::Reserve(Some(reserve)) => {
                        let dest = dest_reserve_location(dest_id as u128);
                        if reserve != dest {
                            Step::Call(
                                XTransferDeposit {
                                    what: d.what,
                                    who: d.who,
                                    stage: XTransferStage::AwaitingReserveAccount {
                                        dest_id,
                                        location,
                                        amount,
                                        recipient,
                                    },
                                },
                                Request::IntoAccount { location: dest },
                            )
                        } else {
                            Step::Call(
                                XTransferDeposit {
                                    what: d.what,
                                    who: d.who,
                                    stage: XTransferStage::AwaitingRid { dest_id, amount, recipient },
                                },
                                Request::IntoRid { asset: location, dest_id },
                            )
                        }
                    },
                    _ => Step::Finished(
                        Err(XcmError::FailedToTransactAsset(Reason::FailedGetreserve)),
                    ),
                }
            },
            XTransferStage::AwaitingReserveAccount { dest_id, location, amount, recipient } => {
                match reply {
                    Reply::Account(account) => Step::Call(
                        XTransferDeposit {
                            what: d.what,
                            who: d.who,
                            stage: XTransferStage::DepositingToReserve {
                                dest_id,
                                location,
                                amount,
                                recipient,
                            },
                        },
                        Request::Deposit {
                            via: choose_transactor(&self.checker, &d.what),
                            what: d.what,
                            who: local_account_location(account),
                        },
                    ),
                    _ => Step::Finished(Err(XcmError::Unimplemented)),
                }
            },
            XTransferStage::DepositingToReserve { dest_id, location, amount, recipient } => {
                if matches!(reply, Reply::Success) {
                    Step::Call(
                        XTransferDeposit {
                            what: d.what,
                            who: d.who,
                            stage: XTransferStage::AwaitingRid { dest_id, amount, recipient },
                        },
                        Request::IntoRid { asset: location, dest_id },
                    )
                } else {
                    Step::Finished(
                        Err(XcmError::FailedToTransactAsset(Reason::ReserveTransferFailed)),
                    )
                }
            },
            XTransferStage::AwaitingRid { dest_id, amount, recipient } => {
                match reply {
                    Reply::Rid(rid) => Step::Call(
                        XTransferDeposit {
                            what: d.what,
                            who: d.who,
                            stage: XTransferStage::Transferring,
                        },
                        Request::BridgeTransfer { dest_id, rid, recipient, amount },
                    ),
                    _ => Step::Finished(Err(XcmError::Unimplemented)),
                }
            },
            XTransferStage::Transferring => {
                if matches!(reply, Reply::Success) {
                    Step::Finished(Ok(()))
                } else {
                    Step::Finished(Err(XcmError::CallFailedWrapped))
                }
            },
        }
    }
}

/// Pays revenue to a fixed beneficiary account.
#[derive(Clone, Copy, Debug)]
pub struct XTransferTakeRevenue {
    /// The 32-byte account of the beneficiary.
    pub beneficiary: [u8; 32],
}

impl XTransferTakeRevenue {
    /// Deposits `revenue` into the beneficiary's local account, on any
    /// network, through the transfer adapter; whether that succeeds is not
    /// looked at.
    pub fn take_revenue(&self, revenue: MultiAsset) -> (r: (MultiAsset, MultiLocation))
        ensures
            r == (revenue, local_account(self.beneficiary)),
    {
        (revenue, local_account_location(self.beneficiary))
    }
}

} // verus!

verus! {

/// The junctions of an interior location, outermost first.
pub open spec fn junction_seq(j: Junctions) -> Seq<Junction> {
    match j {
        Junctions::Here => seq![],
        Junctions::X1(a) => seq![a],
        Junctions::X2(a, b) => seq![a, b],
        Junctions::X3(a, b, c) => seq![a, b, c],
        Junctions::X4(a, b, c, d) => seq![a, b, c, d],
        Junctions::X5(a, b, c, d, e) => seq![a, b, c, d, e],
        Junctions::X6(a, b, c, d, e, f) => seq![a, b, c, d, e, f],
        Junctions::X7(a, b, c, d, e, f, g) => seq![a, b, c, d, e, f, g],
        Junctions::X8(a, b, c, d, e, f, g, h) => seq![a, b, c, d, e, f, g, h],
    }
}

/// Whether `inner` lies within `outer`: the same number of parents, and the
/// junctions of `outer` begin those of `inner`.
pub open spec fn contains_location(outer: MultiLocation, inner: MultiLocation) -> bool {
    &&& outer.parents == inner.parents
    &&& junction_seq(outer.interior).is_prefix_of(junction_seq(inner.interior))
}

/// The native token's id as other chains know it is a native id.
pub proof fn lemma_native_asset_id_is_native(filter: NativeAssetFilter)
    ensures
        filter.spec_is_native_asset_id(filter.spec_native_asset_id()),
{
}

/// An asset is native exactly when it is a concrete fungible asset whose
/// location is a native id.
pub proof fn lemma_native_asset_by_id(filter: NativeAssetFilter, asset: MultiAsset)
    ensures
        filter.spec_is_native_asset(asset) <==> (concrete_id(asset) matches Some(id)
            && filter.spec_is_native_asset_id(id)),
{
}

/// The native token is issued where it is named: the origin of a native
/// asset is its own location.
pub proof fn lemma_native_asset_origin(filter: NativeAssetFilter, asset: MultiAsset)
    requires
        filter.spec_is_native_asset(asset),
    ensures
        asset_origin(asset) == concrete_id(asset),
{
}

/// The origin of an asset is a chain, `(0, Here)`, `(1, Here)` or
/// `(p, X1(Parachain(_)))` with `p` at most one; it is its own origin; and
/// the asset lies within it.  So an origin is trusted only with assets that
/// it holds itself.
pub proof fn lemma_origin_is_a_chain_holding_the_asset(asset: MultiAsset)
    requires
        asset_origin(asset) is Some,
    ensures
        ({
            let o = asset_origin(asset)->0;
            &&& o.parents <= 1
            &&& (o.interior is Here || (o.interior matches Junctions::X1(Junction::Parachain(_))))
            &&& origin_of(o) == Some(o)
            &&& contains_location(o, concrete_id(asset)->0)
        }),
{
    let id = concrete_id(asset)->0;
    let o = asset_origin(asset)->0;
    if o.interior is Here {
        assert(junction_seq(o.interior) =~= Seq::<Junction>::empty());
        assert(junction_seq(o.interior).is_prefix_of(junction_seq(id.interior)));
    } else {
        assert(junction_seq(id.interior)[0] == id.interior.spec_first()->0);
        assert(junction_seq(o.interior).is_prefix_of(junction_seq(id.interior)));
    }
}

} // verus!

verus! {

/// `(0, Here)`, written out.
pub open spec fn here_location() -> MultiLocation {
    MultiLocation { parents: 0, interior: Junctions::Here }
}

/// `(1, Here)`, the relay chain, written out.
pub open spec fn relay_location() -> MultiLocation {
    MultiLocation { parents: 1, interior: Junctions::Here }
}

/// `(parents, X1(Parachain(p)))`, written out.
pub open spec fn parachain_location(parents: u8, p: u32) -> MultiLocation {
    MultiLocation { parents, interior: Junctions::X1(Junction::Parachain(p)) }
}

/// The native-token filter of parachain `p`.
pub open spec fn native_filter(p: u32) -> NativeAssetFilter {
    NativeAssetFilter { para_id: p }
}

/// The transactor chosen for an asset is the native one exactly when the
/// checker takes the asset for the native token, for every checker and asset.
/// Under the native-token filter of parachain `para_id` that is exactly the
/// fungible amounts of `(0, Here)` and `(1, X1(Parachain(para_id)))`: the
/// relay token `(1, Here)`, other parachains' tokens and non-fungibles all go
/// to the fungibles transactor.
pub proof fn lemma_transactor_follows_nativeness<C: NativeAssetChecker>(
    checker: C,
    asset: MultiAsset,
    para_id: u32,
)
    ensures
        (transactor_for(checker, asset) == Transactor::Native) == checker.spec_is_native_asset(
            asset,
        ),
        (transactor_for(checker, asset) == Transactor::Fungibles) == !checker.spec_is_native_asset(
            asset,
        ),
        (transactor_for(native_filter(para_id), asset) == Transactor::Native) == (asset.fun is Fungible
            && (asset.id == AssetId::Concrete(here_location()) || asset.id == AssetId::Concrete(
            parachain_location(1, para_id),
        ))),
        asset.id == AssetId::Concrete(relay_location()) ==> transactor_for(native_filter(para_id), asset)
            == Transactor::Fungibles,
{
}

/// The native token of parachain `p` has exactly two names, `(0, Here)` and
/// `(1, X1(Parachain(p)))`: no other location, in particular not the relay
/// chain `(1, Here)` nor any other parachain `(1, X1(Parachain(q)))`, names it.
pub proof fn lemma_native_ids_are_exactly_two(p: u32, q: u32, id: MultiLocation)
    ensures
        is_native_location(p, here_location()),
        is_native_location(p, parachain_location(1, p)),
        q != p ==> !is_native_location(p, parachain_location(1, q)),
        !is_native_location(p, relay_location()),
        is_native_location(p, id) ==> id == here_location() || id == parachain_location(1, p),
        native_filter(p).spec_is_native_asset_id(id) == is_native_location(p, id),
        native_filter(p).spec_native_asset_id() == parachain_location(1, p),
{
}

/// The origin of a location follows its first junction, whatever comes
/// after: a location one level up whose first junction is `Parachain(p)` is
/// issued by the sibling `(1, X1(Parachain(p)))`; any other location one
/// level up by the relay chain `(1, Here)`; a location here whose first
/// junction is `Parachain(p)` by the child `(0, X1(Parachain(p)))`; `(0, Here)`
/// by itself; and nothing else has an origin.
pub proof fn lemma_origin_by_first_junction(id: MultiLocation, p: u32)
    ensures
        id.parents == 1 && junction_seq(id.interior).len() > 0 && junction_seq(id.interior)[0]
            == Junction::Parachain(p) ==> origin_of(id) == Some(parachain_location(1, p)),
        id.parents == 1 && (junction_seq(id.interior).len() == 0 || !(junction_seq(
            id.interior,
        )[0] is Parachain)) ==> origin_of(id) == Some(relay_location()),
        id.parents == 0 && junction_seq(id.interior).len() > 0 && junction_seq(id.interior)[0]
            == Junction::Parachain(p) ==> origin_of(id) == Some(parachain_location(0, p)),
        id.parents == 0 && junction_seq(id.interior).len() == 0 ==> origin_of(id) == Some(id),
        id.parents == 0 && junction_seq(id.interior).len() > 0 && !(junction_seq(
            id.interior,
        )[0] is Parachain) ==> origin_of(id) is None,
        id.parents >= 2 ==> origin_of(id) is None,
{
}

/// A sibling parachain is the one origin trusted with its assets, whatever
/// junctions follow the parachain in the asset's location: not the relay
/// chain, and no other parachain.
pub proof fn lemma_sibling_trusted_with_its_assets(asset: MultiAsset, p: u32, q: u32)
    requires
        asset.fun is Fungible,
        asset.id is Concrete,
        asset.id->Concrete_0.parents == 1,
        junction_seq(asset.id->Concrete_0.interior).len() > 0,
        junction_seq(asset.id->Concrete_0.interior)[0] == Junction::Parachain(p),
    ensures
        asset_origin(asset) == Some(parachain_location(1, p)),
        asset_origin(asset) != Some(relay_location()),
        q != p ==> asset_origin(asset) != Some(parachain_location(1, q)),
{
    lemma_origin_by_first_junction(asset.id->Concrete_0, p);
}

} // verus!
