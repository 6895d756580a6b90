//! The transactor adapter of the cross-chain transfer pallet: deposits to
//! bridge-shaped locations pay the bridge fee into the treasury and go out
//! over the chain bridge; every deposit and withdrawal is reported to the
//! pallet's handlers.
use vstd::prelude::*;
use crate::bridge::{
    bridge_chain_id, bridge_path, check_cb_key, dest_reserve, dest_reserve_location, is_cb_key,
    local_account_location, parse_bridge_path, to_bridge_chain_id,
};
use crate::transact::{answers, KeyData, Reason, Reply, Request, Step, XcmError};
use crate::types::{
    concrete_fungible, here, local_account, AssetId, Fungibility, MultiAsset, MultiLocation,
};
use crate::xcm_helper::{choose_transactor, transactor_for, NativeAssetChecker};

verus! {

/// Where a deposit through the adapter stands.
#[derive(Clone, Copy, Debug)]
pub enum XcmDepositStage {
    /// A transactor is depositing the asset into a local location.
    Depositing,
    /// Waiting for the bridge fee.
    AwaitingFee { dest_id: u8, location: MultiLocation, amount: u128, recipient: KeyData },
    /// A transactor is paying the fee into the treasury; `forward` is what is
    /// left to send on.
    PayingFee { dest_id: u8, location: MultiLocation, forward: u128, recipient: KeyData },
    /// Waiting for the reserve location of the asset at `location`.
    AwaitingReserve { dest_id: u8, location: MultiLocation, forward: u128, recipient: KeyData },
    /// Waiting for the account of the reserve of bridge chain `dest_id`.
    AwaitingReserveAccount {
        dest_id: u8,
        location: MultiLocation,
        forward: u128,
        recipient: KeyData,
    },
    /// A transactor is depositing the forwarded amount into the reserve account.
    DepositingToReserve {
        dest_id: u8,
        location: MultiLocation,
        forward: u128,
        recipient: KeyData,
    },
    /// Waiting for the bridge resource id of the asset.
    AwaitingRid { dest_id: u8, forward: u128, recipient: KeyData },
    /// The bridge is sending the asset on.
    Transferring,
    /// The deposit handler is being told of the deposit.
    Notifying,
}

/// A deposit through the adapter, between two steps.
#[derive(Clone, Copy, Debug)]
pub struct XcmDeposit {
    pub what: MultiAsset,
    pub who: MultiLocation,
    pub stage: XcmDepositStage,
}

impl XcmDeposit {
    /// Whether `reply` is of the kind this deposit waits for.
    pub open spec fn expects(self, reply: Reply) -> bool {
        match self.stage {
            XcmDepositStage::AwaitingFee { .. } => reply is Fee,
            XcmDepositStage::AwaitingReserve { .. } => reply is Reserve,
            XcmDepositStage::AwaitingReserveAccount { .. } => reply is Account,
            XcmDepositStage::AwaitingRid { .. } => reply is Rid,
            _ => reply is Success || reply is Failure,
        }
    }

    /// Whether `reply` is of the kind this deposit waits for.
    pub fn accepts(&self, reply: &Reply) -> (r: bool)
        ensures
            r == self.expects(*reply),
    {
        match self.stage {
            XcmDepositStage::AwaitingFee { .. } => matches!(reply, Reply::Fee(_)),
            XcmDepositStage::AwaitingReserve { .. } => matches!(reply, Reply::Reserve(_)),
            XcmDepositStage::AwaitingReserveAccount { .. } => matches!(reply, Reply::Account(_)),
            XcmDepositStage::AwaitingRid { .. } => matches!(reply, Reply::Rid(_)),
            _ => matches!(reply, Reply::Success) || matches!(reply, Reply::Failure),
        }
    }
}

/// Where a withdrawal through the adapter stands.
#[derive(Clone, Debug)]
pub enum XcmWithdrawStage {
    /// A transactor is withdrawing the asset.
    Withdrawing,
    /// The withdraw handler is being told of the withdrawal; `withdrawn` is
    /// what the transactor withdrew.
    Notifying { withdrawn: Vec<MultiAsset> },
}

/// A withdrawal through the adapter, between two steps.
#[derive(Clone, Debug)]
pub struct XcmWithdraw {
    pub what: MultiAsset,
    pub who: MultiLocation,
    pub stage: XcmWithdrawStage,
}

impl XcmWithdraw {
    /// Whether `reply` is of the kind this withdrawal waits for.
    pub open spec fn expects(self, reply: Reply) -> bool {
        match self.stage {
            XcmWithdrawStage::Withdrawing => reply is Withdrawn || reply is Failure,
            XcmWithdrawStage::Notifying { .. } => reply is Success || reply is Failure,
        }
    }

    /// Whether `reply` is of the kind this withdrawal waits for.
    pub fn accepts(&self, reply: &Reply) -> (r: bool)
        ensures
            r == self.expects(*reply),
    {
        match self.stage {
            XcmWithdrawStage::Withdrawing => matches!(reply, Reply::Withdrawn(_))
                || matches!(reply, Reply::Failure),
            XcmWithdrawStage::Notifying { .. } => matches!(reply, Reply::Success)
                || matches!(reply, Reply::Failure),
        }
    }
}

/// The transactor adapter of the transfer pallet.
#[derive(Clone, Copy, Debug)]
pub struct XcmAdapter<C> {
    /// Tells the native token from other assets.
    pub checker: C,
    /// The 32-byte account of the treasury, which collects bridge fees.
    pub treasury: [u8; 32],
}

impl<C: NativeAssetChecker> XcmAdapter<C> {
    /// The asset location whose resource id names the forwarded asset on the
    /// bridge: `(0, Here)` for the native token, the asset's own location
    /// otherwise.
    pub open spec fn rid_location(self, location: MultiLocation, forward: u128) -> MultiLocation {
        if self.checker.spec_is_native_asset(concrete_fungible(location, forward)) {
            here()
        } else {
            location
        }
    }

    /// The step that asks for the bridge resource id of the forwarded asset.
    pub open spec fn rid_step(
        self,
        d: XcmDeposit,
        dest_id: u8,
        location: MultiLocation,
        forward: u128,
        recipient: KeyData,
    ) -> Step<XcmDeposit, ()> {
        Step::Call(
            XcmDeposit { stage: XcmDepositStage::AwaitingRid { dest_id, forward, recipient }, ..d },
            Request::IntoRid { asset: self.rid_location(location, forward), dest_id },
        )
    }

    /// The first step of depositing `what` into `who`.
    pub open spec fn spec_deposit_asset(self, what: MultiAsset, who: MultiLocation) -> Step<XcmDeposit, ()> {
        match bridge_path(who) {
            None => Step::Call(
                XcmDeposit { what, who, stage: XcmDepositStage::Depositing },
                Request::Deposit { via: transactor_for(self.checker, what), what, who },
            ),
            Some((key, index, recipient)) => if !is_cb_key(key) {
                Step::Finished(Err(XcmError::FailedToTransactAsset(Reason::DismatchPath)))
            } else {
                match (what.fun, what.id) {
                    (Fungibility::Fungible(amount), AssetId::Concrete(location)) => match bridge_chain_id(index) {
                        None => Step::Finished(
                            Err(XcmError::FailedToTransactAsset(Reason::ChainIdConversionFailed)),
                        ),
                        Some(dest_id) => Step::Call(
                            XcmDeposit {
                                what,
                                who,
                                stage: XcmDepositStage::AwaitingFee {
                                    dest_id,
                                    location,
                                    amount,
                                    recipient,
                                },
                            },
                            Request::GetFee { dest_id, what },
                        ),
                    },
                    _ => Step::Finished(Err(XcmError::Unimplemented)),
                }
            },
        }
    }

    /// The step after `d` has been told `reply`.
    pub open spec fn spec_resume_deposit(self, d: XcmDeposit, reply: Reply) -> Step<XcmDeposit, ()> {
        match d.stage {
            XcmDepositStage::Depositing => if reply is Success {
                Step::Call(
                    XcmDeposit { stage: XcmDepositStage::Notifying, ..d },
                    Request::OnDeposited { what: d.what, who: d.who },
                )
            } else {
                Step::Finished(Err(XcmError::CallFailed))
            },
            XcmDepositStage::AwaitingFee { dest_id, location, amount, recipient } => match reply {
                Reply::Fee(Some(fee)) => if amount > fee {
                    Step::Call(
                        XcmDeposit {
                            stage: XcmDepositStage::PayingFee {
                                dest_id,
                                location,
                                forward: (amount - fee) as u128,
                                recipient,
                            },
                            ..d
                        },
                        Request::Deposit {
                            via: transactor_for(self.checker, concrete_fungible(location, fee)),
                            what: concrete_fungible(location, fee),
                            who: local_account(self.treasury),
                        },
                    )
                } else {
                    Step::Finished(Err(XcmError::FailedToTransactAsset(Reason::Insufficient)))
                },
                _ => Step::Finished(Err(XcmError::FailedToTransactAsset(Reason::FailedGetFee))),
            },
            XcmDepositStage::PayingFee { dest_id, location, forward, recipient } => if reply is Success {
                Step::Call(
                    XcmDeposit {
                        stage: XcmDepositStage::AwaitingReserve {
                            dest_id,
                            location,
                            forward,
                            recipient,
                        },
                        ..d
                    },
                    Request::ReserveLocation { location },
                )
            } else {
                Step::Finished(Err(XcmError::FailedToTransactAsset(Reason::FeeTransferFailed)))
            },
            XcmDepositStage::AwaitingReserve { dest_id, location, forward, recipient } => match reply {
                Reply::Reserve(Some(reserve)) => if reserve != dest_reserve(dest_id as u128) {
                    Step::Call(
                        XcmDeposit {
                            stage: XcmDepositStage::AwaitingReserveAccount {
                                dest_id,
                                location,
                                forward,
                                recipient,
                            },
                            ..d
                        },
                        Request::IntoAccount { location: dest_reserve(dest_id as u128) },
                    )
                } else {
                    self.rid_step(d, dest_id, location, forward, recipient)
                },
                _ => Step::Finished(Err(XcmError::FailedToTransactAsset(Reason::FailedGetreserve))),
            },
            XcmDepositStage::AwaitingReserveAccount { dest_id, location, forward, recipient } => match reply {
                Reply::Account(account) => Step::Call(
                    XcmDeposit {
                        stage: XcmDepositStage::DepositingToReserve {
                            dest_id,
                            location,
                            forward,
                            recipient,
                        },
                        ..d
                    },
                    Request::Deposit {
                        via: transactor_for(self.checker, concrete_fungible(location, forward)),
                        what: concrete_fungible(location, forward),
                        who: local_account(account),
                    },
                ),
                _ => Step::Finished(Err(XcmError::Unimplemented)),
            },
            XcmDepositStage::DepositingToReserve { dest_id, location, forward, recipient } => if reply is Success {
                self.rid_step(d, dest_id, location, forward, recipient)
            } else {
                Step::Finished(Err(XcmError::FailedToTransactAsset(Reason::ReserveTransferFailed)))
            },
            XcmDepositStage::AwaitingRid { dest_id, forward, recipient } => match reply {
                Reply::Rid(rid) => Step::Call(
                    XcmDeposit { stage: XcmDepositStage::Transferring, ..d },
                    Request::BridgeTransfer { dest_id, rid, recipient, amount: forward },
                ),
                _ => Step::Finished(Err(XcmError::Unimplemented)),
            },
            XcmDepositStage::Transferring => if reply is Success {
                Step::Call(
                    XcmDeposit { stage: XcmDepositStage::Notifying, ..d },
                    Request::OnDeposited { what: d.what, who: d.who },
                )
            } else {
                Step::Finished(Err(XcmError::CallFailedWrapped))
            },
            XcmDepositStage::Notifying => if reply is Success {
                Step::Finished(Ok(()))
            } else {
                Step::Finished(Err(XcmError::CallFailedWrapped))
            },
        }
    }

    /// The first step of withdrawing `what` from `who`.
    pub open spec fn spec_withdraw_asset(self, what: MultiAsset, who: MultiLocation) -> Step<
        XcmWithdraw,
        Vec<MultiAsset>,
    > {
        Step::Call(
            XcmWithdraw { what, who, stage: XcmWithdrawStage::Withdrawing },
            Request::Withdraw { via: transactor_for(self.checker, what), what, who },
        )
    }

    /// The step after `w` has been told `reply`: a withdrawal is reported to
    /// the withdraw handler, and then the assets withdrawn are the result.
    pub open spec fn spec_resume_withdraw(self, w: XcmWithdraw, reply: Reply) -> Step<
        XcmWithdraw,
        Vec<MultiAsset>,
    > {
        match w.stage {
            XcmWithdrawStage::Withdrawing => match reply {
                Reply::Withdrawn(withdrawn) => Step::Call(
                    XcmWithdraw { stage: XcmWithdrawStage::Notifying { withdrawn }, ..w },
                    Request::OnWithdrawn { what: w.what, who: w.who },
                ),
                _ => Step::Finished(Err(XcmError::CallFailed)),
            },
            XcmWithdrawStage::Notifying { withdrawn } => if reply is Success {
                Step::Finished(Ok(withdrawn))
            } else {
                Step::Finished(Err(XcmError::CallFailedWrapped))
            },
        }
    }

    /// Whether `what` may be checked in from `origin`: asked of the native
    /// transactor for the native token and of the fungibles transactor
    /// otherwise.
    pub fn can_check_in(&self, origin: &MultiLocation, what: &MultiAsset) -> (r: Request)
        ensures
            r == (Request::CanCheckIn {
                via: transactor_for(self.checker, *what),
                origin: *origin,
                what: *what,
            }),
    {
        Request::CanCheckIn { via: choose_transactor(&self.checker, what), origin: *origin, what: *what }
    }

    /// Checks `what` in from `origin` through the transactor for `what`.
    pub fn check_in(&self, origin: &MultiLocation, what: &MultiAsset) -> (r: Request)
        ensures
            r == (Request::CheckIn {
                via: transactor_for(self.checker, *what),
                origin: *origin,
                what: *what,
            }),
    {
        Request::CheckIn { via: choose_transactor(&self.checker, what), origin: *origin, what: *what }
    }

    /// Checks `what` out to `dest` through the transactor for `what`.
    pub fn check_out(&self, dest: &MultiLocation, what: &MultiAsset) -> (r: Request)
        ensures
            r == (Request::CheckOut {
                via: transactor_for(self.checker, *what),
                dest: *dest,
                what: *what,
            }),
    {
        Request::CheckOut { via: choose_transactor(&self.checker, what), dest: *dest, what: *what }
    }

    /// Builds the step that asks for the bridge resource id of the forwarded
    /// asset.
    fn make_rid_step(
        &self,
        d: XcmDeposit,
        dest_id: u8,
        location: MultiLocation,
        forward: u128,
        recipient: KeyData,
    ) -> (r: Step<XcmDeposit, ()>)
        ensures
            r == self.rid_step(d, dest_id, location, forward, recipient),
    {
        let transferring = MultiAsset::concrete_fungible(location, forward);
        let asset = if self.checker.is_native_asset(&transferring) {
            MultiLocation::here()
        } else {
            location
        };
        Step::Call(
            XcmDeposit {
                what: d.what,
                who: d.who,
                stage: XcmDepositStage::AwaitingRid { dest_id, forward, recipient },
            },
            Request::IntoRid { asset, dest_id },
        )
    }

    /// Starts depositing `what` into `who`.
    ///
    /// A bridge-shaped `who` with the bridge key sends a concrete fungible
    /// `what` over the bridge: the bridge fee goes to the treasury, and the
    /// rest goes into the reserve account of the destination first when the
    /// asset's reserve is elsewhere.  Any other `who` is a plain deposit
    /// through the transactor for `what`.  A deposit that went through is
    /// reported to the deposit handler.
    pub fn deposit_asset(&self, what: &MultiAsset, who: &MultiLocation) -> (r: Step<XcmDeposit, ()>)
        ensures
            r == self.spec_deposit_asset(*what, *who),
            r matches Step::Call(next, req) ==> forall|reply: Reply|
                #[trigger] answers(req, reply) ==> next.expects(reply),
    {
        match parse_bridge_path(who) {
            None => Step::Call(
                XcmDeposit { what: *what, who: *who, stage: XcmDepositStage::Depositing },
                Request::Deposit {
                    via: choose_transactor(&self.checker, what),
                    what: *what,
                    who: *who,
                },
            ),
            Some((key, index, recipient)) => {
                if !check_cb_key(&key) {
                    return Step::Finished(
                        Err(XcmError::FailedToTransactAsset(Reason::DismatchPath)),
                    );
                }
                let (amount, location) = match (&what.fun, &what.id) {
                    (Fungibility::Fungible(amount), AssetId::Concrete(id)) => (*amount, *id),
                    _ => return Step::Finished(Err(XcmError::Unimplemented)),
                };
                match to_bridge_chain_id(index) {
                    None => Step::Finished(
                        Err(XcmError::FailedToTransactAsset(Reason::ChainIdConversionFailed)),
                    ),
                    Some(dest_id) => Step::Call(
                        XcmDeposit {
                            what: *what,
                            who: *who,
                            stage: XcmDepositStage::AwaitingFee {
                                dest_id,
                                location,
                                amount,
                                recipient,
                            },
                        },
                        Request::GetFee { dest_id, what: *what },
                    ),
                }
            },
        }
    }

    /// Takes the deposit `d` on after its request was answered with `reply`.
    pub fn resume_deposit(&self, d: XcmDeposit, reply: Reply) -> (r: Step<XcmDeposit, ()>)
        requires
            d.expects(reply),
        ensures
            r == self.spec_resume_deposit(d, reply),
            r matches Step::Call(next, req) ==> forall|reply: Reply|
                #[trigger] answers(req, reply) ==> next.expects(reply),
    {
        match d.stage {
            XcmDepositStage::Depositing => {
                if matches!(reply, Reply::Success) {
                    Step::Call(
                        XcmDeposit { what: d.what, who: d.who, stage: XcmDepositStage::Notifying },
                        Request::OnDeposited { what: d.what, who: d.who },
                    )
                } else {
                    Step::Finished(Err(XcmError::CallFailed))
                }
            },
            XcmDepositStage::AwaitingFee { dest_id, location, amount, recipient } => {
                match reply {
                    Reply::Fee(Some(fee)) => {
                        if amount > fee {
                            let fee_asset = MultiAsset::concrete_fungible(location, fee);
                            Step::Call(
                                XcmDeposit {
                                    what: d.what,
                                    who: d.who,
                                    stage: XcmDepositStage::PayingFee {
                                        dest_id,
                                        location,
                                        forward: amount - fee,
                                        recipient,
                                    },
                                },
                                Request::Deposit {
                                    via: choose_transactor(&self.checker, &fee_asset),
                                    what: fee_asset,
                                    who: local_account_location(self.treasury),
                                },
                            )
                        } else {
                            Step::Finished(
                                Err(XcmError::FailedToTransactAsset(Reason::Insufficient)),
                            )
                        }
                    },
                    _ => Step::Finished(Err(XcmError::FailedToTransactAsset(Reason::FailedGetFee))),
                }
            },
            XcmDepositStage::PayingFee { dest_id, location, forward, recipient } => {
                if matches!(reply, Reply::Success) {
                    Step::Call(
                        XcmDeposit {
                            what: d.what,
                            who: d.who,
                            stage: XcmDepositStage::AwaitingReserve {
                                dest_id,
                                location,
                                forward,
                                recipient,
                            },
                        },
                        Request::ReserveLocation { location },
                    )
                } else {
                    Step::Finished(Err(XcmError::FailedToTransactAsset(Reason::FeeTransferFailed)))
                }
            },
            XcmDepositStage::AwaitingReserve { dest_id, location, forward, recipient } => {
                match reply {
                    Reply::Reserve(Some(reserve)) => {
                        let dest = dest_reserve_location(dest_id as u128);
                        if reserve != dest {
                            Step::Call(
                                XcmDeposit {
                                    what: d.what,
                                    who: d.who,
                                    stage: XcmDepositStage::AwaitingReserveAccount {
                                        dest_id,
                                        location,
                                        forward,
                                        recipient,
                                    },
                                },
                                Request::IntoAccount { location: dest },
                            )
                        } else {
                            self.make_rid_step(d, dest_id, location, forward, recipient)
                        }
                    },
                    _ => Step::Finished(
                        Err(XcmError::FailedToTransactAsset(Reason::FailedGetreserve)),
                    ),
                }
            },
            XcmDepositStage::AwaitingReserveAccount { dest_id, location, forward, recipient } => {
                match reply {
                    Reply::Account(account) => {
                        let transferring = MultiAsset::concrete_fungible(location, forward);
                        Step::Call(
                            XcmDeposit {
                                what: d.what,
                                who: d.who,
                                stage: XcmDepositStage::DepositingToReserve {
                                    dest_id,
                                    location,
                                    forward,
                                    recipient,
                                },
                            },
                            Request::Deposit {
                                via: choose_transactor(&self.checker, &transferring),
                                what: transferring,
                                who: local_account_location(account),
                            },
                        )
                    },
                    _ => Step::Finished(Err(XcmError::Unimplemented)),
                }
            },
            XcmDepositStage::DepositingToReserve { dest_id, location, forward, recipient } => {
                if matches!(reply, Reply::Success) {
                    self.make_rid_step(d, dest_id, location, forward, recipient)
                } else {
                    Step::Finished(
                        Err(XcmError::FailedToTransactAsset(Reason::ReserveTransferFailed)),
                    )
                }
            },
            XcmDepositStage::AwaitingRid { dest_id, forward, recipient } => {
                match reply {
                    Reply::Rid(rid) => Step::Call(
                        XcmDeposit { what: d.what, who: d.who, stage: XcmDepositStage::Transferring },
                        Request::BridgeTransfer { dest_id, rid, recipient, amount: forward },
                    ),
                    _ => Step::Finished(Err(XcmError::Unimplemented)),
                }
            },
            XcmDepositStage::Transferring => {
                if matches!(reply, Reply::Success) {
                    Step::Call(
                        XcmDeposit { what: d.what, who: d.who, stage: XcmDepositStage::Notifying },
                        Request::OnDeposited { what: d.what, who: d.who },
                    )
                } else {
                    Step::Finished(Err(XcmError::CallFailedWrapped))
                }
            },
            XcmDepositStage::Notifying => {
                if matches!(reply, Reply::Success) {
                    Step::Finished(Ok(()))
                } else {
                    Step::Finished(Err(XcmError::CallFailedWrapped))
                }
            },
        }
    }

    /// Starts withdrawing `what` from `who` through the transactor for
    /// `what`; a withdrawal that went through is reported to the withdraw
    /// handler, and then the assets the transactor withdrew are the result.
    pub fn withdraw_asset(&self, what: &MultiAsset, who: &MultiLocation) -> (r: Step<
        XcmWithdraw,
        Vec<MultiAsset>,
    >)
        ensures
            r == self.spec_withdraw_asset(*what, *who),
            r matches Step::Call(next, req) ==> forall|reply: Reply|
                #[trigger] answers(req, reply) ==> next.expects(reply),
    {
        Step::Call(
            XcmWithdraw { what: *what, who: *who, stage: XcmWithdrawStage::Withdrawing },
            Request::Withdraw { via: choose_transactor(&self.checker, what), what: *what, who: *who },
        )
    }

    /// Takes the withdrawal `w` on after its request was answered with
    /// `reply`.
    pub fn resume_withdraw(&self, w: XcmWithdraw, reply: Reply) -> (r: Step<
        XcmWithdraw,
        Vec<MultiAsset>,
    >)
        requires
            w.expects(reply),
        ensures
            r == self.spec_resume_withdraw(w, reply),
            r matches Step::Call(next, req) ==> forall|reply: Reply|
                #[trigger] answers(req, reply) ==> next.expects(reply),
    {
        match w.stage {
            XcmWithdrawStage::Withdrawing => {
                match reply {
                    Reply::Withdrawn(withdrawn) => Step::Call(
                        XcmWithdraw {
                            what: w.what,
                            who: w.who,
                            stage: XcmWithdrawStage::Notifying { withdrawn },
                        },
                        Request::OnWithdrawn { what: w.what, who: w.who },
                    ),
                    _ => Step::Finished(Err(XcmError::CallFailed)),
                }
            },
            XcmWithdrawStage::Notifying { withdrawn } => {
                if matches!(reply, Reply::Success) {
                    Step::Finished(Ok(withdrawn))
                } else {
                    Step::Finished(Err(XcmError::CallFailedWrapped))
                }
            },
        }
    }
}

} // verus!
