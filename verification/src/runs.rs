//! Whole runs of the adapters.
//!
//! An environment answers every request; driving an adapter's steps with
//! those answers gives the requests it makes, in order, and its result.  The
//! transcripts below say, in one piece each, what a deposit does; the laws
//! prove that the step machines do exactly that.
use vstd::prelude::*;
use crate::bridge::{
    bridge_chain_id, bridge_path, dest_reserve, is_cb_key, lemma_dest_reserve_names_its_chain,
    CB_KEY_DATA,
};
use crate::transact::{answers, KeyData, Reason, Reply, Request, Step, XcmError};
use crate::types::{
    concrete_fungible, here, local_account, AssetId, Fungibility, Junction, Junctions, MultiAsset,
    MultiLocation,
};
use crate::xcm_adapter::{XcmAdapter, XcmDeposit, XcmDepositStage, XcmWithdraw};
use crate::xcm_helper::{
    transactor_for, NativeAssetChecker, XTransferAdapter, XTransferDeposit, XTransferStage,
};

verus! {

/// An environment that answers every request with a reply of the right kind.
pub open spec fn well_typed(env: spec_fn(Request) -> Reply) -> bool {
    forall|req: Request| #[trigger] answers(req, env(req))
}

/// Whether `env` carries out `req`.
pub open spec fn succeeds(env: spec_fn(Request) -> Reply, req: Request) -> bool {
    env(req) is Success
}

/// The account that `env` gives for `location`.
pub open spec fn account_of(env: spec_fn(Request) -> Reply, location: MultiLocation) -> [u8; 32] {
    match env(Request::IntoAccount { location }) {
        Reply::Account(account) => account,
        _ => arbitrary(),
    }
}

/// The resource id that `env` gives for the asset at `asset` on chain `dest_id`.
pub open spec fn rid_of(env: spec_fn(Request) -> Reply, asset: MultiLocation, dest_id: u8) -> [u8; 32] {
    match env(Request::IntoRid { asset, dest_id }) {
        Reply::Rid(rid) => rid,
        _ => arbitrary(),
    }
}

/// Drives a step machine with the answers of `env` for at most `fuel`
/// requests: the requests made, in order, and the result, if it was reached.
pub open spec fn drive<S, T>(
    resume: spec_fn(S, Reply) -> Step<S, T>,
    env: spec_fn(Request) -> Reply,
    step: Step<S, T>,
    fuel: nat,
) -> (Seq<Request>, Option<Result<T, XcmError>>)
    decreases fuel,
{
    match step {
        Step::Finished(r) => (Seq::empty(), Some(r)),
        Step::Call(s, req) => if fuel == 0 {
            (seq![req], None)
        } else {
            let rest = drive(resume, env, resume(s, env(req)), (fuel - 1) as nat);
            (seq![req] + rest.0, rest.1)
        },
    }
}

/// What a deposit of `what` into `who` through the transfer adapter does in
/// `env`: the requests it makes, in order, and its result.
///
/// A plain deposit goes to the transactor for `what`, whose answer is the
/// result.  A bridge deposit asks for the asset's reserve; when the reserve is
/// not the destination's, it deposits the whole asset into the account of the
/// destination's reserve; then it sends the whole amount over the bridge.
pub open spec fn xtransfer_deposit_transcript<C: NativeAssetChecker>(
    adapter: XTransferAdapter<C>,
    env: spec_fn(Request) -> Reply,
    what: MultiAsset,
    who: MultiLocation,
) -> (Seq<Request>, Result<(), XcmError>) {
    match bridge_path(who) {
        None => {
            let deposit = Request::Deposit { via: transactor_for(adapter.checker, what), what, who };
            (
                seq![deposit],
                if succeeds(env, deposit) {
                    Ok(())
                } else {
                    Err(XcmError::CallFailed)
                },
            )
        },
        Some((key, index, recipient)) => if !is_cb_key(key) {
            (Seq::empty(), Err(XcmError::FailedToTransactAsset(Reason::DismatchPath)))
        } else {
            match (what.fun, what.id) {
                (Fungibility::Fungible(amount), AssetId::Concrete(location)) => match bridge_chain_id(index) {
                    None => (
                        Seq::empty(),
                        Err(XcmError::FailedToTransactAsset(Reason::ChainIdConversionFailed)),
                    ),
                    Some(dest_id) => {
                        let ask_reserve = Request::ReserveLocation { location };
                        match env(ask_reserve) {
                            Reply::Reserve(Some(reserve)) => {
                                let ask_account = Request::IntoAccount {
                                    location: dest_reserve(dest_id as u128),
                                };
                                let to_reserve = Request::Deposit {
                                    via: transactor_for(adapter.checker, what),
                                    what,
                                    who: local_account(account_of(env, dest_reserve(dest_id as u128))),
                                };
                                let moves = reserve != dest_reserve(dest_id as u128);
                                let before = if moves {
                                    seq![ask_reserve, ask_account, to_reserve]
                                } else {
                                    seq![ask_reserve]
                                };
                                if moves && !succeeds(env, to_reserve) {
                                    (
                                        before,
                                        Err(
                                            XcmError::FailedToTransactAsset(
                                                Reason::ReserveTransferFailed,
                                            ),
                                        ),
                                    )
                                } else {
                                    let ask_rid = Request::IntoRid { asset: location, dest_id };
                                    let transfer = Request::BridgeTransfer {
                                        dest_id,
                                        rid: rid_of(env, location, dest_id),
                                        recipient,
                                        amount,
                                    };
                                    (
                                        before + seq![ask_rid, transfer],
                                        if succeeds(env, transfer) {
                                            Ok(())
                                        } else {
                                            Err(XcmError::CallFailedWrapped)
                                        },
                                    )
                                }
                            },
                            _ => (
                                seq![ask_reserve],
                                Err(XcmError::FailedToTransactAsset(Reason::FailedGetreserve)),
                            ),
                        }
                    },
                },
                _ => (Seq::empty(), Err(XcmError::Unimplemented)),
            }
        },
    }
}

/// Driving a deposit through the transfer adapter does exactly what its
/// transcript says: the same requests in the same order, and the same result,
/// within five requests.
pub proof fn lemma_xtransfer_deposit_run<C: NativeAssetChecker>(
    adapter: XTransferAdapter<C>,
    env: spec_fn(Request) -> Reply,
    what: MultiAsset,
    who: MultiLocation,
)
    requires
        well_typed(env),
    ensures
        drive(
            |d: XTransferDeposit, r: Reply| adapter.spec_resume_deposit(d, r),
            env,
            adapter.spec_deposit_asset(what, who),
            5,
        ).0 == xtransfer_deposit_transcript(adapter, env, what, who).0,
        drive(
            |d: XTransferDeposit, r: Reply| adapter.spec_resume_deposit(d, r),
            env,
            adapter.spec_deposit_asset(what, who),
            5,
        ).1 == Some(xtransfer_deposit_transcript(adapter, env, what, who).1),
{
    reveal_with_fuel(drive, 6);
    let t = xtransfer_deposit_transcript(adapter, env, what, who);
    let run = drive(
        |d: XTransferDeposit, r: Reply| adapter.spec_resume_deposit(d, r),
        env,
        adapter.spec_deposit_asset(what, who),
        5,
    );
    match bridge_path(who) {
        None => {
            assert(run.0 =~= t.0);
        },
        Some((key, index, recipient)) => {
            if !is_cb_key(key) {
                assert(run.0 =~= t.0);
            } else {
                match (what.fun, what.id) {
                    (Fungibility::Fungible(amount), AssetId::Concrete(location)) => {
                        match bridge_chain_id(index) {
                            None => {
                                assert(run.0 =~= t.0);
                            },
                            Some(dest_id) => {
                                let ask_reserve = Request::ReserveLocation { location };
                                match env(ask_reserve) {
                                    Reply::Reserve(Some(reserve)) => {
                                        let resume = |d: XTransferDeposit, r: Reply|
                                            adapter.spec_resume_deposit(d, r);
                                        let d0 = XTransferDeposit {
                                            what,
                                            who,
                                            stage: XTransferStage::AwaitingReserve {
                                                dest_id,
                                                location,
                                                amount,
                                                recipient,
                                            },
                                        };
                                        assert(adapter.spec_deposit_asset(what, who) == Step::<_, ()>::Call(
                                            d0,
                                            ask_reserve,
                                        ));
                                        let ask_rid = Request::IntoRid { asset: location, dest_id };
                                        let d_rid = XTransferDeposit {
                                            what,
                                            who,
                                            stage: XTransferStage::AwaitingRid {
                                                dest_id,
                                                amount,
                                                recipient,
                                            },
                                        };
                                        let transfer = Request::BridgeTransfer {
                                            dest_id,
                                            rid: rid_of(env, location, dest_id),
                                            recipient,
                                            amount,
                                        };
                                        assert(answers(ask_rid, env(ask_rid)));
                                        assert(resume(d_rid, env(ask_rid)) == Step::<_, ()>::Call(
                                            XTransferDeposit {
                                                stage: XTransferStage::Transferring,
                                                ..d_rid
                                            },
                                            transfer,
                                        ));
                                        let tail = drive(resume, env, Step::Call(d_rid, ask_rid), 2);
                                        assert(tail.0 =~= seq![ask_rid, transfer]);
                                        assert(tail.1 == Some(
                                            if succeeds(env, transfer) {
                                                Ok(())
                                            } else {
                                                Err(XcmError::CallFailedWrapped)
                                            },
                                        ));
                                        if reserve != dest_reserve(dest_id as u128) {
                                            let ask_account = Request::IntoAccount {
                                                location: dest_reserve(dest_id as u128),
                                            };
                                            assert(answers(ask_account, env(ask_account)));
                                            let d1 = XTransferDeposit {
                                                what,
                                                who,
                                                stage: XTransferStage::AwaitingReserveAccount {
                                                    dest_id,
                                                    location,
                                                    amount,
                                                    recipient,
                                                },
                                            };
                                            assert(resume(d0, env(ask_reserve)) == Step::<_, ()>::Call(
                                                d1,
                                                ask_account,
                                            ));
                                            let to_reserve = Request::Deposit {
                                                via: transactor_for(adapter.checker, what),
                                                what,
                                                who: local_account(
                                                    account_of(env, dest_reserve(dest_id as u128)),
                                                ),
                                            };
                                            let d2 = XTransferDeposit {
                                                what,
                                                who,
                                                stage: XTransferStage::DepositingToReserve {
                                                    dest_id,
                                                    location,
                                                    amount,
                                                    recipient,
                                                },
                                            };
                                            assert(resume(d1, env(ask_account)) == Step::<_, ()>::Call(
                                                d2,
                                                to_reserve,
                                            ));
                                            if succeeds(env, to_reserve) {
                                                assert(resume(d2, env(to_reserve)) == Step::<_, ()>::Call(
                                                    d_rid,
                                                    ask_rid,
                                                ));
                                            } else {
                                                assert(answers(to_reserve, env(to_reserve)));
                                            }
                                            assert(run.0 =~= t.0);
                                        } else {
                                            assert(resume(d0, env(ask_reserve)) == Step::<_, ()>::Call(
                                                d_rid,
                                                ask_rid,
                                            ));
                                            assert(run.0 =~= t.0);
                                        }
                                    },
                                    _ => {
                                        assert(run.0 =~= t.0);
                                    },
                                }
                            },
                        }
                    },
                    _ => {
                        assert(run.0 =~= t.0);
                    },
                }
            }
        },
    }
}

/// What a deposit of `what` into `who` through the transfer pallet's adapter
/// does in `env`: the requests it makes, in order, and its result.
///
/// A plain deposit goes to the transactor for `what`.  A bridge deposit asks
/// for the bridge fee, refuses amounts that do not exceed it, pays the fee
/// into the treasury, asks for the asset's reserve, deposits the rest into
/// the account of the destination's reserve when the asset's reserve is
/// elsewhere, and sends the rest over the bridge under the resource id of
/// `(0, Here)` for the native token and of the asset's location otherwise.
/// A deposit that went through is reported to the deposit handler.
pub open spec fn xcm_deposit_transcript<C: NativeAssetChecker>(
    adapter: XcmAdapter<C>,
    env: spec_fn(Request) -> Reply,
    what: MultiAsset,
    who: MultiLocation,
) -> (Seq<Request>, Result<(), XcmError>) {
    let notify = Request::OnDeposited { what, who };
    let notified = if succeeds(env, notify) {
        Ok(())
    } else {
        Err(XcmError::CallFailedWrapped)
    };
    match bridge_path(who) {
        None => {
            let deposit = Request::Deposit { via: transactor_for(adapter.checker, what), what, who };
            if succeeds(env, deposit) {
                (seq![deposit, notify], notified)
            } else {
                (seq![deposit], Err(XcmError::CallFailed))
            }
        },
        Some((key, index, recipient)) => if !is_cb_key(key) {
            (Seq::empty(), Err(XcmError::FailedToTransactAsset(Reason::DismatchPath)))
        } else {
            match (what.fun, what.id) {
                (Fungibility::Fungible(amount), AssetId::Concrete(location)) => match bridge_chain_id(index) {
                    None => (
                        Seq::empty(),
                        Err(XcmError::FailedToTransactAsset(Reason::ChainIdConversionFailed)),
                    ),
                    Some(dest_id) => {
                        let ask_fee = Request::GetFee { dest_id, what };
                        match env(ask_fee) {
                            Reply::Fee(Some(fee)) => if amount > fee {
                                let pay_fee = Request::Deposit {
                                    via: transactor_for(adapter.checker, concrete_fungible(location, fee)),
                                    what: concrete_fungible(location, fee),
                                    who: local_account(adapter.treasury),
                                };
                                if !succeeds(env, pay_fee) {
                                    (
                                        seq![ask_fee, pay_fee],
                                        Err(XcmError::FailedToTransactAsset(Reason::FeeTransferFailed)),
                                    )
                                } else {
                                    let forward = (amount - fee) as u128;
                                    let transferring = concrete_fungible(location, forward);
                                    let ask_reserve = Request::ReserveLocation { location };
                                    match env(ask_reserve) {
                                        Reply::Reserve(Some(reserve)) => {
                                            let ask_account = Request::IntoAccount {
                                                location: dest_reserve(dest_id as u128),
                                            };
                                            let to_reserve = Request::Deposit {
                                                via: transactor_for(adapter.checker, transferring),
                                                what: transferring,
                                                who: local_account(
                                                    account_of(env, dest_reserve(dest_id as u128)),
                                                ),
                                            };
                                            let moves = reserve != dest_reserve(dest_id as u128);
                                            let before = if moves {
                                                seq![ask_fee, pay_fee, ask_reserve, ask_account, to_reserve]
                                            } else {
                                                seq![ask_fee, pay_fee, ask_reserve]
                                            };
                                            if moves && !succeeds(env, to_reserve) {
                                                (
                                                    before,
                                                    Err(
                                                        XcmError::FailedToTransactAsset(
                                                            Reason::ReserveTransferFailed,
                                                        ),
                                                    ),
                                                )
                                            } else {
                                                let rid_asset = if adapter.checker.spec_is_native_asset(
                                                    transferring,
                                                ) {
                                                    here()
                                                } else {
                                                    location
                                                };
                                                let ask_rid = Request::IntoRid { asset: rid_asset, dest_id };
                                                let transfer = Request::BridgeTransfer {
                                                    dest_id,
                                                    rid: rid_of(env, rid_asset, dest_id),
                                                    recipient,
                                                    amount: forward,
                                                };
                                                if succeeds(env, transfer) {
                                                    (before + seq![ask_rid, transfer, notify], notified)
                                                } else {
                                                    (
                                                        before + seq![ask_rid, transfer],
                                                        Err(XcmError::CallFailedWrapped),
                                                    )
                                                }
                                            }
                                        },
                                        _ => (
                                            seq![ask_fee, pay_fee, ask_reserve],
                                            Err(XcmError::FailedToTransactAsset(Reason::FailedGetreserve)),
                                        ),
                                    }
                                }
                            } else {
                                (
                                    seq![ask_fee],
                                    Err(XcmError::FailedToTransactAsset(Reason::Insufficient)),
                                )
                            },
                            _ => (
                                seq![ask_fee],
                                Err(XcmError::FailedToTransactAsset(Reason::FailedGetFee)),
                            ),
                        }
                    },
                },
                _ => (Seq::empty(), Err(XcmError::Unimplemented)),
            }
        },
    }
}

/// Driving a deposit through the transfer pallet's adapter does exactly what
/// its transcript says: the same requests in the same order, and the same
/// result, within eight requests.
pub proof fn lemma_xcm_deposit_run<C: NativeAssetChecker>(
    adapter: XcmAdapter<C>,
    env: spec_fn(Request) -> Reply,
    what: MultiAsset,
    who: MultiLocation,
)
    requires
        well_typed(env),
    ensures
        drive(
            |d: XcmDeposit, r: Reply| adapter.spec_resume_deposit(d, r),
            env,
            adapter.spec_deposit_asset(what, who),
            8,
        ).0 == xcm_deposit_transcript(adapter, env, what, who).0,
        drive(
            |d: XcmDeposit, r: Reply| adapter.spec_resume_deposit(d, r),
            env,
            adapter.spec_deposit_asset(what, who),
            8,
        ).1 == Some(xcm_deposit_transcript(adapter, env, what, who).1),
{
    reveal_with_fuel(drive, 9);
    let t = xcm_deposit_transcript(adapter, env, what, who);
    let resume = |d: XcmDeposit, r: Reply| adapter.spec_resume_deposit(d, r);
    let run = drive(resume, env, adapter.spec_deposit_asset(what, who), 8);
    let notify = Request::OnDeposited { what, who };
    assert(answers(notify, env(notify)));
    match bridge_path(who) {
        None => {
            let deposit = Request::Deposit { via: transactor_for(adapter.checker, what), what, who };
            assert(answers(deposit, env(deposit)));
            assert(run.0 =~= t.0);
        },
        Some((key, index, recipient)) => {
            if !is_cb_key(key) {
                assert(run.0 =~= t.0);
            } else {
                match (what.fun, what.id) {
                    (Fungibility::Fungible(amount), AssetId::Concrete(location)) => {
                        match bridge_chain_id(index) {
                            None => {
                                assert(run.0 =~= t.0);
                            },
                            Some(dest_id) => {
                                lemma_xcm_bridge_run(adapter, env, what, who, recipient, amount, location, dest_id);
                            },
                        }
                    },
                    _ => {
                        assert(run.0 =~= t.0);
                    },
                }
            }
        },
    }
}

/// The bridge part of `lemma_xcm_deposit_run`: from the fee request on.
proof fn lemma_xcm_bridge_run<C: NativeAssetChecker>(
    adapter: XcmAdapter<C>,
    env: spec_fn(Request) -> Reply,
    what: MultiAsset,
    who: MultiLocation,
    recipient: KeyData,
    amount: u128,
    location: MultiLocation,
    dest_id: u8,
)
    requires
        well_typed(env),
        bridge_path(who) matches Some((key, index, r)) && is_cb_key(key) && r == recipient
            && bridge_chain_id(index) == Some(dest_id),
        what.fun == Fungibility::Fungible(amount),
        what.id == AssetId::Concrete(location),
    ensures
        drive(
            |d: XcmDeposit, r: Reply| adapter.spec_resume_deposit(d, r),
            env,
            adapter.spec_deposit_asset(what, who),
            8,
        ).0 == xcm_deposit_transcript(adapter, env, what, who).0,
        drive(
            |d: XcmDeposit, r: Reply| adapter.spec_resume_deposit(d, r),
            env,
            adapter.spec_deposit_asset(what, who),
            8,
        ).1 == Some(xcm_deposit_transcript(adapter, env, what, who).1),
{
    reveal_with_fuel(drive, 9);
    let t = xcm_deposit_transcript(adapter, env, what, who);
    let resume = |d: XcmDeposit, r: Reply| adapter.spec_resume_deposit(d, r);
    let run = drive(resume, env, adapter.spec_deposit_asset(what, who), 8);
    let notify = Request::OnDeposited { what, who };
    assert(answers(notify, env(notify)));
    let ask_fee = Request::GetFee { dest_id, what };
    assert(answers(ask_fee, env(ask_fee)));
    let d0 = XcmDeposit {
        what,
        who,
        stage: XcmDepositStage::AwaitingFee { dest_id, location, amount, recipient },
    };
    assert(adapter.spec_deposit_asset(what, who) == Step::<_, ()>::Call(d0, ask_fee));
    match env(ask_fee) {
        Reply::Fee(Some(fee)) => {
            if amount > fee {
                let forward = (amount - fee) as u128;
                let pay_fee = Request::Deposit {
                    via: transactor_for(adapter.checker, concrete_fungible(location, fee)),
                    what: concrete_fungible(location, fee),
                    who: local_account(adapter.treasury),
                };
                assert(answers(pay_fee, env(pay_fee)));
                let d1 = XcmDeposit {
                    what,
                    who,
                    stage: XcmDepositStage::PayingFee { dest_id, location, forward, recipient },
                };
                assert(resume(d0, env(ask_fee)) == Step::<_, ()>::Call(d1, pay_fee));
                if succeeds(env, pay_fee) {
                    let ask_reserve = Request::ReserveLocation { location };
                    assert(answers(ask_reserve, env(ask_reserve)));
                    let d2 = XcmDeposit {
                        what,
                        who,
                        stage: XcmDepositStage::AwaitingReserve { dest_id, location, forward, recipient },
                    };
                    assert(resume(d1, env(pay_fee)) == Step::<_, ()>::Call(d2, ask_reserve));
                    match env(ask_reserve) {
                        Reply::Reserve(Some(reserve)) => {
                            lemma_xcm_reserve_run(
                                adapter, env, what, who, recipient, amount, location, dest_id, fee,
                                reserve,
                            );
                        },
                        _ => {
                            assert(run.0 =~= t.0);
                        },
                    }
                } else {
                    assert(run.0 =~= t.0);
                }
            } else {
                assert(run.0 =~= t.0);
            }
        },
        _ => {
            assert(run.0 =~= t.0);
        },
    }
}

/// The reserve part of `lemma_xcm_deposit_run`: from the reserve answer on.
proof fn lemma_xcm_reserve_run<C: NativeAssetChecker>(
    adapter: XcmAdapter<C>,
    env: spec_fn(Request) -> Reply,
    what: MultiAsset,
    who: MultiLocation,
    recipient: KeyData,
    amount: u128,
    location: MultiLocation,
    dest_id: u8,
    fee: u128,
    reserve: MultiLocation,
)
    requires
        well_typed(env),
        bridge_path(who) matches Some((key, index, r)) && is_cb_key(key) && r == recipient
            && bridge_chain_id(index) == Some(dest_id),
        what.fun == Fungibility::Fungible(amount),
        what.id == AssetId::Concrete(location),
        env(Request::GetFee { dest_id, what }) == Reply::Fee(Some(fee)),
        amount > fee,
        succeeds(
            env,
            Request::Deposit {
                via: transactor_for(adapter.checker, concrete_fungible(location, fee)),
                what: concrete_fungible(location, fee),
                who: local_account(adapter.treasury),
            },
        ),
        env(Request::ReserveLocation { location }) == Reply::Reserve(Some(reserve)),
    ensures
        drive(
            |d: XcmDeposit, r: Reply| adapter.spec_resume_deposit(d, r),
            env,
            adapter.spec_deposit_asset(what, who),
            8,
        ).0 == xcm_deposit_transcript(adapter, env, what, who).0,
        drive(
            |d: XcmDeposit, r: Reply| adapter.spec_resume_deposit(d, r),
            env,
            adapter.spec_deposit_asset(what, who),
            8,
        ).1 == Some(xcm_deposit_transcript(adapter, env, what, who).1),
{
    let t = xcm_deposit_transcript(adapter, env, what, who);
    let resume = |d: XcmDeposit, r: Reply| adapter.spec_resume_deposit(d, r);
    let notify = Request::OnDeposited { what, who };
    assert(answers(notify, env(notify)));
    let forward = (amount - fee) as u128;
    let transferring = concrete_fungible(location, forward);
    let ask_fee = Request::GetFee { dest_id, what };
    let pay_fee = Request::Deposit {
        via: transactor_for(adapter.checker, concrete_fungible(location, fee)),
        what: concrete_fungible(location, fee),
        who: local_account(adapter.treasury),
    };
    let ask_reserve = Request::ReserveLocation { location };
    let d0 = XcmDeposit {
        what,
        who,
        stage: XcmDepositStage::AwaitingFee { dest_id, location, amount, recipient },
    };
    let d1 = XcmDeposit {
        what,
        who,
        stage: XcmDepositStage::PayingFee { dest_id, location, forward, recipient },
    };
    let d2 = XcmDeposit {
        what,
        who,
        stage: XcmDepositStage::AwaitingReserve { dest_id, location, forward, recipient },
    };
    assert(adapter.spec_deposit_asset(what, who) == Step::<_, ()>::Call(d0, ask_fee));
    assert(resume(d0, env(ask_fee)) == Step::<_, ()>::Call(d1, pay_fee));
    assert(resume(d1, env(pay_fee)) == Step::<_, ()>::Call(d2, ask_reserve));
    // From the resource id request on.
    let rid_asset = adapter.rid_location(location, forward);
    let ask_rid = Request::IntoRid { asset: rid_asset, dest_id };
    assert(answers(ask_rid, env(ask_rid)));
    let d_rid = XcmDeposit {
        what,
        who,
        stage: XcmDepositStage::AwaitingRid { dest_id, forward, recipient },
    };
    let transfer = Request::BridgeTransfer {
        dest_id,
        rid: rid_of(env, rid_asset, dest_id),
        recipient,
        amount: forward,
    };
    assert(answers(transfer, env(transfer)));
    let d_tr = XcmDeposit { what, who, stage: XcmDepositStage::Transferring };
    let d_no = XcmDeposit { what, who, stage: XcmDepositStage::Notifying };
    assert(resume(d_rid, env(ask_rid)) == Step::<_, ()>::Call(d_tr, transfer));
    if succeeds(env, transfer) {
        assert(resume(d_tr, env(transfer)) == Step::<_, ()>::Call(d_no, notify));
    }
    reveal_with_fuel(drive, 4);
    let tail = drive(resume, env, Step::Call(d_rid, ask_rid), 3);
    if succeeds(env, transfer) {
        assert(tail.0 =~= seq![ask_rid, transfer, notify]);
    } else {
        assert(tail.0 =~= seq![ask_rid, transfer]);
    }
    let head = drive(resume, env, adapter.spec_deposit_asset(what, who), 8);
    if reserve != dest_reserve(dest_id as u128) {
        let ask_account = Request::IntoAccount { location: dest_reserve(dest_id as u128) };
        assert(answers(ask_account, env(ask_account)));
        let d3 = XcmDeposit {
            what,
            who,
            stage: XcmDepositStage::AwaitingReserveAccount { dest_id, location, forward, recipient },
        };
        assert(resume(d2, env(ask_reserve)) == Step::<_, ()>::Call(d3, ask_account));
        let to_reserve = Request::Deposit {
            via: transactor_for(adapter.checker, transferring),
            what: transferring,
            who: local_account(account_of(env, dest_reserve(dest_id as u128))),
        };
        assert(answers(to_reserve, env(to_reserve)));
        let d4 = XcmDeposit {
            what,
            who,
            stage: XcmDepositStage::DepositingToReserve { dest_id, location, forward, recipient },
        };
        assert(resume(d3, env(ask_account)) == Step::<_, ()>::Call(d4, to_reserve));
        if succeeds(env, to_reserve) {
            assert(resume(d4, env(to_reserve)) == Step::<_, ()>::Call(d_rid, ask_rid));
            lemma_drive_calls(
                resume,
                env,
                seq![d0, d1, d2, d3, d4],
                seq![ask_fee, pay_fee, ask_reserve, ask_account, to_reserve],
                Step::Call(d_rid, ask_rid),
                3,
            );
            assert(head.0 =~= t.0);
        } else {
            reveal_with_fuel(drive, 9);
            assert(head.0 =~= t.0);
        }
    } else {
        assert(resume(d2, env(ask_reserve)) == Step::<_, ()>::Call(d_rid, ask_rid));
        reveal_with_fuel(drive, 6);
        let tail5 = drive(resume, env, Step::Call(d_rid, ask_rid), 5);
        if succeeds(env, transfer) {
            assert(tail5.0 =~= seq![ask_rid, transfer, notify]);
        } else {
            assert(tail5.0 =~= seq![ask_rid, transfer]);
        }
        lemma_drive_calls(
            resume,
            env,
            seq![d0, d1, d2],
            seq![ask_fee, pay_fee, ask_reserve],
            Step::Call(d_rid, ask_rid),
            5,
        );
        assert(head.0 =~= t.0);
    }
}

/// Driving through a chain of calls, each answered step leading to the next,
/// makes those calls and then goes on as `last` does.
proof fn lemma_drive_calls<S, T>(
    resume: spec_fn(S, Reply) -> Step<S, T>,
    env: spec_fn(Request) -> Reply,
    states: Seq<S>,
    calls: Seq<Request>,
    last: Step<S, T>,
    fuel: nat,
)
    requires
        states.len() == calls.len(),
        states.len() > 0,
        forall|i: int|
            0 <= i < states.len() - 1 ==> #[trigger] resume(states[i], env(calls[i]))
                == Step::<S, T>::Call(states[i + 1], calls[i + 1]),
        resume(states.last(), env(calls.last())) == last,
    ensures
        drive(resume, env, Step::<S, T>::Call(states[0], calls[0]), fuel + states.len()).0
            == calls + drive(resume, env, last, fuel).0,
        drive(resume, env, Step::<S, T>::Call(states[0], calls[0]), fuel + states.len()).1
            == drive(resume, env, last, fuel).1,
    decreases states.len(),
{
    if states.len() == 1 {
        assert(calls =~= seq![calls[0]]);
        assert(drive(resume, env, Step::<S, T>::Call(states[0], calls[0]), fuel + 1).0
            =~= seq![calls[0]] + drive(resume, env, last, fuel).0);
    } else {
        let rest_states = states.drop_first();
        let rest_calls = calls.drop_first();
        assert forall|i: int| 0 <= i < rest_states.len() - 1 implies #[trigger] resume(
            rest_states[i],
            env(rest_calls[i]),
        ) == Step::<S, T>::Call(rest_states[i + 1], rest_calls[i + 1]) by {
            assert(resume(states[i + 1], env(calls[i + 1])) == Step::<S, T>::Call(states[i + 2], calls[i + 2]));
        }
        lemma_drive_calls(resume, env, rest_states, rest_calls, last, fuel);
        assert(resume(states[0], env(calls[0])) == Step::<S, T>::Call(states[1], calls[1]));
        assert(calls =~= seq![calls[0]] + rest_calls);
        assert(fuel + states.len() - 1 == fuel + rest_states.len());
    }
}

/// What a withdrawal of `what` from `who` through the transfer pallet's
/// adapter does in `env`: it withdraws through the transactor for `what`,
/// reports a withdrawal that went through to the withdraw handler, and then
/// gives back the assets that the transactor withdrew.
pub open spec fn xcm_withdraw_transcript<C: NativeAssetChecker>(
    adapter: XcmAdapter<C>,
    env: spec_fn(Request) -> Reply,
    what: MultiAsset,
    who: MultiLocation,
) -> (Seq<Request>, Result<Vec<MultiAsset>, XcmError>) {
    let withdraw = Request::Withdraw { via: transactor_for(adapter.checker, what), what, who };
    let notify = Request::OnWithdrawn { what, who };
    match env(withdraw) {
        Reply::Withdrawn(withdrawn) => (
            seq![withdraw, notify],
            if succeeds(env, notify) {
                Ok(withdrawn)
            } else {
                Err(XcmError::CallFailedWrapped)
            },
        ),
        _ => (seq![withdraw], Err(XcmError::CallFailed)),
    }
}

/// Driving a withdrawal through the transfer pallet's adapter does exactly
/// what its transcript says, within two requests.
pub proof fn lemma_xcm_withdraw_run<C: NativeAssetChecker>(
    adapter: XcmAdapter<C>,
    env: spec_fn(Request) -> Reply,
    what: MultiAsset,
    who: MultiLocation,
)
    requires
        well_typed(env),
    ensures
        drive(
            |w: XcmWithdraw, r: Reply| adapter.spec_resume_withdraw(w, r),
            env,
            adapter.spec_withdraw_asset(what, who),
            2,
        ).0 == xcm_withdraw_transcript(adapter, env, what, who).0,
        drive(
            |w: XcmWithdraw, r: Reply| adapter.spec_resume_withdraw(w, r),
            env,
            adapter.spec_withdraw_asset(what, who),
            2,
        ).1 == Some(xcm_withdraw_transcript(adapter, env, what, who).1),
{
    reveal_with_fuel(drive, 3);
    let t = xcm_withdraw_transcript(adapter, env, what, who);
    let run = drive(
        |w: XcmWithdraw, r: Reply| adapter.spec_resume_withdraw(w, r),
        env,
        adapter.spec_withdraw_asset(what, who),
        2,
    );
    let withdraw = Request::Withdraw { via: transactor_for(adapter.checker, what), what, who };
    let notify = Request::OnWithdrawn { what, who };
    assert(answers(withdraw, env(withdraw)));
    assert(answers(notify, env(notify)));
    assert(run.0 =~= t.0);
}

/// A withdrawal through the transfer pallet's adapter that succeeds gives
/// back exactly the assets that the transactor withdrew.
pub proof fn lemma_xcm_withdraw_returns_withdrawn<C: NativeAssetChecker>(
    adapter: XcmAdapter<C>,
    env: spec_fn(Request) -> Reply,
    what: MultiAsset,
    who: MultiLocation,
)
    requires
        xcm_withdraw_transcript(adapter, env, what, who).1 is Ok,
    ensures
        env(Request::Withdraw { via: transactor_for(adapter.checker, what), what, who })
            == Reply::Withdrawn(xcm_withdraw_transcript(adapter, env, what, who).1->Ok_0),
{
}

/// A bridge deposit through the transfer pallet's adapter splits the deposited
/// amount between the treasury and the bridge: the fee that the second
/// request pays into the treasury and the amount that the bridge is asked to
/// send add up to the deposited amount, and the bridge never sends nothing.
pub proof fn lemma_bridge_fee_conserves_amount<C: NativeAssetChecker>(
    adapter: XcmAdapter<C>,
    env: spec_fn(Request) -> Reply,
    what: MultiAsset,
    who: MultiLocation,
    i: int,
)
    requires
        0 <= i < xcm_deposit_transcript(adapter, env, what, who).0.len(),
        xcm_deposit_transcript(adapter, env, what, who).0[i] is BridgeTransfer,
    ensures
        ({
            let calls = xcm_deposit_transcript(adapter, env, what, who).0;
            &&& what.fun matches Fungibility::Fungible(total)
            &&& calls[1] matches Request::Deposit { what: fee_asset, who: payee, .. }
            &&& payee == local_account(adapter.treasury)
            &&& fee_asset.fun matches Fungibility::Fungible(fee)
            &&& calls[i] matches Request::BridgeTransfer { amount, .. }
            &&& amount + fee == total
            &&& amount > 0
        }),
{
}

/// A deposit through the transfer pallet's adapter that succeeds has been
/// reported: its last request tells the deposit handler of `what` and `who`.
pub proof fn lemma_xcm_deposit_reported<C: NativeAssetChecker>(
    adapter: XcmAdapter<C>,
    env: spec_fn(Request) -> Reply,
    what: MultiAsset,
    who: MultiLocation,
)
    requires
        xcm_deposit_transcript(adapter, env, what, who).1 is Ok,
    ensures
        xcm_deposit_transcript(adapter, env, what, who).0.len() > 0,
        xcm_deposit_transcript(adapter, env, what, who).0.last() == (Request::OnDeposited {
            what,
            who,
        }),
{
}

/// A withdrawal through the transfer pallet's adapter that succeeds has been
/// reported to the withdraw handler.
pub proof fn lemma_xcm_withdraw_reported<C: NativeAssetChecker>(
    adapter: XcmAdapter<C>,
    env: spec_fn(Request) -> Reply,
    what: MultiAsset,
    who: MultiLocation,
)
    requires
        xcm_withdraw_transcript(adapter, env, what, who).1 is Ok,
    ensures
        xcm_withdraw_transcript(adapter, env, what, who).0.last() == (Request::OnWithdrawn {
            what,
            who,
        }),
{
}

/// The transfer adapter sends the whole deposited amount over the bridge:
/// no fee is taken.
pub proof fn lemma_xtransfer_bridge_sends_all<C: NativeAssetChecker>(
    adapter: XTransferAdapter<C>,
    env: spec_fn(Request) -> Reply,
    what: MultiAsset,
    who: MultiLocation,
    i: int,
)
    requires
        0 <= i < xtransfer_deposit_transcript(adapter, env, what, who).0.len(),
        xtransfer_deposit_transcript(adapter, env, what, who).0[i] is BridgeTransfer,
    ensures
        what.fun matches Fungibility::Fungible(total) && xtransfer_deposit_transcript(
            adapter,
            env,
            what,
            who,
        ).0[i] matches Request::BridgeTransfer { amount, .. } && amount == total,
{
}

/// A deposit to a location that is not bridge-shaped is a single deposit
/// through the transactor for `what`, to `who` itself, in both adapters.
pub proof fn lemma_plain_deposit_goes_to_transactor<C: NativeAssetChecker>(
    checker: C,
    treasury: [u8; 32],
    env: spec_fn(Request) -> Reply,
    what: MultiAsset,
    who: MultiLocation,
)
    requires
        bridge_path(who) is None,
    ensures
        xcm_deposit_transcript(XcmAdapter { checker, treasury }, env, what, who).0[0] == (
        Request::Deposit { via: transactor_for(checker, what), what, who }),
        xtransfer_deposit_transcript(XTransferAdapter { checker }, env, what, who).0 == seq![
            Request::Deposit { via: transactor_for(checker, what), what, who },
        ],
{
}

/// A bridge deposit that is refused before anything is asked (a wrong bridge
/// key, an asset that is not concrete and fungible, a chain index that does
/// not fit a bridge chain id) makes no request at all, in both adapters, and
/// both refuse it in the same way.
pub proof fn lemma_refusals_make_no_calls<C: NativeAssetChecker>(
    checker: C,
    treasury: [u8; 32],
    env: spec_fn(Request) -> Reply,
    what: MultiAsset,
    who: MultiLocation,
)
    requires
        bridge_path(who) matches Some((key, index, _)) && (!is_cb_key(key) || !(what.fun is Fungible
            && what.id is Concrete) || bridge_chain_id(index) is None),
    ensures
        xcm_deposit_transcript(XcmAdapter { checker, treasury }, env, what, who).0.len() == 0,
        xtransfer_deposit_transcript(XTransferAdapter { checker }, env, what, who).0.len() == 0,
        xcm_deposit_transcript(XcmAdapter { checker, treasury }, env, what, who).1
            == xtransfer_deposit_transcript(XTransferAdapter { checker }, env, what, who).1,
{
}

/// The transfer adapter moves the asset into the account of the
/// destination's reserve, before sending it over the bridge, exactly when the
/// asset's reserve is not the destination's.
pub proof fn lemma_xtransfer_reserve_first<C: NativeAssetChecker>(
    adapter: XTransferAdapter<C>,
    env: spec_fn(Request) -> Reply,
    what: MultiAsset,
    who: MultiLocation,
    i: int,
)
    requires
        0 <= i < xtransfer_deposit_transcript(adapter, env, what, who).0.len(),
        xtransfer_deposit_transcript(adapter, env, what, who).0[i] is BridgeTransfer,
    ensures
        ({
            let calls = xtransfer_deposit_transcript(adapter, env, what, who).0;
            let dest_id = calls[i]->BridgeTransfer_dest_id;
            let location = what.id->Concrete_0;
            let reserve = env(Request::ReserveLocation { location })->Reserve_0->0;
            &&& what.id is Concrete
            &&& env(Request::ReserveLocation { location }) matches Reply::Reserve(Some(_))
            &&& reserve != dest_reserve(dest_id as u128) ==> i == 4 && calls[2] == (Request::Deposit {
                via: transactor_for(adapter.checker, what),
                what,
                who: local_account(account_of(env, dest_reserve(dest_id as u128))),
            })
            &&& reserve == dest_reserve(dest_id as u128) ==> i == 2 && calls.len() == 3
        }),
{
}

/// The transfer pallet's adapter moves the forwarded amount into the account
/// of the destination's reserve, after paying the fee and before sending it
/// over the bridge, exactly when the asset's reserve is not the
/// destination's.
pub proof fn lemma_xcm_reserve_first<C: NativeAssetChecker>(
    adapter: XcmAdapter<C>,
    env: spec_fn(Request) -> Reply,
    what: MultiAsset,
    who: MultiLocation,
    i: int,
)
    requires
        0 <= i < xcm_deposit_transcript(adapter, env, what, who).0.len(),
        xcm_deposit_transcript(adapter, env, what, who).0[i] is BridgeTransfer,
    ensures
        ({
            let calls = xcm_deposit_transcript(adapter, env, what, who).0;
            let dest_id = calls[i]->BridgeTransfer_dest_id;
            let forward = calls[i]->BridgeTransfer_amount;
            let location = what.id->Concrete_0;
            let reserve = env(Request::ReserveLocation { location })->Reserve_0->0;
            let transferring = concrete_fungible(location, forward);
            &&& what.id is Concrete
            &&& env(Request::ReserveLocation { location }) matches Reply::Reserve(Some(_))
            &&& reserve != dest_reserve(dest_id as u128) ==> i == 6 && calls[4] == (Request::Deposit {
                via: transactor_for(adapter.checker, transferring),
                what: transferring,
                who: local_account(account_of(env, dest_reserve(dest_id as u128))),
            })
            &&& reserve == dest_reserve(dest_id as u128) ==> i == 4
        }),
{
}

/// The reserve location of bridge chain `index`, written out:
/// `(0, X2(GeneralKey("cb"), GeneralIndex(index)))`.
pub open spec fn bridge_chain_reserve(index: u128) -> MultiLocation {
    MultiLocation {
        parents: 0,
        interior: Junctions::X2(
            Junction::GeneralKey { length: 2, data: CB_KEY_DATA },
            Junction::GeneralIndex(index),
        ),
    }
}

/// An asset whose reserve is the reserve of the destination chain goes
/// straight over the bridge through the transfer adapter: no account is asked
/// for and nothing is deposited; the reserve, the resource id and the bridge
/// transfer of the whole amount are all that is asked.  An asset whose
/// reserve is another chain's is first deposited into the account of the
/// destination chain's reserve.
pub proof fn lemma_xtransfer_reserve_decision<C: NativeAssetChecker>(
    adapter: XTransferAdapter<C>,
    env: spec_fn(Request) -> Reply,
    location: MultiLocation,
    amount: u128,
    who: MultiLocation,
    index: u128,
    reserve_index: u128,
)
    requires
        bridge_path(who) matches Some((key, i, _)) && is_cb_key(key) && i == index,
        index <= 255,
        env(Request::ReserveLocation { location }) == Reply::Reserve(
            Some(bridge_chain_reserve(reserve_index)),
        ),
    ensures
        ({
            let what = MultiAsset {
                id: AssetId::Concrete(location),
                fun: Fungibility::Fungible(amount),
            };
            let calls = xtransfer_deposit_transcript(adapter, env, what, who).0;
            &&& reserve_index == index ==> {
                &&& calls.len() == 3
                &&& forall|k: int|
                    0 <= k < calls.len() ==> !(#[trigger] calls[k] is IntoAccount) && !(
                    calls[k] is Deposit)
                &&& calls[2] matches Request::BridgeTransfer { dest_id, amount: a, .. }
                    && dest_id == index && a == amount
            }
            &&& reserve_index != index ==> {
                &&& calls[1] == Request::IntoAccount { location: bridge_chain_reserve(index) }
                &&& calls[2] matches Request::Deposit { what: w, who: to, .. } && w == what && to
                    == local_account(account_of(env, bridge_chain_reserve(index)))
            }
        }),
{
    lemma_dest_reserve_names_its_chain(index, reserve_index);
    assert(dest_reserve(index) == bridge_chain_reserve(index));
    assert(dest_reserve(reserve_index) == bridge_chain_reserve(reserve_index));
}

/// The transfer pallet's adapter never asks for a reserve account when the
/// asset's reserve is the destination chain's reserve; when it is another
/// chain's, the account it asks for is that of the destination chain's
/// reserve.
pub proof fn lemma_xcm_reserve_decision<C: NativeAssetChecker>(
    adapter: XcmAdapter<C>,
    env: spec_fn(Request) -> Reply,
    location: MultiLocation,
    amount: u128,
    who: MultiLocation,
    index: u128,
    reserve_index: u128,
)
    requires
        bridge_path(who) matches Some((key, i, _)) && is_cb_key(key) && i == index,
        index <= 255,
        env(Request::ReserveLocation { location }) == Reply::Reserve(
            Some(bridge_chain_reserve(reserve_index)),
        ),
    ensures
        ({
            let what = MultiAsset {
                id: AssetId::Concrete(location),
                fun: Fungibility::Fungible(amount),
            };
            let calls = xcm_deposit_transcript(adapter, env, what, who).0;
            &&& reserve_index == index ==> forall|k: int|
                0 <= k < calls.len() ==> !(#[trigger] calls[k] is IntoAccount)
            &&& reserve_index != index ==> forall|k: int|
                0 <= k < calls.len() && #[trigger] calls[k] is IntoAccount ==> calls[k]
                    == Request::IntoAccount { location: bridge_chain_reserve(index) }
        }),
{
    lemma_dest_reserve_names_its_chain(index, reserve_index);
    assert(dest_reserve(index) == bridge_chain_reserve(index));
    assert(dest_reserve(reserve_index) == bridge_chain_reserve(reserve_index));
}

} // verus!
