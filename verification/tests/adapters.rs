use xtransfer::bridge::{dest_reserve_location, CB_KEY_DATA};
use xtransfer::migrations::{HrmpTest, Instruction, MultiAssetFilter, OriginKind, WeightLimit, WildMultiAsset};
use xtransfer::pallet::{Pallet, TransferRoute};
use xtransfer::traits::{XAsset, XTransact};
use xtransfer::transact::{KeyData, Reason, Reply, Request, Step, Transactor, XcmError};
use xtransfer::types::{AssetId, Fungibility, Junction, Junctions, MultiAsset, MultiLocation, NetworkId};
use xtransfer::xcm_adapter::{XcmAdapter, XcmDeposit, XcmWithdraw};
use xtransfer::xcm_helper::{
    AssetOriginFilter, ConcrateAsset, ConcreteAssetsMatcher, MatchError, NativeAssetChecker,
    NativeAssetFilter, NativeAssetMatcher, XTransferAdapter, XTransferDeposit,
    XTransferTakeRevenue,
};

const PARA: u32 = 2004;
const TREASURY: [u8; 32] = [7u8; 32];
const RESERVE_ACCOUNT: [u8; 32] = [9u8; 32];
const RID: [u8; 32] = [5u8; 32];

fn key(bytes: &[u8]) -> Junction {
    let mut data = [0u8; 32];
    data[..bytes.len()].copy_from_slice(bytes);
    Junction::GeneralKey { length: bytes.len() as u8, data }
}

fn key_data(bytes: &[u8]) -> KeyData {
    match key(bytes) {
        Junction::GeneralKey { length, data } => KeyData { length, data },
        _ => unreachable!(),
    }
}

fn bridge_dest(k: &[u8], chain: u128, recipient: &[u8]) -> MultiLocation {
    MultiLocation::new(0, Junctions::X3(key(k), Junction::GeneralIndex(chain), key(recipient)))
}

fn sibling_asset(para: u32, amount: u128) -> MultiAsset {
    MultiAsset::concrete_fungible(
        MultiLocation::new(1, Junctions::X2(Junction::Parachain(para), Junction::GeneralIndex(3))),
        amount,
    )
}

fn native(amount: u128) -> MultiAsset {
    MultiAsset::concrete_fungible(MultiLocation::here(), amount)
}

fn account(id: [u8; 32]) -> MultiLocation {
    MultiLocation::new(0, Junctions::X1(Junction::AccountId32 { network: None, id }))
}

fn filter() -> NativeAssetFilter {
    NativeAssetFilter { para_id: PARA }
}

/// Drives a transfer-adapter deposit, answering with `answer`; returns the
/// requests made and the result.
fn run_xtransfer(
    what: MultiAsset,
    who: MultiLocation,
    answer: impl Fn(&Request) -> Reply,
) -> (Vec<Request>, Result<(), XcmError>) {
    let adapter = XTransferAdapter { checker: filter() };
    let mut calls = Vec::new();
    let mut step: Step<XTransferDeposit, ()> = adapter.deposit_asset(&what, &who);
    loop {
        match step {
            Step::Finished(r) => return (calls, r),
            Step::Call(d, req) => {
                let reply = answer(&req);
                assert!(d.accepts(&reply));
                calls.push(req);
                step = adapter.resume_deposit(d, reply);
            }
        }
    }
}

fn run_xcm(
    what: MultiAsset,
    who: MultiLocation,
    answer: impl Fn(&Request) -> Reply,
) -> (Vec<Request>, Result<(), XcmError>) {
    let adapter = XcmAdapter { checker: filter(), treasury: TREASURY };
    let mut calls = Vec::new();
    let mut step: Step<XcmDeposit, ()> = adapter.deposit_asset(&what, &who);
    loop {
        match step {
            Step::Finished(r) => return (calls, r),
            Step::Call(d, req) => {
                let reply = answer(&req);
                assert!(d.accepts(&reply));
                calls.push(req);
                step = adapter.resume_deposit(d, reply);
            }
        }
    }
}

/// Answers every query, with `fee` as the bridge fee and `reserve` as every
/// asset's reserve, and carries out every call except those `fails` picks.
fn env(
    fee: Option<u128>,
    reserve: Option<MultiLocation>,
    fails: impl Fn(&Request) -> bool,
) -> impl Fn(&Request) -> Reply {
    move |req: &Request| match req {
        Request::GetFee { .. } => Reply::Fee(fee),
        Request::ReserveLocation { .. } => Reply::Reserve(reserve),
        Request::IntoAccount { .. } => Reply::Account(RESERVE_ACCOUNT),
        Request::IntoRid { .. } => Reply::Rid(RID),
        other => {
            if fails(other) {
                Reply::Failure
            } else {
                Reply::Success
            }
        }
    }
}

fn is_deposit(req: &Request) -> bool {
    matches!(req, Request::Deposit { .. })
}

#[test]
fn native_filter_knows_both_native_names() {
    let f = filter();
    assert!(f.is_native_asset(&native(5)));
    assert!(f.is_native_asset(&MultiAsset::concrete_fungible(
        MultiLocation::new(1, Junctions::X1(Junction::Parachain(PARA))),
        5
    )));
    assert!(!f.is_native_asset(&sibling_asset(PARA + 1, 5)));
    assert!(!f.is_native_asset(&MultiAsset::concrete_fungible(MultiLocation::parent(), 5)));
    let nft = MultiAsset {
        id: AssetId::Concrete(MultiLocation::here()),
        fun: Fungibility::NonFungible(xtransfer::types::AssetInstance::Index(1)),
    };
    assert!(!f.is_native_asset(&nft));
    assert_eq!(
        f.native_asset_id(),
        MultiLocation::new(1, Junctions::X1(Junction::Parachain(PARA)))
    );
    assert!(f.is_native_asset_id(&f.native_asset_id()));
    assert!(f.is_native_asset_id(&MultiLocation::here()));
}

#[test]
fn origins_of_assets() {
    assert_eq!(
        ConcrateAsset::origin(&sibling_asset(2000, 1)),
        Some(MultiLocation::new(1, Junctions::X1(Junction::Parachain(2000))))
    );
    let relay_token = MultiAsset::concrete_fungible(MultiLocation::parent(), 1);
    assert_eq!(ConcrateAsset::origin(&relay_token), Some(MultiLocation::parent()));
    let child = MultiAsset::concrete_fungible(
        MultiLocation::new(0, Junctions::X2(Junction::Parachain(7), Junction::PalletInstance(1))),
        1,
    );
    assert_eq!(
        ConcrateAsset::origin(&child),
        Some(MultiLocation::new(0, Junctions::X1(Junction::Parachain(7))))
    );
    assert_eq!(ConcrateAsset::origin(&native(1)), Some(MultiLocation::here()));
    let local_pallet = MultiAsset::concrete_fungible(
        MultiLocation::new(0, Junctions::X1(Junction::PalletInstance(50))),
        1,
    );
    assert_eq!(ConcrateAsset::origin(&local_pallet), None);
    let far = MultiAsset::concrete_fungible(MultiLocation::new(2, Junctions::Here), 1);
    assert_eq!(ConcrateAsset::origin(&far), None);
    let abstract_asset = MultiAsset { id: AssetId::Abstract([1; 32]), fun: Fungibility::Fungible(1) };
    assert_eq!(ConcrateAsset::id(&abstract_asset), None);
    assert_eq!(ConcrateAsset::origin(&abstract_asset), None);
}

#[test]
fn origin_filter_trusts_only_the_issuer() {
    let sibling = MultiLocation::new(1, Junctions::X1(Junction::Parachain(2000)));
    assert!(AssetOriginFilter::filter_asset_location(&sibling_asset(2000, 1), &sibling));
    assert!(!AssetOriginFilter::filter_asset_location(&sibling_asset(2001, 1), &sibling));
    assert!(!AssetOriginFilter::filter_asset_location(
        &sibling_asset(2000, 1),
        &MultiLocation::parent()
    ));
}

#[test]
fn native_matcher_returns_native_amounts() {
    let m = NativeAssetMatcher { checker: filter() };
    assert_eq!(m.matches_fungible(&native(42)), Some(42));
    assert_eq!(m.matches_fungible(&sibling_asset(2000, 42)), None);
}

#[test]
fn registry_matcher_needs_a_registered_concrete_asset() {
    let a = sibling_asset(2000, 8);
    let (loc, amount) = ConcreteAssetsMatcher::registry_key(&a).unwrap();
    assert_eq!(amount, 8);
    assert_eq!(Some(loc), ConcrateAsset::id(&a));
    assert_eq!(ConcreteAssetsMatcher::matches_fungibles(&a, Some(3u32)), Ok((3u32, 8)));
    assert_eq!(
        ConcreteAssetsMatcher::matches_fungibles::<u32>(&a, None),
        Err(MatchError::AssetNotFound)
    );
    let abstract_asset = MultiAsset { id: AssetId::Abstract([1; 32]), fun: Fungibility::Fungible(1) };
    assert!(ConcreteAssetsMatcher::registry_key(&abstract_asset).is_none());
    assert_eq!(
        ConcreteAssetsMatcher::matches_fungibles(&abstract_asset, Some(3u32)),
        Err(MatchError::AssetNotFound)
    );
}

#[test]
fn xtransfer_plain_deposit_goes_to_the_transactor() {
    let who = account([1; 32]);
    let (calls, r) = run_xtransfer(native(10), who, env(None, None, |_| false));
    assert_eq!(r, Ok(()));
    assert_eq!(calls.len(), 1);
    assert!(matches!(calls[0], Request::Deposit { via: Transactor::Native, .. }));
    let (calls, r) = run_xtransfer(sibling_asset(2000, 10), who, env(None, None, |_| true));
    assert_eq!(r, Err(XcmError::CallFailed));
    assert!(matches!(calls[0], Request::Deposit { via: Transactor::Fungibles, .. }));
}

#[test]
fn xtransfer_bridge_deposit_moves_to_reserve_and_sends_all() {
    let who = bridge_dest(b"cb", 2, b"alice");
    let elsewhere = MultiLocation::new(1, Junctions::X1(Junction::Parachain(2000)));
    let what = sibling_asset(2000, 100);
    let (calls, r) = run_xtransfer(what, who, env(None, Some(elsewhere), |_| false));
    assert_eq!(r, Ok(()));
    assert_eq!(calls.len(), 5);
    match calls[2] {
        Request::Deposit { what: w, who: to, .. } => {
            assert_eq!(w, what);
            assert_eq!(to, account(RESERVE_ACCOUNT));
        }
        _ => panic!("expected the reserve deposit"),
    }
    match calls[4] {
        Request::BridgeTransfer { dest_id, rid, recipient, amount } => {
            assert_eq!(dest_id, 2);
            assert_eq!(rid, RID);
            assert_eq!(recipient.to_vec(), b"alice".to_vec());
            assert_eq!(amount, 100);
        }
        _ => panic!("expected the bridge transfer"),
    }
    // The asset's reserve is the destination's: nothing moves to the reserve.
    let (calls, r) =
        run_xtransfer(what, who, env(None, Some(dest_reserve_location(2)), |_| false));
    assert_eq!(r, Ok(()));
    assert_eq!(calls.len(), 3);
}

#[test]
fn xtransfer_bridge_refusals() {
    let what = sibling_asset(2000, 100);
    let e = || env(None, Some(MultiLocation::parent()), |_| false);
    let (calls, r) = run_xtransfer(what, bridge_dest(b"xx", 2, b"bob"), e());
    assert_eq!(r, Err(XcmError::FailedToTransactAsset(Reason::DismatchPath)));
    assert!(calls.is_empty());
    let abstract_asset = MultiAsset { id: AssetId::Abstract([1; 32]), fun: Fungibility::Fungible(1) };
    let (_, r) = run_xtransfer(abstract_asset, bridge_dest(b"cb", 2, b"bob"), e());
    assert_eq!(r, Err(XcmError::Unimplemented));
    let (_, r) = run_xtransfer(what, bridge_dest(b"cb", 256, b"bob"), e());
    assert_eq!(r, Err(XcmError::FailedToTransactAsset(Reason::ChainIdConversionFailed)));
    let (calls, r) = run_xtransfer(what, bridge_dest(b"cb", 2, b"bob"), env(None, None, |_| false));
    assert_eq!(r, Err(XcmError::FailedToTransactAsset(Reason::FailedGetreserve)));
    assert_eq!(calls.len(), 1);
    let (_, r) = run_xtransfer(what, bridge_dest(b"cb", 2, b"bob"), env(None, Some(MultiLocation::parent()), is_deposit));
    assert_eq!(r, Err(XcmError::FailedToTransactAsset(Reason::ReserveTransferFailed)));
    let (_, r) = run_xtransfer(
        what,
        bridge_dest(b"cb", 2, b"bob"),
        env(None, Some(MultiLocation::parent()), |r| matches!(r, Request::BridgeTransfer { .. })),
    );
    assert_eq!(r, Err(XcmError::CallFailedWrapped));
}

#[test]
fn xcm_bridge_deposit_pays_the_fee_and_forwards_the_rest() {
    let who = bridge_dest(b"cb", 1, b"carol");
    let what = sibling_asset(2000, 100);
    let (calls, r) = run_xcm(what, who, env(Some(30), Some(MultiLocation::parent()), |_| false));
    assert_eq!(r, Ok(()));
    assert_eq!(calls.len(), 8);
    match calls[1] {
        Request::Deposit { what: fee, who: to, via } => {
            assert_eq!(via, Transactor::Fungibles);
            assert_eq!(to, account(TREASURY));
            assert_eq!(fee.fun, Fungibility::Fungible(30));
        }
        _ => panic!("expected the fee payment"),
    }
    match calls[4] {
        Request::Deposit { what: rest, who: to, .. } => {
            assert_eq!(rest.fun, Fungibility::Fungible(70));
            assert_eq!(to, account(RESERVE_ACCOUNT));
        }
        _ => panic!("expected the reserve deposit"),
    }
    match calls[5] {
        Request::IntoRid { asset, dest_id } => {
            assert_eq!(dest_id, 1);
            assert_eq!(asset, ConcrateAsset::id(&what).unwrap());
        }
        _ => panic!("expected the resource id query"),
    }
    match calls[6] {
        Request::BridgeTransfer { amount, .. } => assert_eq!(amount, 70),
        _ => panic!("expected the bridge transfer"),
    }
    assert!(matches!(calls[7], Request::OnDeposited { .. }));
}

#[test]
fn xcm_native_token_is_named_here_on_the_bridge() {
    let who = bridge_dest(b"cb", 1, b"carol");
    let what = MultiAsset::concrete_fungible(
        MultiLocation::new(1, Junctions::X1(Junction::Parachain(PARA))),
        50,
    );
    let (calls, r) = run_xcm(what, who, env(Some(0), Some(dest_reserve_location(1)), |_| false));
    assert_eq!(r, Ok(()));
    assert!(matches!(calls[1], Request::Deposit { via: Transactor::Native, .. }));
    match calls[3] {
        Request::IntoRid { asset, .. } => assert_eq!(asset, MultiLocation::here()),
        _ => panic!("expected the resource id query"),
    }
    match calls[4] {
        Request::BridgeTransfer { amount, .. } => assert_eq!(amount, 50),
        _ => panic!("expected the bridge transfer"),
    }
}

#[test]
fn xcm_bridge_refusals() {
    let who = bridge_dest(b"cb", 1, b"carol");
    let what = sibling_asset(2000, 100);
    let parent = Some(MultiLocation::parent());
    let (calls, r) = run_xcm(what, who, env(None, parent, |_| false));
    assert_eq!(r, Err(XcmError::FailedToTransactAsset(Reason::FailedGetFee)));
    assert_eq!(calls.len(), 1);
    let (_, r) = run_xcm(what, who, env(Some(100), parent, |_| false));
    assert_eq!(r, Err(XcmError::FailedToTransactAsset(Reason::Insufficient)));
    let (_, r) = run_xcm(what, who, env(Some(1), parent, is_deposit));
    assert_eq!(r, Err(XcmError::FailedToTransactAsset(Reason::FeeTransferFailed)));
    let (_, r) = run_xcm(what, who, env(Some(1), None, |_| false));
    assert_eq!(r, Err(XcmError::FailedToTransactAsset(Reason::FailedGetreserve)));
    let (_, r) = run_xcm(
        what,
        who,
        env(Some(1), parent, |r| matches!(r, Request::Deposit { who, .. } if *who == account(RESERVE_ACCOUNT))),
    );
    assert_eq!(r, Err(XcmError::FailedToTransactAsset(Reason::ReserveTransferFailed)));
    let (_, r) = run_xcm(what, who, env(Some(1), parent, |r| matches!(r, Request::OnDeposited { .. })));
    assert_eq!(r, Err(XcmError::CallFailedWrapped));
    let (_, r) = run_xcm(what, bridge_dest(b"ce", 1, b"carol"), env(Some(1), parent, |_| false));
    assert_eq!(r, Err(XcmError::FailedToTransactAsset(Reason::DismatchPath)));
}

#[test]
fn xcm_plain_deposit_is_reported() {
    let who = account([3; 32]);
    let (calls, r) = run_xcm(native(5), who, env(None, None, |_| false));
    assert_eq!(r, Ok(()));
    assert_eq!(calls.len(), 2);
    assert!(matches!(calls[1], Request::OnDeposited { what, who: w } if what == native(5) && w == who));
    let (calls, r) = run_xcm(native(5), who, env(None, None, is_deposit));
    assert_eq!(r, Err(XcmError::CallFailed));
    assert_eq!(calls.len(), 1);
}

#[test]
fn xcm_withdraw_is_reported_and_gives_back_what_was_withdrawn() {
    let adapter = XcmAdapter { checker: filter(), treasury: TREASURY };
    let who = account([3; 32]);
    let step = adapter.withdraw_asset(&native(5), &who);
    let w: XcmWithdraw = match step {
        Step::Call(w, Request::Withdraw { via: Transactor::Native, .. }) => w,
        _ => panic!("expected the withdrawal"),
    };
    let taken = vec![native(5), sibling_asset(2000, 1)];
    assert!(w.accepts(&Reply::Withdrawn(taken.clone())));
    assert!(!w.accepts(&Reply::Success));
    let w2 = match adapter.resume_withdraw(w.clone(), Reply::Withdrawn(taken.clone())) {
        Step::Call(w2, Request::OnWithdrawn { .. }) => w2,
        _ => panic!("expected the report"),
    };
    match adapter.resume_withdraw(w2.clone(), Reply::Success) {
        Step::Finished(Ok(assets)) => assert_eq!(assets, taken),
        _ => panic!("expected the withdrawn assets"),
    }
    assert!(matches!(
        adapter.resume_withdraw(w2, Reply::Failure),
        Step::Finished(Err(XcmError::CallFailedWrapped))
    ));
    assert!(matches!(
        adapter.resume_withdraw(w, Reply::Failure),
        Step::Finished(Err(XcmError::CallFailed))
    ));
}

#[test]
fn check_in_and_out_pick_the_transactor() {
    let xa = XTransferAdapter { checker: filter() };
    let origin = MultiLocation::parent();
    assert!(matches!(
        xa.can_check_in(&origin, &native(1)),
        Request::CanCheckIn { via: Transactor::Native, .. }
    ));
    assert!(matches!(
        xa.check_in(&origin, &sibling_asset(1, 1)),
        Request::CheckIn { via: Transactor::Fungibles, .. }
    ));
    assert!(matches!(
        xa.check_out(&origin, &native(1)),
        Request::CheckOut { via: Transactor::Native, .. }
    ));
    assert!(matches!(
        xa.withdraw_asset(&native(1), &origin),
        Request::Withdraw { via: Transactor::Native, .. }
    ));
    let ca = XcmAdapter { checker: filter(), treasury: TREASURY };
    assert!(matches!(
        ca.can_check_in(&origin, &sibling_asset(1, 1)),
        Request::CanCheckIn { via: Transactor::Fungibles, .. }
    ));
}

#[test]
fn revenue_goes_to_the_beneficiary() {
    let t = XTransferTakeRevenue { beneficiary: [4; 32] };
    let (what, who) = t.take_revenue(native(9));
    assert_eq!(what, native(9));
    assert_eq!(who, account([4; 32]));
}

#[test]
fn hrmp_test_message() {
    let (dest, message) = HrmpTest::pre_upgrade();
    assert_eq!(dest, MultiLocation::parent());
    assert_eq!(message.len(), 5);
    match &message[0] {
        Instruction::WithdrawAsset(assets) => assert_eq!(assets, &vec![native(100_000_000_000)]),
        _ => panic!(),
    }
    match &message[1] {
        Instruction::BuyExecution { fees, weight_limit } => {
            assert_eq!(*fees, native(100_000_000_000));
            assert_eq!(*weight_limit, WeightLimit::Limited(1_000_000_000));
        }
        _ => panic!(),
    }
    match &message[2] {
        Instruction::Transact { origin_type, require_weight_at_most, call } => {
            assert_eq!(*origin_type, OriginKind::Native);
            assert_eq!(*require_weight_at_most, 1_000_000_000);
            let hex: String = call.iter().map(|b| format!("{:02x}", b)).collect();
            assert_eq!(hex, "1802083c01d10700003c00d1070000e803000000900100");
        }
        _ => panic!(),
    }
    assert!(matches!(message[3], Instruction::RefundSurplus));
    match &message[4] {
        Instruction::DepositAsset { assets, max_assets, beneficiary } => {
            assert!(matches!(assets, MultiAssetFilter::Wild(WildMultiAsset::All)));
            assert_eq!(*max_assets, 1);
            assert_eq!(*beneficiary, MultiLocation::new(0, Junctions::X1(Junction::Parachain(2004))));
        }
        _ => panic!(),
    }
    assert!(HrmpTest::post_upgrade().is_ok());
}

#[test]
fn xasset_locations_and_routes() {
    let n: XAsset<u32, u32, u32> = XAsset::Native;
    assert_eq!(n.into_location(None), Some(MultiLocation::here()));
    let f: XAsset<u32, u32, u32> = XAsset::Fungible(3);
    assert_eq!(f.clone().into_location(None), None);
    assert_eq!(f.into_location(Some(MultiLocation::parent())), Some(MultiLocation::parent()));
    assert_eq!(
        Pallet::transfer_asset(XAsset::<u32, u32, u32>::Native, 9, None),
        Some(native(9))
    );
    assert_eq!(Pallet::transfer_asset(XAsset::<u32, u32, u32>::NonFungible(1, 2), 9, None), None);
    assert_eq!(Pallet::route(&bridge_dest(b"cb", 1, b"x")), Some(TransferRoute::ChainBridge));
    assert_eq!(Pallet::route(&bridge_dest(b"ce", 1, b"x")), Some(TransferRoute::CelerBridge));
    assert_eq!(Pallet::route(&bridge_dest(b"zz", 1, b"x")), None);
    let relay_account =
        MultiLocation::new(1, Junctions::X1(Junction::AccountId32 { network: Some(NetworkId::Polkadot), id: [1; 32] }));
    assert_eq!(Pallet::route(&relay_account), Some(TransferRoute::Xcm));
    let sibling_account = MultiLocation::new(
        1,
        Junctions::X2(Junction::Parachain(2000), Junction::AccountId32 { network: None, id: [1; 32] }),
    );
    assert_eq!(Pallet::route(&sibling_account), Some(TransferRoute::Xcm));
    assert_eq!(Pallet::route(&account([1; 32])), None);
    let m = MultiLocation::here();
    assert!(<() as XTransact>::transfer_fungible(m, native(1), m).is_ok());
    assert!(<() as XTransact>::transfer_nonfungible(m, native(1), m).is_ok());
    assert!(<() as XTransact>::transfer_generic(m, vec![1, 2], m).is_ok());
}

#[test]
fn reasons_read_as_their_names() {
    assert_eq!(Reason::DismatchPath.as_str(), "DismatchPath");
    assert_eq!(Reason::FailedGetreserve.as_str(), "FailedGetreserve");
    assert_eq!(Reason::Insufficient.as_str(), "Insufficient");
    assert_eq!(key_data(b"abc").to_vec(), b"abc".to_vec());
    let long = KeyData { length: 40, data: CB_KEY_DATA };
    assert_eq!(long.to_vec().len(), 32);
}

#[test]
fn equality_tells_locations_apart() {
    let a = MultiLocation::new(0, Junctions::X1(Junction::AccountId32 { network: None, id: [1; 32] }));
    let b = MultiLocation::new(0, Junctions::X1(Junction::AccountId32 { network: None, id: [2; 32] }));
    let c = MultiLocation::new(
        0,
        Junctions::X1(Junction::AccountId32 { network: Some(NetworkId::Kusama), id: [1; 32] }),
    );
    assert!(a == a);
    assert!(a != b);
    assert!(a != c);
    assert!(key(b"cb") != key(b"ce"));
}

#[test]
fn chain_index_must_fit_a_byte() {
    let what = sibling_asset(2000, 100);
    let e = || env(None, Some(dest_reserve_location(255)), |_| false);
    let (calls, r) = run_xtransfer(what, bridge_dest(b"cb", 255, b"bob"), e());
    assert_eq!(r, Ok(()));
    assert!(matches!(calls[2], Request::BridgeTransfer { dest_id: 255, .. }));
    let (calls, r) = run_xcm(what, bridge_dest(b"cb", 256, b"bob"), env(Some(1), None, |_| false));
    assert_eq!(r, Err(XcmError::FailedToTransactAsset(Reason::ChainIdConversionFailed)));
    assert!(calls.is_empty());
}

#[test]
fn an_origin_holds_the_assets_it_is_trusted_with() {
    let located = MultiLocation::new(
        1,
        Junctions::X3(Junction::Parachain(2000), Junction::PalletInstance(50), Junction::GeneralIndex(8)),
    );
    let asset = MultiAsset::concrete_fungible(located, 1);
    let origin = ConcrateAsset::origin(&asset).unwrap();
    assert_eq!(origin.parents, located.parents);
    assert_eq!(origin.interior.first(), located.interior.first());
    assert_eq!(ConcrateAsset::origin(&MultiAsset::concrete_fungible(origin, 1)), Some(origin));
    // The native token is issued where it is named.
    let sibling_native = MultiLocation::new(1, Junctions::X1(Junction::Parachain(PARA)));
    assert_eq!(
        ConcrateAsset::origin(&MultiAsset::concrete_fungible(sibling_native, 1)),
        Some(sibling_native)
    );
}

#[test]
fn both_adapters_refuse_the_same_way_without_calls() {
    let who = bridge_dest(b"cx", 1, b"dave");
    let what = sibling_asset(2000, 100);
    let (c1, r1) = run_xcm(what, who, env(Some(1), None, |_| false));
    let (c2, r2) = run_xtransfer(what, who, env(Some(1), None, |_| false));
    assert!(c1.is_empty() && c2.is_empty());
    assert_eq!(r1, r2);
}
