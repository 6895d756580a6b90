//! The runtime upgrade check that opens an HRMP channel: before the upgrade
//! it sends the relay chain one fixed XCM message.
use vstd::prelude::*;
use crate::types::{concrete_fungible, here, parachain, parent, Junction, Junctions, MultiAsset, MultiLocation};

verus! {

/// How much weight execution may buy.
#[derive(Clone, Copy, Debug, PartialEq, Eq, Structural)]
pub enum WeightLimit {
    Unlimited,
    Limited(u64),
}

/// The kind of origin a call is dispatched with.
#[derive(Clone, Copy, Debug, PartialEq, Eq, Structural)]
pub enum OriginKind {
    Native,
    SovereignAccount,
    Superuser,
    Xcm,
}

/// A wildcard over the assets in holding.
#[derive(Clone, Copy, Debug, PartialEq, Eq, Structural)]
pub enum WildMultiAsset {
    /// All assets in holding.
    All,
}

/// Which assets an instruction applies to.
#[derive(Clone, Debug)]
pub enum MultiAssetFilter {
    Definite(Vec<MultiAsset>),
    Wild(WildMultiAsset),
}

/// The instructions of an XCM message (version 2) that the check sends.
#[derive(Clone, Debug)]
pub enum Instruction {
    /// Withdraw the assets from the origin's account into holding.
    WithdrawAsset(Vec<MultiAsset>),
    /// Pay for execution with `fees` from holding.
    BuyExecution { fees: MultiAsset, weight_limit: WeightLimit },
    /// Dispatch the encoded `call`.
    Transact { origin_type: OriginKind, require_weight_at_most: u64, call: Vec<u8> },
    /// Return unused weight to holding.
    RefundSurplus,
    /// Deposit the assets in holding into `beneficiary`.
    DepositAsset { assets: MultiAssetFilter, max_assets: u32, beneficiary: MultiLocation },
}

/// The amount of the relay token that pays for the message.
pub const HRMP_FEE: u128 = 100_000_000_000;

/// The weight the message may buy, and the weight the call may use.
pub const HRMP_WEIGHT: u64 = 1_000_000_000;

/// The parachain that unused fees are returned to.
pub const HRMP_REFUND_PARACHAIN: u32 = 2004;

/// The encoded relay-chain call that the message dispatches.
pub open spec fn hrmp_call() -> Seq<u8> {
    seq![
        0x18u8, 0x02u8, 0x08u8, 0x3cu8, 0x01u8, 0xd1u8, 0x07u8, 0x00u8, 0x00u8, 0x3cu8, 0x00u8,
        0xd1u8, 0x07u8, 0x00u8, 0x00u8, 0xe8u8, 0x03u8, 0x00u8, 0x00u8, 0x00u8, 0x90u8, 0x01u8,
        0x00u8,
    ]
}

/// The runtime upgrade check that sends the HRMP channel message.
pub struct HrmpTest;

impl HrmpTest {
    /// The message sent before the upgrade, with its destination, the relay
    /// chain `(1, Here)`: withdraw `HRMP_FEE` of the asset `(0, Here)`, buy
    /// execution with it limited to `HRMP_WEIGHT`, dispatch the HRMP call as
    /// a native origin with at most `HRMP_WEIGHT`, refund the surplus, and
    /// deposit all that is left, at most one asset, into parachain
    /// `HRMP_REFUND_PARACHAIN`.
    pub fn pre_upgrade() -> (r: (MultiLocation, Vec<Instruction>))
        ensures
            r.0 == parent(),
            r.1@.len() == 5,
            r.1@[0] matches Instruction::WithdrawAsset(assets) && assets@ == seq![
                concrete_fungible(here(), HRMP_FEE),
            ],
            r.1@[1] == (Instruction::BuyExecution {
                fees: concrete_fungible(here(), HRMP_FEE),
                weight_limit: WeightLimit::Limited(HRMP_WEIGHT),
            }),
            r.1@[2] matches Instruction::Transact { origin_type, require_weight_at_most, call }
                && origin_type == OriginKind::Native && require_weight_at_most == HRMP_WEIGHT
                && call@ == hrmp_call(),
            r.1@[3] == Instruction::RefundSurplus,
            r.1@[4] == (Instruction::DepositAsset {
                assets: MultiAssetFilter::Wild(WildMultiAsset::All),
                max_assets: 1,
                beneficiary: parachain(0, HRMP_REFUND_PARACHAIN),
            }),
    {
        let asset = MultiAsset::concrete_fungible(MultiLocation::here(), HRMP_FEE);
        let call: Vec<u8> = vec![
            0x18, 0x02, 0x08, 0x3c, 0x01, 0xd1, 0x07, 0x00, 0x00, 0x3c, 0x00, 0xd1, 0x07, 0x00,
            0x00, 0xe8, 0x03, 0x00, 0x00, 0x00, 0x90, 0x01, 0x00,
        ];
        let message = vec![
            Instruction::WithdrawAsset(vec![asset]),
            Instruction::BuyExecution { fees: asset, weight_limit: WeightLimit::Limited(HRMP_WEIGHT) },
            Instruction::Transact {
                origin_type: OriginKind::Native,
                require_weight_at_most: HRMP_WEIGHT,
                call,
            },
            Instruction::RefundSurplus,
            Instruction::DepositAsset {
                assets: MultiAssetFilter::Wild(WildMultiAsset::All),
                max_assets: 1,
                beneficiary: MultiLocation::new(
                    0,
                    Junctions::X1(Junction::Parachain(HRMP_REFUND_PARACHAIN)),
                ),
            },
        ];
        (MultiLocation::parent(), message)
    }

    /// The check after the upgrade: there is nothing to check.
    pub fn post_upgrade() -> (r: Result<(), &'static str>)
        ensures
            r is Ok,
    {
        Ok(())
    }
}

} // verus!
