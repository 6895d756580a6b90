//! What the asset adapters ask of the outside world, what they are told back,
//! and how a transaction ends.
//!
//! The adapters are state machines: each step hands back either the next
//! `Request` for the caller to carry out, with the state to resume from, or
//! the final result.  The caller answers each request with a `Reply`.
use vstd::prelude::*;
use crate::types::{MultiAsset, MultiLocation};

verus! {

/// Which of the two asset transactors handles an asset.
#[derive(Clone, Copy, Debug, PartialEq, Eq, Structural)]
pub enum Transactor {
    /// The transactor of the native token.
    Native,
    /// The transactor of all other fungible assets.
    Fungibles,
}

/// Why a transfer was refused.
#[derive(Clone, Copy, Debug, PartialEq, Eq, Structural)]
pub enum Reason {
    /// The bridge path does not start with the bridge key.
    DismatchPath,
    /// The destination chain id does not fit a bridge chain id.
    ChainIdConversionFailed,
    /// The bridge has no fee for the transfer.
    FailedGetFee,
    /// The amount does not exceed the bridge fee.
    Insufficient,
    /// The fee could not be paid into the treasury.
    FeeTransferFailed,
    /// The reserve location of the asset is unknown.
    FailedGetreserve,
    /// The asset could not be deposited into the reserve account.
    ReserveTransferFailed,
}

/// The text by which a reason is reported.
pub open spec fn reason_text(reason: Reason) -> &'static str {
    match reason {
        Reason::DismatchPath => "DismatchPath",
        Reason::ChainIdConversionFailed => "ChainIdConversionFailed",
        Reason::FailedGetFee => "FailedGetFee",
        Reason::Insufficient => "Insufficient",
        Reason::FeeTransferFailed => "FeeTransferFailed",
        Reason::FailedGetreserve => "FailedGetreserve",
        Reason::ReserveTransferFailed => "ReserveTransferFailed",
    }
}

impl Reason {
    /// Returns the text by which this reason is reported.
    pub fn as_str(&self) -> (r: &'static str)
        ensures
            r == reason_text(*self),
    {
        match self {
            Reason::DismatchPath => "DismatchPath",
            Reason::ChainIdConversionFailed => "ChainIdConversionFailed",
            Reason::FailedGetFee => "FailedGetFee",
            Reason::Insufficient => "Insufficient",
            Reason::FeeTransferFailed => "FeeTransferFailed",
            Reason::FailedGetreserve => "FailedGetreserve",
            Reason::ReserveTransferFailed => "ReserveTransferFailed",
        }
    }
}

/// How a transaction failed.
#[derive(Clone, Copy, Debug, PartialEq, Eq, Structural)]
pub enum XcmError {
    /// The asset or the destination is of a kind that is not handled.
    Unimplemented,
    /// The transfer was refused for the given reason.
    FailedToTransactAsset(Reason),
    /// The request just answered failed, and its own error is the result.
    CallFailed,
    /// The request just answered failed, and its error, reported as a failed
    /// asset transaction, is the result.
    CallFailedWrapped,
}

/// A general key: `length` bytes of `data` are meaningful.
#[derive(Clone, Copy, Debug)]
pub struct KeyData {
    pub length: u8,
    pub data: [u8; 32],
}

/// The bytes of a general key: the first `length` bytes of its data (all of
/// them if `length` exceeds the data).
pub open spec fn key_bytes(key: KeyData) -> Seq<u8> {
    key.data@.take(if key.length <= 32 { key.length as int } else { 32 })
}

impl KeyData {
    /// Returns the bytes of the key.
    pub fn to_vec(&self) -> (r: Vec<u8>)
        ensures
            r@ == key_bytes(*self),
    {
        let n: usize = if self.length <= 32 { self.length as usize } else { 32 };
        let mut v: Vec<u8> = Vec::new();
        let mut i: usize = 0;
        while i < n
            invariant
                n <= 32,
                i <= n,
                self.data@.len() == 32,
                n == (if self.length <= 32 { self.length as int } else { 32 }),
                v@ =~= self.data@.take(i as int),
            decreases n - i,
        {
            v.push(self.data[i]);
            i = i + 1;
        }
        v
    }
}

/// Something an adapter needs done or answered before it can go on.
#[derive(Clone, Copy, Debug)]
pub enum Request {
    /// The bridge fee for sending `what` to bridge chain `dest_id`.
    GetFee { dest_id: u8, what: MultiAsset },
    /// The reserve location of the asset at `location`.
    ReserveLocation { location: MultiLocation },
    /// The 32-byte account that stands for `location`.
    IntoAccount { location: MultiLocation },
    /// The bridge resource id of the asset at `asset` on bridge chain `dest_id`.
    IntoRid { asset: MultiLocation, dest_id: u8 },
    /// Ask transactor `via` whether `what` may be checked in from `origin`.
    CanCheckIn { via: Transactor, origin: MultiLocation, what: MultiAsset },
    /// Have transactor `via` check `what` in from `origin`.
    CheckIn { via: Transactor, origin: MultiLocation, what: MultiAsset },
    /// Have transactor `via` check `what` out to `dest`.
    CheckOut { via: Transactor, dest: MultiLocation, what: MultiAsset },
    /// Have transactor `via` deposit `what` into `who`.
    Deposit { via: Transactor, what: MultiAsset, who: MultiLocation },
    /// Have transactor `via` withdraw `what` from `who`.
    Withdraw { via: Transactor, what: MultiAsset, who: MultiLocation },
    /// Have the bridge send `amount` of resource `rid` to `recipient` on
    /// bridge chain `dest_id`.
    BridgeTransfer { dest_id: u8, rid: [u8; 32], recipient: KeyData, amount: u128 },
    /// Tell the deposit handler that `what` was deposited into `who`.
    OnDeposited { what: MultiAsset, who: MultiLocation },
    /// Tell the withdraw handler that `what` was withdrawn from `who`.
    OnWithdrawn { what: MultiAsset, who: MultiLocation },
}

/// The answer to a request.
#[derive(Clone, Debug)]
pub enum Reply {
    /// The answer to `GetFee`.
    Fee(Option<u128>),
    /// The answer to `ReserveLocation`.
    Reserve(Option<MultiLocation>),
    /// The answer to `IntoAccount`.
    Account([u8; 32]),
    /// The answer to `IntoRid`.
    Rid([u8; 32]),
    /// The answer to a `Withdraw` that went through: the assets withdrawn.
    Withdrawn(Vec<MultiAsset>),
    /// The transactor, the bridge or the handler did what was asked.
    Success,
    /// The transactor, the bridge or the handler failed.
    Failure,
}

/// Whether `reply` is an answer of the kind that `request` asks for.
pub open spec fn answers(request: Request, reply: Reply) -> bool {
    match request {
        Request::GetFee { .. } => reply is Fee,
        Request::ReserveLocation { .. } => reply is Reserve,
        Request::IntoAccount { .. } => reply is Account,
        Request::IntoRid { .. } => reply is Rid,
        Request::Withdraw { .. } => reply is Withdrawn || reply is Failure,
        _ => reply is Success || reply is Failure,
    }
}

/// One step of an adapter: a request to carry out, with the state to resume
/// from once it is answered, or the end of the transaction with its result.
#[derive(Debug)]
pub enum Step<S, T> {
    Call(S, Request),
    Finished(Result<T, XcmError>),
}

} // verus!
