//! Data model: assets, pending-transfer records, service-message
//! envelopes, lifecycle events, and the engine's error taxonomy.

use vstd::prelude::*;

verus! {

/// One unit of transferable value inside a request.
#[derive(Clone, Debug)]
pub struct Asset {
    pub coin_name: String,
    pub value: u64,
}

/// Mathematical image of an [`Asset`].
pub struct AssetV {
    pub coin_name: Seq<char>,
    pub value: u64,
}

impl View for Asset {
    type V = AssetV;

    open spec fn view(&self) -> AssetV {
        AssetV { coin_name: self.coin_name@, value: self.value }
    }
}

/// An asset together with the fee charged against it; carried only in
/// outbound audit events.
#[derive(Clone, Debug)]
pub struct AssetTransferDetail {
    pub coin_name: String,
    pub value: u64,
    pub fee: u64,
}

/// Mathematical image of an [`AssetTransferDetail`].
pub struct AssetTransferDetailV {
    pub coin_name: Seq<char>,
    pub value: u64,
    pub fee: u64,
}

impl View for AssetTransferDetail {
    type V = AssetTransferDetailV;

    open spec fn view(&self) -> AssetTransferDetailV {
        AssetTransferDetailV { coin_name: self.coin_name@, value: self.value, fee: self.fee }
    }
}

/// The ledger's value type: the durable record of one outbound
/// request awaiting resolution.  The three sequences are
/// index-aligned and nonempty for any valid record.
#[derive(Clone, Debug)]
pub struct PendingTransferCoin {
    pub from: String,
    pub to: String,
    pub coin_names: Vec<String>,
    pub amounts: Vec<u64>,
    pub fees: Vec<u64>,
}

/// Mathematical image of a [`PendingTransferCoin`].
pub struct PendingTransferCoinV {
    pub from: Seq<char>,
    pub to: Seq<char>,
    pub coin_names: Seq<Seq<char>>,
    pub amounts: Seq<u64>,
    pub fees: Seq<u64>,
}

impl View for PendingTransferCoin {
    type V = PendingTransferCoinV;

    open spec fn view(&self) -> PendingTransferCoinV {
        PendingTransferCoinV {
            from: self.from@,
            to: self.to@,
            coin_names: Seq::new(self.coin_names@.len(), |i: int| self.coin_names@[i]@),
            amounts: self.amounts@,
            fees: self.fees@,
        }
    }
}

impl PendingTransferCoinV {
    /// The three per-asset sequences are index-aligned and nonempty.
    pub open spec fn wf(self) -> bool {
        &&& self.coin_names.len() == self.amounts.len()
        &&& self.coin_names.len() == self.fees.len()
        &&& self.coin_names.len() > 0
    }
}

/// Kinds of service messages exchanged across the bridge.
#[derive(Clone, Copy, Debug, PartialEq, Eq, Structural)]
pub enum ServiceType {
    /// An inbound/outbound request to transfer (mint or credit) coins.
    RequestCoinRegister,
    /// The terminal resolution of a previously sent request.
    ResponseHandleService,
    /// Any message the peer could not classify.
    UnknownType,
}

/// The typed envelope exchanged between this engine and its
/// counterpart across the bridge.
#[derive(Clone, Debug)]
pub struct ServiceMessage {
    pub service_type: ServiceType,
    pub data: Vec<u8>,
}

/// Payload of a `RequestCoinRegister` message.
#[derive(Clone, Debug)]
pub struct TransferCoin {
    pub from: String,
    pub to: String,
    pub assets: Vec<Asset>,
}

/// Mathematical image of a [`TransferCoin`].
pub struct TransferCoinV {
    pub from: Seq<char>,
    pub to: Seq<char>,
    pub assets: Seq<AssetV>,
}

impl View for TransferCoin {
    type V = TransferCoinV;

    open spec fn view(&self) -> TransferCoinV {
        TransferCoinV {
            from: self.from@,
            to: self.to@,
            assets: Seq::new(self.assets@.len(), |i: int| self.assets@[i]@),
        }
    }
}

/// Decoded payload of a `ResponseHandleService` message.
/// `code` 0 means success, anything else an application error.
#[derive(Clone, Debug)]
pub struct Response {
    pub code: u64,
    pub message: String,
}

/// Mathematical image of a [`Response`].
pub struct ResponseV {
    pub code: u64,
    pub message: Seq<char>,
}

impl View for Response {
    type V = ResponseV;

    open spec fn view(&self) -> ResponseV {
        ResponseV { code: self.code, message: self.message@ }
    }
}

/// Append-only lifecycle notifications for external observers.
#[derive(Clone, Debug)]
pub enum BshEvents {
    TransferStart {
        from: String,
        to: String,
        sn: u64,
        asset_details: Vec<AssetTransferDetail>,
    },
    TransferEnd {
        from: String,
        sn: u64,
        code: u64,
        response: String,
    },
    UnknownResponse {
        from: String,
        sn: u64,
    },
}

/// Mathematical image of a [`BshEvents`] entry.
pub enum BshEventsV {
    TransferStart {
        from: Seq<char>,
        to: Seq<char>,
        sn: u64,
        asset_details: Seq<AssetTransferDetailV>,
    },
    TransferEnd {
        from: Seq<char>,
        sn: u64,
        code: u64,
        response: Seq<char>,
    },
    UnknownResponse {
        from: Seq<char>,
        sn: u64,
    },
}

impl View for BshEvents {
    type V = BshEventsV;

    open spec fn view(&self) -> BshEventsV {
        match self {
            BshEvents::TransferStart { from, to, sn, asset_details } => BshEventsV::TransferStart {
                from: from@,
                to: to@,
                sn: *sn,
                asset_details: Seq::new(asset_details@.len(), |i: int| asset_details@[i]@),
            },
            BshEvents::TransferEnd { from, sn, code, response } => BshEventsV::TransferEnd {
                from: from@,
                sn: *sn,
                code: *code,
                response: response@,
            },
            BshEvents::UnknownResponse { from, sn } => BshEventsV::UnknownResponse {
                from: from@,
                sn: *sn,
            },
        }
    }
}

impl BshEventsV {
    /// Does this entry report the terminal resolution of `sn`?
    pub open spec fn is_transfer_end_of(self, sn: u64) -> bool {
        match self {
            BshEventsV::TransferEnd { sn: s, .. } => s == sn,
            _ => false,
        }
    }
}

/// An invocation of the asset-core capability surface, recorded by
/// the engine and performed by the host.
#[derive(Clone, Debug)]
pub enum AssetCoreAction {
    /// Apply an inbound mint/credit request for the given assets.
    ApplyIncoming {
        to: String,
        assets: Vec<Asset>,
    },
    /// Settle one asset of a resolved outbound request: release on
    /// success, refund on failure, depending on `code`.
    SettleOutcome {
        account: String,
        coin_name: String,
        amount: u64,
        fee: u64,
        code: u64,
    },
    /// Forward the accumulated fees to the fee aggregator.
    TransferAccumulatedFees {
        to: String,
    },
}

/// Mathematical image of an [`AssetCoreAction`].
pub enum AssetCoreActionV {
    ApplyIncoming {
        to: Seq<char>,
        assets: Seq<AssetV>,
    },
    SettleOutcome {
        account: Seq<char>,
        coin_name: Seq<char>,
        amount: u64,
        fee: u64,
        code: u64,
    },
    TransferAccumulatedFees {
        to: Seq<char>,
    },
}

impl View for AssetCoreAction {
    type V = AssetCoreActionV;

    open spec fn view(&self) -> AssetCoreActionV {
        match self {
            AssetCoreAction::ApplyIncoming { to, assets } => AssetCoreActionV::ApplyIncoming {
                to: to@,
                assets: Seq::new(assets@.len(), |i: int| assets@[i]@),
            },
            AssetCoreAction::SettleOutcome { account, coin_name, amount, fee, code } => {
                AssetCoreActionV::SettleOutcome {
                    account: account@,
                    coin_name: coin_name@,
                    amount: *amount,
                    fee: *fee,
                    code: *code,
                }
            },
            AssetCoreAction::TransferAccumulatedFees { to } => {
                AssetCoreActionV::TransferAccumulatedFees { to: to@ }
            },
        }
    }
}

/// An encoded envelope handed to the bridge carrier for delivery.
#[derive(Clone, Debug)]
pub struct OutboundMessage {
    /// Destination address across the bridge.
    pub to: String,
    /// Sequence number the envelope refers to.
    pub sn: u64,
    /// The encoded [`ServiceMessage`].
    pub payload: Vec<u8>,
}

/// Everything that can go wrong inside the engine, reported to the
/// caller instead of aborting.
#[derive(Clone, Copy, Debug, PartialEq, Eq, Structural)]
pub enum BshError {
    /// A cross-chain address failed validation.
    InvalidAddress,
    /// An inbound message declared a service name other than the
    /// engine's own.
    InvalidService,
    /// An envelope or payload could not be decoded.
    MalformedMessage,
    /// A response referenced a sequence number with no live entry.
    UnknownSequence,
    /// A fresh sequence number was already present in the ledger.
    DuplicateKey,
    /// The per-asset inputs of a transfer request are not
    /// index-aligned, or are empty.
    LengthMismatch,
    /// The sequence counter is exhausted.
    Overflow,
}

} // verus!
