//! The dispatch engine: sequence allocation, the pending-request
//! ledger, inbound message demultiplexing, and exactly-once terminal
//! resolution.
//!
//! The engine owns all its state.  Work that only collaborators can
//! perform — delivering an envelope, minting or settling assets — is
//! recorded in `outbox` and `asset_core_actions` for the host to
//! carry out; everything the engine decides is proved here.

use std::collections::HashMap;
use vstd::prelude::*;
use crate::address::{spec_valid_btp_address, validate_btp_address};
use crate::codec::{
    dec_envelope, dec_response, dec_transfer_coin, decode_response, decode_service_message,
    decode_transfer_coin, enc_envelope, enc_response, enc_transfer_coin, encode_response,
    encode_service_message, encode_transfer_coin,
};
use crate::types::{
    Asset, AssetCoreAction, AssetCoreActionV, AssetTransferDetail, AssetTransferDetailV, AssetV,
    BshError, BshEvents, BshEventsV, OutboundMessage, PendingTransferCoin, Response, ResponseV,
    ServiceMessage, ServiceType, TransferCoin, TransferCoinV,
};
use crate::{RC_ERR, RC_OK};

verus! {

broadcast use vstd::std_specs::hash::group_hash_axioms;

/// The service-message engine.  One instance is constructed at
/// process start and owns the ledger, the counter, and the
/// append-only records of everything it asked its collaborators to
/// do.
pub struct BshGeneric {
    pub bmc_contract: String,
    pub bsh_contract: String,
    /// The pending-request ledger: sequence number to in-flight
    /// transfer.
    pub requests: HashMap<u64, PendingTransferCoin>,
    pub service_name: String,
    /// Next sequence number to allocate; strictly increasing.
    pub serial_no: u64,
    /// Always equals the number of ledger entries.
    pub num_of_pending_requests: u64,
    /// Append-only stream of lifecycle events.
    pub events: Vec<BshEvents>,
    /// Append-only stream of envelopes for the bridge carrier.
    pub outbox: Vec<OutboundMessage>,
    /// Append-only stream of asset-core capability invocations.
    pub asset_core_actions: Vec<AssetCoreAction>,
}

impl BshGeneric {
    /// Did this event record the terminal resolution of a sequence
    /// number that is still (or again) pending?  Well-formed engines
    /// never hold such an event.
    pub open spec fn event_consistent(self, e: BshEventsV) -> bool {
        match e {
            BshEventsV::TransferEnd { sn, .. } => {
                &&& !self.requests@.contains_key(sn)
                &&& sn < self.serial_no
            },
            _ => true,
        }
    }

    /// The engine's invariant: the pending count mirrors the ledger,
    /// every ledger key was allocated and is below the counter, every
    /// entry is well-formed, and no resolved sequence number is still
    /// pending.
    pub open spec fn wf(self) -> bool {
        &&& self.num_of_pending_requests == self.requests@.len()
        &&& self.num_of_pending_requests <= self.serial_no
        &&& forall|sn: u64| #[trigger]
            self.requests@.contains_key(sn) ==> sn < self.serial_no
        &&& forall|sn: u64|
            self.requests@.contains_key(sn) ==> (#[trigger] self.requests@[sn])@.wf()
        &&& forall|i: int|
            0 <= i < self.events@.len() ==> self.event_consistent((#[trigger] self.events@[i])@)
    }

    /// The configuration strings are untouched.
    pub open spec fn same_config(pre: BshGeneric, post: BshGeneric) -> bool {
        &&& post.bmc_contract@ == pre.bmc_contract@
        &&& post.bsh_contract@ == pre.bsh_contract@
        &&& post.service_name@ == pre.service_name@
    }

    /// Ledger and counter are untouched.
    pub open spec fn same_ledger(pre: BshGeneric, post: BshGeneric) -> bool {
        &&& post.requests@ == pre.requests@
        &&& post.num_of_pending_requests == pre.num_of_pending_requests
        &&& post.serial_no == pre.serial_no
    }

    /// The event stream grew by exactly `e`.
    pub open spec fn events_appended(pre: BshGeneric, post: BshGeneric, e: BshEventsV) -> bool {
        &&& post.events@.len() == pre.events@.len() + 1
        &&& forall|i: int| 0 <= i < pre.events@.len() ==> post.events@[i] == pre.events@[i]
        &&& post.events@.last()@ == e
    }

    /// The outbox grew by exactly one envelope: a response of kind
    /// `st` carrying `code` and `msg`, addressed to `to` under `sn`.
    pub open spec fn outbox_appended_response(
        pre: BshGeneric,
        post: BshGeneric,
        to: Seq<char>,
        sn: u64,
        st: ServiceType,
        code: u64,
        msg: Seq<char>,
    ) -> bool {
        &&& post.outbox@.len() == pre.outbox@.len() + 1
        &&& forall|i: int| 0 <= i < pre.outbox@.len() ==> post.outbox@[i] == pre.outbox@[i]
        &&& post.outbox@.last().to@ == to
        &&& post.outbox@.last().sn == sn
        &&& post.outbox@.last().payload@ == enc_envelope(
            st,
            enc_response(ResponseV { code, message: msg }),
        )
    }

    /// One successful outbound initiation between two observations:
    /// `s` is the number it allocated.
    pub open spec fn allocates(pre: BshGeneric, post: BshGeneric, s: u64) -> bool {
        &&& s == pre.serial_no
        &&& post.serial_no == pre.serial_no + 1
    }

    /// A successful `send_service_message`: the entry is recorded
    /// under the allocated number, the `TransferStart` event is
    /// emitted, and the encoded request envelope is queued.
    pub open spec fn initiated(
        pre: BshGeneric,
        post: BshGeneric,
        from: Seq<char>,
        to: Seq<char>,
        names: Seq<Seq<char>>,
        amounts: Seq<u64>,
        fees: Seq<u64>,
    ) -> bool {
        let sn = pre.serial_no;
        &&& Self::allocates(pre, post, sn)
        &&& !pre.requests@.contains_key(sn)
        &&& post.requests@.contains_key(sn)
        &&& post.requests@ == pre.requests@.insert(sn, post.requests@[sn])
        &&& ({
            let entry = post.requests@[sn]@;
            &&& entry.from == from
            &&& entry.to == to
            &&& entry.coin_names == names
            &&& entry.amounts == amounts
            &&& entry.fees == fees
        })
        &&& post.num_of_pending_requests == pre.num_of_pending_requests + 1
        &&& Self::same_config(pre, post)
        &&& Self::events_appended(
            pre,
            post,
            BshEventsV::TransferStart {
                from,
                to,
                sn,
                asset_details: Seq::new(
                    names.len(),
                    |i: int| AssetTransferDetailV {
                        coin_name: names[i],
                        value: amounts[i],
                        fee: fees[i],
                    },
                ),
            },
        )
        &&& post.asset_core_actions@ == pre.asset_core_actions@
        &&& post.outbox@.len() == pre.outbox@.len() + 1
        &&& forall|i: int| 0 <= i < pre.outbox@.len() ==> post.outbox@[i] == pre.outbox@[i]
        &&& post.outbox@.last().to@ == to
        &&& post.outbox@.last().sn == sn
        &&& post.outbox@.last().payload@ == enc_envelope(
            ServiceType::RequestCoinRegister,
            enc_transfer_coin(
                TransferCoinV {
                    from,
                    to,
                    assets: Seq::new(
                        names.len(),
                        |i: int| AssetV { coin_name: names[i], value: amounts[i] },
                    ),
                },
            ),
        )
    }

    /// A terminal resolution of `sn`: the entry leaves the ledger,
    /// one settlement is recorded per asset, and the `TransferEnd`
    /// event is emitted — all exactly once.
    pub open spec fn resolves(
        pre: BshGeneric,
        post: BshGeneric,
        sn: u64,
        code: u64,
        message: Seq<char>,
    ) -> bool {
        let req = pre.requests@[sn]@;
        &&& pre.requests@.contains_key(sn)
        &&& post.requests@ == pre.requests@.remove(sn)
        &&& post.num_of_pending_requests == pre.num_of_pending_requests - 1
        &&& post.serial_no == pre.serial_no
        &&& Self::same_config(pre, post)
        &&& Self::events_appended(
            pre,
            post,
            BshEventsV::TransferEnd { from: req.from, sn, code, response: message },
        )
        &&& post.outbox@ == pre.outbox@
        &&& post.asset_core_actions@.len() == pre.asset_core_actions@.len()
            + req.coin_names.len()
        &&& forall|j: int|
            0 <= j < pre.asset_core_actions@.len() ==> post.asset_core_actions@[j]
                == pre.asset_core_actions@[j]
        &&& forall|j: int|
            0 <= j < req.coin_names.len() ==> (#[trigger] post.asset_core_actions@[
                pre.asset_core_actions@.len() + j
            ])@ == (AssetCoreActionV::SettleOutcome {
                account: req.from,
                coin_name: req.coin_names[j],
                amount: req.amounts[j],
                fee: req.fees[j],
                code,
            })
    }

    /// Exactly one response envelope was queued and nothing else
    /// changed.
    pub open spec fn replied(
        pre: BshGeneric,
        post: BshGeneric,
        to: Seq<char>,
        sn: u64,
        st: ServiceType,
        code: u64,
        msg: Seq<char>,
    ) -> bool {
        &&& Self::same_config(pre, post)
        &&& Self::same_ledger(pre, post)
        &&& post.events@ == pre.events@
        &&& post.asset_core_actions@ == pre.asset_core_actions@
        &&& Self::outbox_appended_response(pre, post, to, sn, st, code, msg)
    }

    /// Build the engine.
    pub fn new(bmc: &str, bsh_contract: &str, service_name: &str) -> (r: BshGeneric)
        ensures
            r.wf(),
            r.bmc_contract@ == bmc@,
            r.bsh_contract@ == bsh_contract@,
            r.service_name@ == service_name@,
            r.requests@ == Map::<u64, PendingTransferCoin>::empty(),
            r.serial_no == 0,
            r.num_of_pending_requests == 0,
            r.events@ == Seq::<BshEvents>::empty(),
            r.outbox@ == Seq::<OutboundMessage>::empty(),
            r.asset_core_actions@ == Seq::<AssetCoreAction>::empty(),
    {
        let r = BshGeneric {
            bmc_contract: bmc.to_owned(),
            bsh_contract: bsh_contract.to_owned(),
            requests: HashMap::new(),
            service_name: service_name.to_owned(),
            serial_no: 0,
            num_of_pending_requests: 0,
            events: Vec::new(),
            outbox: Vec::new(),
            asset_core_actions: Vec::new(),
        };
        proof {
            assert(r.requests@.dom() =~= Set::<u64>::empty());
        }
        r
    }

    /// Check whether the engine has any pending transfer requests.
    pub fn has_pending_requests(&self) -> (r: Result<bool, BshError>)
        ensures
            r == Ok::<bool, BshError>(self.num_of_pending_requests != 0),
    {
        Ok(self.num_of_pending_requests != 0)
    }

    /// Queue a `ResponseHandleService` (or `UnknownType`) reply for
    /// the bridge carrier.
    pub fn send_response_message(
        &mut self,
        service_type: ServiceType,
        to: &str,
        sn: u64,
        msg: &str,
        code: u64,
    )
        requires
            old(self).wf(),
        ensures
            final(self).wf(),
            Self::replied(*old(self), *final(self), to@, sn, service_type, code, msg@),
    {
        let response = Response { code, message: msg.to_owned() };
        let data = encode_response(&response);
        let envelope = ServiceMessage { service_type, data };
        let payload = encode_service_message(&envelope);
        self.outbox.push(OutboundMessage { to: to.to_owned(), sn, payload });
    }

    /// Handle an inbound request to mint or credit `assets` toward
    /// `to`: record the asset-core invocation that performs it.  The
    /// caller has already validated the destination address.
    pub fn handle_request_service(&mut self, to: &str, assets: Vec<Asset>) -> (r: Result<
        (),
        BshError,
    >)
        requires
            old(self).wf(),
        ensures
            final(self).wf(),
            r is Ok,
            Self::same_config(*old(self), *final(self)),
            Self::same_ledger(*old(self), *final(self)),
            final(self).events@ == old(self).events@,
            final(self).outbox@ == old(self).outbox@,
            final(self).asset_core_actions@.len() == old(self).asset_core_actions@.len() + 1,
            forall|i: int|
                0 <= i < old(self).asset_core_actions@.len()
                    ==> final(self).asset_core_actions@[i] == old(self).asset_core_actions@[i],
            final(self).asset_core_actions@.last()@ == (AssetCoreActionV::ApplyIncoming {
                to: to@,
                assets: Seq::new(assets@.len(), |i: int| assets@[i]@),
            }),
    {
        self.asset_core_actions.push(AssetCoreAction::ApplyIncoming { to: to.to_owned(), assets });
        Ok(())
    }

    /// Queue the reply to an inbound transfer request once the asset
    /// core has reported its verdict on the recorded apply-incoming
    /// invocation: a success reply when it accepted, a failure reply
    /// carrying its diagnostic when it rejected.  `to` and `sn` are
    /// the sender and sequence number of the inbound request.
    pub fn handle_request_outcome(&mut self, accepted: bool, to: &str, sn: u64, reason: &str)
        requires
            old(self).wf(),
        ensures
            final(self).wf(),
            accepted ==> Self::replied(
                *old(self),
                *final(self),
                to@,
                sn,
                ServiceType::ResponseHandleService,
                RC_OK,
                ""@,
            ),
            !accepted ==> Self::replied(
                *old(self),
                *final(self),
                to@,
                sn,
                ServiceType::ResponseHandleService,
                RC_ERR,
                reason@,
            ),
    {
        if accepted {
            self.send_response_message(ServiceType::ResponseHandleService, to, sn, "", RC_OK);
        } else {
            self.send_response_message(ServiceType::ResponseHandleService, to, sn, reason, RC_ERR);
        }
    }

    /// Handle a fee-gathering request: after validating the
    /// aggregator address, record the asset-core invocation that
    /// forwards the accumulated fees.
    pub fn handle_fee_gathering(&mut self, fa: &str, svc: &str) -> (r: Result<(), BshError>)
        requires
            old(self).wf(),
        ensures
            final(self).wf(),
            svc@ != old(self).service_name@ ==> r == Err::<(), BshError>(BshError::InvalidService)
                && *final(self) == *old(self),
            svc@ == old(self).service_name@ && !spec_valid_btp_address(fa@)
                ==> r == Err::<(), BshError>(BshError::InvalidAddress) && *final(self) == *old(self),
            svc@ == old(self).service_name@ && spec_valid_btp_address(fa@) ==> {
                &&& r is Ok
                &&& Self::same_config(*old(self), *final(self))
                &&& Self::same_ledger(*old(self), *final(self))
                &&& final(self).events@ == old(self).events@
                &&& final(self).outbox@ == old(self).outbox@
                &&& final(self).asset_core_actions@.len()
                    == old(self).asset_core_actions@.len() + 1
                &&& forall|i: int|
                    0 <= i < old(self).asset_core_actions@.len()
                        ==> final(self).asset_core_actions@[i] == old(self).asset_core_actions@[i]
                &&& final(self).asset_core_actions@.last()@
                    == (AssetCoreActionV::TransferAccumulatedFees { to: fa@ })
            },
    {
        let svc_name = svc.to_owned();
        if !(self.service_name == svc_name) {
            return Err(BshError::InvalidService);
        }
        if !validate_btp_address(fa) {
            return Err(BshError::InvalidAddress);
        }
        self.asset_core_actions.push(AssetCoreAction::TransferAccumulatedFees {
            to: fa.to_owned(),
        });
        Ok(())
    }

    /// What one inbound `RequestCoinRegister` does, as a relation
    /// between the observation before and after.
    pub open spec fn request_outcome(
        pre: BshGeneric,
        post: BshGeneric,
        from: Seq<char>,
        sn: u64,
        data: Seq<u8>,
        r: Result<(), BshError>,
    ) -> bool {
        match dec_transfer_coin(data) {
            None => r == Err::<(), BshError>(BshError::MalformedMessage) && post == pre,
            Some(tc) => if !spec_valid_btp_address(tc.to) {
                &&& r == Err::<(), BshError>(BshError::InvalidAddress)
                &&& Self::replied(
                    pre,
                    post,
                    from,
                    sn,
                    ServiceType::ResponseHandleService,
                    RC_ERR,
                    "InvalidAddress"@,
                )
            } else {
                // The apply-incoming invocation is recorded for the
                // asset core; the reply waits for its verdict, which
                // the host hands back through
                // `handle_request_outcome`.
                &&& r is Ok
                &&& Self::same_config(pre, post)
                &&& Self::same_ledger(pre, post)
                &&& post.events@ == pre.events@
                &&& post.outbox@ == pre.outbox@
                &&& post.asset_core_actions@.len() == pre.asset_core_actions@.len() + 1
                &&& forall|i: int|
                    0 <= i < pre.asset_core_actions@.len()
                        ==> post.asset_core_actions@[i] == pre.asset_core_actions@[i]
                &&& post.asset_core_actions@.last()@ == (AssetCoreActionV::ApplyIncoming {
                    to: tc.to,
                    assets: tc.assets,
                })
            },
        }
    }

    /// What one inbound `ResponseHandleService` does.
    pub open spec fn response_outcome(
        pre: BshGeneric,
        post: BshGeneric,
        sn: u64,
        data: Seq<u8>,
        r: Result<(), BshError>,
    ) -> bool {
        if !pre.requests@.contains_key(sn) {
            r == Err::<(), BshError>(BshError::UnknownSequence) && post == pre
        } else {
            match dec_response(data) {
                None => r == Err::<(), BshError>(BshError::MalformedMessage) && post == pre,
                Some(resp) => r is Ok && Self::resolves(pre, post, sn, resp.code, resp.message),
            }
        }
    }

    /// What one inbound message that is already tagged as unknown
    /// does: the observation is recorded and nothing is sent back —
    /// replying "unknown" to "unknown" would only echo.
    pub open spec fn unknown_outcome(
        pre: BshGeneric,
        post: BshGeneric,
        from: Seq<char>,
        sn: u64,
        r: Result<(), BshError>,
    ) -> bool {
        &&& r is Ok
        &&& Self::same_config(pre, post)
        &&& Self::same_ledger(pre, post)
        &&& Self::events_appended(pre, post, BshEventsV::UnknownResponse { from, sn })
        &&& post.asset_core_actions@ == pre.asset_core_actions@
        &&& post.outbox@ == pre.outbox@
    }

    /// What one inbound service message does, whatever its bytes.
    pub open spec fn inbound_outcome(
        pre: BshGeneric,
        post: BshGeneric,
        from: Seq<char>,
        sn: u64,
        msg: Seq<u8>,
        r: Result<(), BshError>,
    ) -> bool {
        match dec_envelope(msg) {
            None => r == Err::<(), BshError>(BshError::MalformedMessage) && post == pre,
            Some((st, data)) => match st {
                ServiceType::RequestCoinRegister => Self::request_outcome(
                    pre,
                    post,
                    from,
                    sn,
                    data,
                    r,
                ),
                ServiceType::ResponseHandleService => Self::response_outcome(
                    pre,
                    post,
                    sn,
                    data,
                    r,
                ),
                ServiceType::UnknownType => Self::unknown_outcome(pre, post, from, sn, r),
            },
        }
    }

    /// Initiate an outbound transfer: validate, allocate a sequence
    /// number, record the pending entry, emit `TransferStart`, and
    /// queue the encoded request envelope.  On any failure nothing
    /// changes — in particular no sequence number is consumed.
    #[verifier::loop_isolation(false)]
    pub fn send_service_message(
        &mut self,
        from: &str,
        to: &str,
        coin_names: Vec<String>,
        values: Vec<u64>,
        fees: Vec<u64>,
    ) -> (r: Result<u64, BshError>)
        requires
            old(self).wf(),
        ensures
            final(self).wf(),
            ({
                let ok_len = coin_names@.len() == values@.len() && coin_names@.len()
                    == fees@.len() && coin_names@.len() > 0;
                let ok_addr = spec_valid_btp_address(to@);
                &&& (r == Err::<u64, BshError>(BshError::LengthMismatch) <==> !ok_len)
                &&& (r == Err::<u64, BshError>(BshError::InvalidAddress) <==> ok_len && !ok_addr)
                &&& (r == Err::<u64, BshError>(BshError::Overflow) <==> ok_len && ok_addr && old(
                    self,
                ).serial_no == u64::MAX)
                &&& (r is Err ==> *final(self) == *old(self))
                &&& (r is Ok <==> ok_len && ok_addr && old(self).serial_no < u64::MAX)
                &&& (r matches Ok(s) ==> s == old(self).serial_no && Self::initiated(
                    *old(self),
                    *final(self),
                    from@,
                    to@,
                    Seq::new(coin_names@.len(), |i: int| coin_names@[i]@),
                    values@,
                    fees@,
                ))
            }),
    {
        if !(coin_names.len() == values.len() && coin_names.len() == fees.len()
            && coin_names.len() > 0) {
            return Err(BshError::LengthMismatch);
        }
        if !validate_btp_address(to) {
            return Err(BshError::InvalidAddress);
        }
        if self.serial_no == u64::MAX {
            return Err(BshError::Overflow);
        }
        let sn = self.serial_no;
        if self.requests.contains_key(&sn) {
            // The counter never reuses a number, so under the
            // invariant this cannot happen; a hit would mean the
            // ledger and the allocator fell out of step.
            return Err(BshError::DuplicateKey);
        }
        let mut assets: Vec<Asset> = Vec::new();
        let mut asset_details: Vec<AssetTransferDetail> = Vec::new();
        let mut i: usize = 0;
        while i < coin_names.len()
            invariant
                i <= coin_names@.len(),
                assets@.len() == i,
                asset_details@.len() == i,
                forall|j: int|
                    0 <= j < i ==> (#[trigger] assets@[j])@ == (AssetV {
                        coin_name: coin_names@[j]@,
                        value: values@[j],
                    }),
                forall|j: int|
                    0 <= j < i ==> (#[trigger] asset_details@[j])@ == (AssetTransferDetailV {
                        coin_name: coin_names@[j]@,
                        value: values@[j],
                        fee: fees@[j],
                    }),
            decreases coin_names@.len() - i,
        {
            assets.push(Asset { coin_name: coin_names[i].clone(), value: values[i] });
            asset_details.push(
                AssetTransferDetail {
                    coin_name: coin_names[i].clone(),
                    value: values[i],
                    fee: fees[i],
                },
            );
            i = i + 1;
        }
        let tc = TransferCoin { from: from.to_owned(), to: to.to_owned(), assets };
        let data = encode_transfer_coin(&tc);
        let envelope = ServiceMessage { service_type: ServiceType::RequestCoinRegister, data };
        let payload = encode_service_message(&envelope);
        self.outbox.push(OutboundMessage { to: to.to_owned(), sn, payload });
        let pending = PendingTransferCoin {
            from: from.to_owned(),
            to: to.to_owned(),
            coin_names,
            amounts: values,
            fees,
        };
        let _previous = self.requests.insert(sn, pending);
        self.num_of_pending_requests = self.num_of_pending_requests + 1;
        self.events.push(
            BshEvents::TransferStart {
                from: from.to_owned(),
                to: to.to_owned(),
                sn,
                asset_details,
            },
        );
        self.serial_no = self.serial_no + 1;
        proof {
            let pre = *old(self);
            let post = *self;
            let names = Seq::new(coin_names@.len(), |i: int| coin_names@[i]@);
            assert(post.requests@ =~= pre.requests@.insert(sn, post.requests@[sn]));
            assert(post.requests@[sn]@.coin_names =~= names);
            let expected_details = Seq::new(
                names.len(),
                |i: int| AssetTransferDetailV {
                    coin_name: names[i],
                    value: values@[i],
                    fee: fees@[i],
                },
            );
            let actual_details = Seq::new(asset_details@.len(), |i: int| asset_details@[i]@);
            assert(actual_details =~= expected_details);
            assert(post.events@.last()@ == (BshEventsV::TransferStart {
                from: from@,
                to: to@,
                sn,
                asset_details: expected_details,
            }));
            let expected_assets = Seq::new(
                names.len(),
                |i: int| AssetV { coin_name: names[i], value: values@[i] },
            );
            assert(tc@.assets =~= expected_assets);
            assert(tc@ == (TransferCoinV { from: from@, to: to@, assets: expected_assets }));
        }
        Ok(sn)
    }

    /// Resolve the pending entry under `sn` to its terminal outcome:
    /// remove it, record one settlement per asset, then emit
    /// `TransferEnd`.  A second call with the same `sn` fails with
    /// `UnknownSequence`, which is the only way an absent entry is
    /// ever reported.
    #[verifier::loop_isolation(false)]
    pub fn handle_response_service(&mut self, sn: u64, code: u64, msg: &str) -> (r: Result<
        (),
        BshError,
    >)
        requires
            old(self).wf(),
        ensures
            final(self).wf(),
            r is Ok <==> old(self).requests@.contains_key(sn),
            r is Ok ==> Self::resolves(*old(self), *final(self), sn, code, msg@),
            !(r is Ok) ==> r == Err::<(), BshError>(BshError::UnknownSequence) && *final(self)
                == *old(self),
    {
        if !self.requests.contains_key(&sn) {
            return Err(BshError::UnknownSequence);
        }
        let req = match self.requests.remove(&sn) {
            None => { return Err(BshError::UnknownSequence); },
            Some(req) => req,
        };
        proof {
            old(self).requests@.lemma_remove_key_len(sn);
        }
        self.num_of_pending_requests = self.num_of_pending_requests - 1;
        let ghost mid = *self;
        let mut i: usize = 0;
        while i < req.coin_names.len()
            invariant
                i <= req.coin_names@.len(),
                self.requests@ == mid.requests@,
                self.num_of_pending_requests == mid.num_of_pending_requests,
                self.serial_no == mid.serial_no,
                self.events@ == mid.events@,
                self.outbox@ == mid.outbox@,
                self.bmc_contract@ == mid.bmc_contract@,
                self.bsh_contract@ == mid.bsh_contract@,
                self.service_name@ == mid.service_name@,
                self.asset_core_actions@.len() == mid.asset_core_actions@.len() + i,
                forall|j: int|
                    0 <= j < mid.asset_core_actions@.len()
                        ==> self.asset_core_actions@[j] == mid.asset_core_actions@[j],
                forall|j: int|
                    0 <= j < i ==> (#[trigger] self.asset_core_actions@[
                        mid.asset_core_actions@.len() + j
                    ])@ == (AssetCoreActionV::SettleOutcome {
                        account: req@.from,
                        coin_name: req@.coin_names[j],
                        amount: req@.amounts[j],
                        fee: req@.fees[j],
                        code,
                    }),
            decreases req.coin_names@.len() - i,
        {
            self.asset_core_actions.push(
                AssetCoreAction::SettleOutcome {
                    account: req.from.clone(),
                    coin_name: req.coin_names[i].clone(),
                    amount: req.amounts[i],
                    fee: req.fees[i],
                    code,
                },
            );
            i = i + 1;
        }
        self.events.push(
            BshEvents::TransferEnd { from: req.from, sn, code, response: msg.to_owned() },
        );
        Ok(())
    }

    /// Handle a protocol-level error that the bridge carrier reports
    /// for an outbound sequence number: the entry is resolved with
    /// the carrier's code and message.
    pub fn handle_btp_error(&mut self, _src: &str, svc: &str, sn: u64, code: u64, msg: &str) -> (r:
        Result<(), BshError>)
        requires
            old(self).wf(),
        ensures
            final(self).wf(),
            svc@ != old(self).service_name@ ==> r == Err::<(), BshError>(BshError::InvalidService)
                && *final(self) == *old(self),
            svc@ == old(self).service_name@ && !old(self).requests@.contains_key(sn) ==> r
                == Err::<(), BshError>(BshError::UnknownSequence) && *final(self) == *old(self),
            svc@ == old(self).service_name@ && old(self).requests@.contains_key(sn) ==> r is Ok
                && Self::resolves(*old(self), *final(self), sn, code, msg@),
    {
        let svc_name = svc.to_owned();
        if !(self.service_name == svc_name) {
            return Err(BshError::InvalidService);
        }
        self.handle_response_service(sn, code, msg)
    }

    /// Handle one inbound service message: check the service name,
    /// decode the envelope, and dispatch by kind.  Exactly one
    /// response is ever queued per inbound request, and a response
    /// that correlates with no pending entry is reported, never
    /// dropped.
    pub fn handle_btp_message(&mut self, from: &str, svc: &str, sn: u64, msg: &[u8]) -> (r: Result<
        (),
        BshError,
    >)
        requires
            old(self).wf(),
        ensures
            final(self).wf(),
            svc@ != old(self).service_name@ ==> r == Err::<(), BshError>(BshError::InvalidService)
                && *final(self) == *old(self),
            svc@ == old(self).service_name@ ==> Self::inbound_outcome(
                *old(self),
                *final(self),
                from@,
                sn,
                msg@,
                r,
            ),
    {
        let svc_name = svc.to_owned();
        if !(self.service_name == svc_name) {
            return Err(BshError::InvalidService);
        }
        let sm = match decode_service_message(msg) {
            None => { return Err(BshError::MalformedMessage); },
            Some(sm) => sm,
        };
        match sm.service_type {
            ServiceType::RequestCoinRegister => {
                let tc = match decode_transfer_coin(sm.data.as_slice()) {
                    None => { return Err(BshError::MalformedMessage); },
                    Some(tc) => tc,
                };
                let ghost tcv = tc@;
                if !validate_btp_address(tc.to.as_str()) {
                    self.send_response_message(
                        ServiceType::ResponseHandleService,
                        from,
                        sn,
                        "InvalidAddress",
                        RC_ERR,
                    );
                    return Err(BshError::InvalidAddress);
                }
                let to = tc.to.clone();
                self.handle_request_service(to.as_str(), tc.assets)
            },
            ServiceType::ResponseHandleService => {
                if !self.requests.contains_key(&sn) {
                    return Err(BshError::UnknownSequence);
                }
                let response = match decode_response(sm.data.as_slice()) {
                    None => { return Err(BshError::MalformedMessage); },
                    Some(response) => response,
                };
                self.handle_response_service(sn, response.code, response.message.as_str())
            },
            ServiceType::UnknownType => {
                self.events.push(BshEvents::UnknownResponse { from: from.to_owned(), sn });
                Ok(())
            },
        }
    }
}

/// The engine with empty configuration strings and no state; what a
/// host constructs before wiring the real names in.
impl Default for BshGeneric {
    fn default() -> (r: BshGeneric)
        ensures
            r.wf(),
            r.bmc_contract@ == Seq::<char>::empty(),
            r.bsh_contract@ == Seq::<char>::empty(),
            r.service_name@ == Seq::<char>::empty(),
            r.requests@ == Map::<u64, PendingTransferCoin>::empty(),
            r.serial_no == 0,
            r.num_of_pending_requests == 0,
            r.events@ == Seq::<BshEvents>::empty(),
            r.outbox@ == Seq::<OutboundMessage>::empty(),
            r.asset_core_actions@ == Seq::<AssetCoreAction>::empty(),
    {
        proof {
            reveal_strlit("");
            assert(""@ =~= Seq::<char>::empty());
        }
        BshGeneric::new("", "", "")
    }
}

} // verus!
