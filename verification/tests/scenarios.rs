use bsh_generic::engine::BshGeneric;
use bsh_generic::codec::{encode_response, encode_service_message};
use bsh_generic::types::{BshError, BshEvents, Response, ServiceMessage, ServiceType};
use bsh_generic::{RC_ERR, RC_OK};

const SVC: &str = "nativecoin";
const VALID_TO: &str = "btp://0x1.near/cx67ed9048b594b95199f326fc76e76a9d33dd665b";

fn engine() -> BshGeneric {
    BshGeneric::new("bmc.near", "core.near", SVC)
}

fn response_message(code: u64, message: &str) -> Vec<u8> {
    let response = Response { code, message: message.to_string() };
    let data = encode_response(&response);
    let envelope = ServiceMessage { service_type: ServiceType::ResponseHandleService, data };
    encode_service_message(&envelope)
}

fn count_transfer_ends(bsh: &BshGeneric, want_sn: u64) -> usize {
    let mut n = 0;
    for e in bsh.events.iter() {
        if let BshEvents::TransferEnd { sn, .. } = e {
            if *sn == want_sn {
                n += 1;
            }
        }
    }
    n
}

#[test]
fn initiate_records_entry_and_start_event() {
    let mut bsh = engine();
    let seq = bsh
        .send_service_message(
            "A",
            VALID_TO,
            vec!["btc".to_string(), "eth".to_string()],
            vec![100, 200],
            vec![1, 2],
        )
        .unwrap();
    assert_eq!(seq, 0);
    assert_eq!(bsh.serial_no, 1);
    assert_eq!(bsh.num_of_pending_requests, 1);
    assert_eq!(bsh.requests.len(), 1);

    let entry = bsh.requests.get(&0).unwrap();
    assert_eq!(entry.from, "A");
    assert_eq!(entry.to, VALID_TO);
    assert_eq!(entry.coin_names, vec!["btc".to_string(), "eth".to_string()]);
    assert_eq!(entry.amounts, vec![100, 200]);
    assert_eq!(entry.fees, vec![1, 2]);

    assert_eq!(bsh.events.len(), 1);
    match &bsh.events[0] {
        BshEvents::TransferStart { from, to, sn, asset_details } => {
            assert_eq!(from, "A");
            assert_eq!(to, VALID_TO);
            assert_eq!(*sn, 0);
            assert_eq!(asset_details.len(), 2);
            assert_eq!(asset_details[0].coin_name, "btc");
            assert_eq!(asset_details[0].value, 100);
            assert_eq!(asset_details[0].fee, 1);
            assert_eq!(asset_details[1].coin_name, "eth");
            assert_eq!(asset_details[1].value, 200);
            assert_eq!(asset_details[1].fee, 2);
        },
        other => panic!("expected TransferStart, got {:?}", other),
    }
    assert_eq!(bsh.outbox.len(), 1);
    assert_eq!(bsh.outbox[0].to, VALID_TO);
    assert_eq!(bsh.outbox[0].sn, 0);
}

#[test]
fn success_response_resolves_entry_exactly_once() {
    let mut bsh = engine();
    let seq = bsh
        .send_service_message(
            "A",
            VALID_TO,
            vec!["btc".to_string(), "eth".to_string()],
            vec![100, 200],
            vec![1, 2],
        )
        .unwrap();
    assert_eq!(seq, 0);

    let msg = response_message(0, "");
    assert!(bsh.handle_btp_message("peer", SVC, 0, &msg).is_ok());

    assert!(!bsh.requests.contains_key(&0));
    assert_eq!(bsh.num_of_pending_requests, 0);
    assert_eq!(count_transfer_ends(&bsh, 0), 1);
    match bsh.events.last().unwrap() {
        BshEvents::TransferEnd { from, sn, code, response } => {
            assert_eq!(from, "A");
            assert_eq!(*sn, 0);
            assert_eq!(*code, 0);
            assert_eq!(response, "");
        },
        other => panic!("expected TransferEnd, got {:?}", other),
    }
    // One settlement was recorded per asset of the entry.
    assert_eq!(bsh.asset_core_actions.len(), 2);

    // A second resolution of the same sequence number must fail.
    let again = bsh.handle_btp_message("peer", SVC, 0, &msg);
    assert_eq!(again, Err(BshError::UnknownSequence));
    assert_eq!(count_transfer_ends(&bsh, 0), 1);
}

#[test]
fn response_for_unknown_sequence_is_reported() {
    let mut bsh = engine();
    let msg = response_message(0, "");
    let before = bsh.events.len();
    assert_eq!(bsh.handle_btp_message("peer", SVC, 999, &msg), Err(BshError::UnknownSequence));
    assert_eq!(bsh.events.len(), before);
    assert_eq!(bsh.num_of_pending_requests, 0);
}

#[test]
fn invalid_receiver_neither_allocates_nor_records() {
    let mut bsh = engine();
    let r = bsh.send_service_message(
        "A",
        "not-a-valid-address",
        vec!["btc".to_string()],
        vec![100],
        vec![1],
    );
    assert_eq!(r, Err(BshError::InvalidAddress));
    assert_eq!(bsh.serial_no, 0);
    assert_eq!(bsh.num_of_pending_requests, 0);
    assert!(bsh.requests.is_empty());
    assert!(bsh.events.is_empty());
    assert!(bsh.outbox.is_empty());
}

#[test]
fn wrong_service_name_is_rejected_for_every_kind() {
    let mut bsh = engine();
    let msg = response_message(0, "");
    assert_eq!(bsh.handle_btp_message("peer", "other", 0, &msg), Err(BshError::InvalidService));

    let envelope = ServiceMessage { service_type: ServiceType::UnknownType, data: vec![] };
    let msg = encode_service_message(&envelope);
    assert_eq!(bsh.handle_btp_message("peer", "other", 7, &msg), Err(BshError::InvalidService));

    assert_eq!(bsh.handle_btp_error("src", "other", 0, 1, "m"), Err(BshError::InvalidService));
    assert_eq!(bsh.handle_fee_gathering(VALID_TO, "other"), Err(BshError::InvalidService));
}

#[test]
fn mismatched_input_lengths_are_rejected() {
    let mut bsh = engine();
    let r = bsh.send_service_message(
        "A",
        VALID_TO,
        vec!["btc".to_string(), "eth".to_string()],
        vec![100],
        vec![1, 2],
    );
    assert_eq!(r, Err(BshError::LengthMismatch));
    let r = bsh.send_service_message("A", VALID_TO, vec![], vec![], vec![]);
    assert_eq!(r, Err(BshError::LengthMismatch));
    assert_eq!(bsh.serial_no, 0);
    assert!(bsh.requests.is_empty());
}

#[test]
fn sequence_numbers_increase_across_initiations() {
    let mut bsh = engine();
    let mut seen: Vec<u64> = Vec::new();
    for _ in 0..3 {
        let seq = bsh
            .send_service_message("A", VALID_TO, vec!["btc".to_string()], vec![5], vec![1])
            .unwrap();
        seen.push(seq);
    }
    assert_eq!(seen, vec![0, 1, 2]);
    assert_eq!(bsh.num_of_pending_requests, 3);
    // A failed initiation between successes consumes no number.
    let _ = bsh.send_service_message("A", "bad", vec!["btc".to_string()], vec![5], vec![1]);
    let seq = bsh
        .send_service_message("A", VALID_TO, vec!["btc".to_string()], vec![5], vec![1])
        .unwrap();
    assert_eq!(seq, 3);
}

#[test]
fn carrier_error_resolves_with_given_code() {
    let mut bsh = engine();
    let seq = bsh
        .send_service_message("A", VALID_TO, vec!["btc".to_string()], vec![100], vec![1])
        .unwrap();
    assert!(bsh.handle_btp_error("src", SVC, seq, 1, "test-msg").is_ok());
    assert!(!bsh.requests.contains_key(&seq));
    match bsh.events.last().unwrap() {
        BshEvents::TransferEnd { sn, code, response, .. } => {
            assert_eq!(*sn, seq);
            assert_eq!(*code, 1);
            assert_eq!(response, "test-msg");
        },
        other => panic!("expected TransferEnd, got {:?}", other),
    }
    // A second report for the same number is rejected.
    assert_eq!(bsh.handle_btp_error("src", SVC, seq, 1, "again"), Err(BshError::UnknownSequence));
}

#[test]
fn unknown_kind_is_recorded_without_reply() {
    let mut bsh = engine();
    let envelope = ServiceMessage { service_type: ServiceType::UnknownType, data: vec![1, 2] };
    let msg = encode_service_message(&envelope);
    assert!(bsh.handle_btp_message("peer", SVC, 42, &msg).is_ok());
    match bsh.events.last().unwrap() {
        BshEvents::UnknownResponse { from, sn } => {
            assert_eq!(from, "peer");
            assert_eq!(*sn, 42);
        },
        other => panic!("expected UnknownResponse, got {:?}", other),
    }
    assert_eq!(bsh.events.len(), 1);
    // A message already tagged unknown gets no echo back.
    assert!(bsh.outbox.is_empty());
    assert_eq!(bsh.num_of_pending_requests, 0);
    assert_eq!(bsh.serial_no, 0);
}

#[test]
fn fee_gathering_validates_and_records() {
    let mut bsh = engine();
    assert_eq!(bsh.handle_fee_gathering("junk-address", SVC), Err(BshError::InvalidAddress));
    assert!(bsh.asset_core_actions.is_empty());
    assert!(bsh.handle_fee_gathering(VALID_TO, SVC).is_ok());
    assert_eq!(bsh.asset_core_actions.len(), 1);
    assert_eq!(bsh.has_pending_requests().unwrap(), false);
}

#[test]
fn exhausted_counter_is_fatal_and_leaves_state_unchanged() {
    let mut bsh = engine();
    bsh.serial_no = u64::MAX;
    let r = bsh.send_service_message("A", VALID_TO, vec!["btc".to_string()], vec![1], vec![1]);
    assert_eq!(r, Err(BshError::Overflow));
    assert_eq!(bsh.serial_no, u64::MAX);
    assert!(bsh.requests.is_empty());
    assert!(bsh.events.is_empty());
}

#[test]
fn rc_codes_are_stable() {
    assert_eq!(RC_OK, 0);
    assert_eq!(RC_ERR, 1);
}
