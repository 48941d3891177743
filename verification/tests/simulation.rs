use solaudit::address::Address;
use solaudit::analysis::{analyse_with_outcome, RetrySafety};
use solaudit::error::AuditError;
use solaudit::simulation::{
    parse_simulated_account, parse_simulation_response, validate_transaction_base64,
    RawAccountEntry, SimulationResponse, SimulationResult,
};
use solaudit::snapshot::AccountSnapshot;

// The textual form of the all-zero (system) address.
const SYSTEM_ADDRESS: &str = "11111111111111111111111111111111";

fn watched() -> Address {
    Address::from_bytes(vec![7u8; 32]).unwrap()
}

fn empty_response() -> SimulationResponse {
    SimulationResponse { err: None, logs: None, accounts: None, units_consumed: None }
}

fn full_entry() -> RawAccountEntry {
    RawAccountEntry {
        lamports: Some(5_000),
        owner: Some(SYSTEM_ADDRESS.to_string()),
        executable: None,
        rent_epoch: None,
        data_base64: Some("AQID".to_string()),
    }
}

#[test]
fn parse_without_accounts_array_yields_no_post_snapshot() {
    let r = parse_simulated_account(&empty_response(), &watched()).unwrap();
    assert!(r.is_none());
}

#[test]
fn parse_null_entry_yields_no_post_snapshot() {
    let mut resp = empty_response();
    resp.accounts = Some(vec![None]);
    let r = parse_simulated_account(&resp, &watched()).unwrap();
    assert!(r.is_none());
}

#[test]
fn parse_missing_lamports_is_malformed() {
    let mut entry = full_entry();
    entry.lamports = None;
    let mut resp = empty_response();
    resp.accounts = Some(vec![Some(entry)]);
    let r = parse_simulated_account(&resp, &watched());
    match r {
        Err(AuditError::MalformedResponse(field)) => assert_eq!(field, "lamports"),
        _ => panic!("expected a malformed-response failure"),
    }
}

#[test]
fn parse_missing_owner_is_malformed() {
    let mut entry = full_entry();
    entry.owner = None;
    let mut resp = empty_response();
    resp.accounts = Some(vec![Some(entry)]);
    let r = parse_simulated_account(&resp, &watched());
    match r {
        Err(AuditError::MalformedResponse(field)) => assert_eq!(field, "owner"),
        _ => panic!("expected a malformed-response failure"),
    }
}

#[test]
fn parse_undecodable_owner_is_malformed() {
    let mut entry = full_entry();
    entry.owner = Some("not an address at all ~~~".to_string());
    let mut resp = empty_response();
    resp.accounts = Some(vec![Some(entry)]);
    let r = parse_simulated_account(&resp, &watched());
    match r {
        Err(AuditError::MalformedResponse(field)) => assert_eq!(field, "owner"),
        _ => panic!("expected a malformed-response failure"),
    }
}

#[test]
fn parse_full_entry_builds_the_snapshot() {
    let mut resp = empty_response();
    resp.accounts = Some(vec![Some(full_entry())]);
    let s = parse_simulated_account(&resp, &watched()).unwrap().unwrap();
    assert!(s.pubkey == watched());
    assert_eq!(s.lamports, 5_000);
    assert!(s.owner == Address::from_bytes(vec![0u8; 32]).unwrap());
    assert!(!s.executable);
    assert_eq!(s.rent_epoch, 0);
    // "AQID" is the standard base64 encoding of the bytes 1, 2, 3.
    assert_eq!(s.data, Some(vec![1u8, 2, 3]));
    assert_eq!(s.data_len, 3);
}

#[test]
fn parse_empty_encoded_payload_is_an_empty_payload() {
    let mut entry = full_entry();
    entry.data_base64 = Some(String::new());
    let mut resp = empty_response();
    resp.accounts = Some(vec![Some(entry)]);
    let s = parse_simulated_account(&resp, &watched()).unwrap().unwrap();
    assert_eq!(s.data, Some(Vec::new()));
    assert_eq!(s.data_len, 0);
}

#[test]
fn parse_undecodable_payload_is_an_empty_payload() {
    let mut entry = full_entry();
    entry.data_base64 = Some("!!!not-base64!!!".to_string());
    let mut resp = empty_response();
    resp.accounts = Some(vec![Some(entry)]);
    let s = parse_simulated_account(&resp, &watched()).unwrap().unwrap();
    assert_eq!(s.data, Some(Vec::new()));
    assert_eq!(s.data_len, 0);
}

#[test]
fn parse_response_carries_error_logs_and_units() {
    let mut resp = empty_response();
    resp.err = Some("custom program error".to_string());
    resp.logs = Some(vec!["log a".to_string(), "log b".to_string()]);
    resp.units_consumed = Some(1234);
    let sim = parse_simulation_response(resp, &watched()).unwrap();
    assert_eq!(sim.error, Some("custom program error".to_string()));
    assert_eq!(sim.logs, vec!["log a".to_string(), "log b".to_string()]);
    assert_eq!(sim.units_consumed, Some(1234));
    assert!(sim.post_snapshot.is_none());
}

#[test]
fn parse_response_without_logs_yields_empty_logs() {
    let sim = parse_simulation_response(empty_response(), &watched()).unwrap();
    assert!(sim.logs.is_empty());
    assert!(sim.error.is_none());
    assert!(sim.units_consumed.is_none());
}

#[test]
fn validate_accepts_base64_text() {
    assert!(validate_transaction_base64("AQIDBA==").is_ok());
}

#[test]
fn validate_rejects_non_base64_text() {
    match validate_transaction_base64("%%% not base64 %%%") {
        Err(AuditError::InvalidInput(_)) => {},
        _ => panic!("expected an invalid-input failure"),
    }
}

#[test]
fn missing_post_snapshot_falls_back_to_pre_state() {
    let before = AccountSnapshot {
        pubkey: watched(),
        lamports: 42,
        owner: Address::from_bytes(vec![0u8; 32]).unwrap(),
        executable: false,
        data: Some(vec![9, 9]),
        data_len: 2,
        rent_epoch: 1,
    };
    let outcome = SimulationResult {
        error: None,
        logs: vec!["only log".to_string()],
        post_snapshot: None,
        units_consumed: None,
    };
    let r = analyse_with_outcome(before, outcome);
    assert!(matches!(r.classification.safety, RetrySafety::Safe));
    assert!(r.classification.reasons.is_empty());
    assert!(!r.diff.lamports_changed);
    assert!(!r.diff.data_changed);
    assert_eq!(r.after.lamports, 42);
    assert_eq!(r.simulation_logs, vec!["only log".to_string()]);
}
