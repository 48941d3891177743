use vstd::prelude::*;

use crate::address::{parsed_address, Address};
use crate::codec::{base64_decode, base64_decoded};
use crate::error::AuditError;
use crate::snapshot::{AccountSnapshot, SnapshotView};

verus! {

/// One account entry of a simulation response, field by field, before any
/// interpretation: every field as the document carried it, optional where
/// the document may omit it. The payload is still in its encoded (base64)
/// textual form.
pub struct RawAccountEntry {
    pub lamports: Option<u64>,
    pub owner: Option<String>,
    pub executable: Option<bool>,
    pub rent_epoch: Option<u64>,
    pub data_base64: Option<String>,
}

/// A simulation response as a plain value: the semi-structured document
/// already split into its optional fields, with no interpretation applied
/// yet. Decoding it into a `SimulationResult` happens in exactly one typed
/// step, after which no further dynamic lookups occur.
pub struct SimulationResponse {
    pub err: Option<String>,
    pub logs: Option<Vec<String>>,
    pub accounts: Option<Vec<Option<RawAccountEntry>>>,
    pub units_consumed: Option<u64>,
}

/// The interpreted outcome of a transaction simulation: optional error
/// description, ordered log lines, the post-operation snapshot for the
/// single watched address when the response carried one, and the
/// resource-usage count when reported.
pub struct SimulationResult {
    pub error: Option<String>,
    pub logs: Vec<String>,
    pub post_snapshot: Option<AccountSnapshot>,
    pub units_consumed: Option<u64>,
}

/// The single account entry a response carries for the watched address,
/// if any: `None` when the accounts array is absent, empty, or its first
/// entry is null.
pub open spec fn first_entry(r: SimulationResponse) -> Option<RawAccountEntry> {
    match r.accounts {
        None => None,
        Some(arr) => if arr@.len() == 0 {
            None
        } else {
            arr@[0]
        },
    }
}

/// Whether an entry carries a usable owner: the field is present and its
/// text decodes to an address.
pub open spec fn entry_owner_ok(e: RawAccountEntry) -> bool {
    e.owner matches Some(o) && parsed_address(o@) is Some
}

/// The raw payload an encoded data field stands for: an absent or empty
/// field, and text that does not decode, all mean an empty payload — a
/// decode failure is non-fatal here because the document's error field is
/// the authoritative failure signal.
pub open spec fn decoded_payload(d: Option<String>) -> Seq<u8> {
    match d {
        None => Seq::<u8>::empty(),
        Some(s) => if s@.len() == 0 {
            Seq::<u8>::empty()
        } else {
            match base64_decoded(s@) {
                Some(b) => b,
                None => Seq::<u8>::empty(),
            }
        },
    }
}

/// The snapshot value a well-formed entry stands for, at a given address:
/// balance and owner as carried, the executable flag defaulting to false,
/// the staleness epoch defaulting to zero, and the payload decoded.
pub open spec fn snapshot_of_entry(e: RawAccountEntry, addr: Seq<u8>) -> SnapshotView
    recommends
        e.lamports is Some,
        entry_owner_ok(e),
{
    SnapshotView {
        pubkey: addr,
        lamports: e.lamports->0,
        owner: parsed_address(e.owner->0@)->0,
        executable: match e.executable {
            Some(x) => x,
            None => false,
        },
        data: Some(decoded_payload(e.data_base64)),
        data_len: decoded_payload(e.data_base64).len(),
        rent_epoch: match e.rent_epoch {
            Some(x) => x,
            None => 0,
        },
    }
}

/// Decode an entry's encoded payload field to raw bytes.
fn decode_payload(d: &Option<String>) -> (r: Vec<u8>)
    ensures
        r@ == decoded_payload(*d),
{
    match d {
        None => Vec::new(),
        Some(s) => {
            if s.as_str().is_empty() {
                Vec::new()
            } else {
                match base64_decode(s.as_str()) {
                    Some(b) => b,
                    None => Vec::new(),
                }
            }
        },
    }
}

/// Extract the simulated post-operation snapshot for the watched address
/// from a simulation response.
///
/// An absent accounts array, or an absent or null entry, is not a failure:
/// the response simply carries no post-snapshot, and the caller falls back
/// to the pre-operation snapshot. On a present entry, balance and owner
/// are mandatory — a missing or undecodable one is a malformed response,
/// reported with the offending field name.
pub fn parse_simulated_account(response: &SimulationResponse, address: &Address) -> (r: Result<
    Option<AccountSnapshot>,
    AuditError,
>)
    ensures
        first_entry(*response) is None ==> (r matches Ok(p) && p is None),
        first_entry(*response) matches Some(e) ==> {
            &&& e.lamports is None ==> (r matches Err(er) && er matches AuditError::MalformedResponse(f)
                && f@ == "lamports"@)
            &&& e.lamports is Some && !entry_owner_ok(e) ==> (r matches Err(er)
                && er matches AuditError::MalformedResponse(f) && f@ == "owner"@)
            &&& e.lamports is Some && entry_owner_ok(e) ==> (r matches Ok(p) && p matches Some(s)
                && s@ == snapshot_of_entry(e, address@) && s.wf())
        },
{
    let entry = match &response.accounts {
        None => {
            return Ok(None);
        },
        Some(arr) => {
            if arr.len() == 0 {
                return Ok(None);
            }
            match &arr[0] {
                None => {
                    return Ok(None);
                },
                Some(e) => e,
            }
        },
    };
    let lamports = match entry.lamports {
        Some(l) => l,
        None => {
            return Err(AuditError::MalformedResponse("lamports".to_owned()));
        },
    };
    let owner = match &entry.owner {
        Some(o) => match Address::parse(o.as_str()) {
            Ok(a) => a,
            Err(_) => {
                return Err(AuditError::MalformedResponse("owner".to_owned()));
            },
        },
        None => {
            return Err(AuditError::MalformedResponse("owner".to_owned()));
        },
    };
    let executable = match entry.executable {
        Some(x) => x,
        None => false,
    };
    let rent_epoch = match entry.rent_epoch {
        Some(x) => x,
        None => 0,
    };
    let data = decode_payload(&entry.data_base64);
    let data_len: usize = data.len();
    Ok(
        Some(
            AccountSnapshot {
                pubkey: address.clone(),
                lamports,
                owner,
                executable,
                data: Some(data),
                data_len,
                rent_epoch,
            },
        ),
    )
}

/// Interpret a whole simulation response for one watched address: error
/// indicator and resource count carried through as-is, absent logs an
/// empty sequence, and the post-snapshot extracted as
/// `parse_simulated_account` does.
pub fn parse_simulation_response(response: SimulationResponse, address: &Address) -> (r: Result<
    SimulationResult,
    AuditError,
>)
    ensures
        r matches Ok(sim) ==> {
            &&& sim.error == response.err
            &&& response.logs matches Some(l) ==> sim.logs == l
            &&& response.logs is None ==> sim.logs@.len() == 0
            &&& sim.units_consumed == response.units_consumed
        },
        first_entry(response) is None ==> (r matches Ok(sim) && sim.post_snapshot is None),
        first_entry(response) matches Some(e) ==> {
            &&& e.lamports is None ==> (r matches Err(er) && er matches AuditError::MalformedResponse(f)
                && f@ == "lamports"@)
            &&& e.lamports is Some && !entry_owner_ok(e) ==> (r matches Err(er)
                && er matches AuditError::MalformedResponse(f) && f@ == "owner"@)
            &&& e.lamports is Some && entry_owner_ok(e) ==> (r matches Ok(sim)
                && sim.post_snapshot matches Some(s) && s@ == snapshot_of_entry(e, address@))
        },
{
    let post_snapshot = match parse_simulated_account(&response, address) {
        Ok(p) => p,
        Err(e) => {
            return Err(e);
        },
    };
    let SimulationResponse { err, logs, accounts: _, units_consumed } = response;
    let logs = match logs {
        Some(l) => l,
        None => Vec::new(),
    };
    Ok(SimulationResult { error: err, logs, post_snapshot, units_consumed })
}

/// Check that a proposed operation's encoding is valid base64 before it is
/// handed to any transport: a string that does not decode is rejected as
/// invalid input, before any network call.
pub fn validate_transaction_base64(tx: &str) -> (r: Result<(), AuditError>)
    ensures
        r is Ok <==> base64_decoded(tx@) is Some,
        r matches Err(e) ==> e is InvalidInput,
{
    match base64_decode(tx) {
        Some(_) => Ok(()),
        None => Err(AuditError::InvalidInput("malformed base64-encoded transaction".to_owned())),
    }
}

} // verus!
