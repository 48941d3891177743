use vstd::prelude::*;

use crate::address::{bytes_eq, clone_bytes, system_owner, Address};

verus! {

/// The observable state of one account at one instant.
///
/// `data` is the raw payload when the read captured it; a read that omits
/// the payload leaves `None`, which the diff engine treats as "unknown"
/// rather than "empty" so that it never flags a content change it could
/// not observe. `data_len` is tracked on its own so that a payload-less
/// read still carries the account's size.
pub struct AccountSnapshot {
    pub pubkey: Address,
    pub lamports: u64,
    pub owner: Address,
    pub executable: bool,
    pub data: Option<Vec<u8>>,
    pub data_len: usize,
    pub rent_epoch: u64,
}

/// The mathematical value of a snapshot: every field as a plain value.
pub ghost struct SnapshotView {
    pub pubkey: Seq<u8>,
    pub lamports: u64,
    pub owner: Seq<u8>,
    pub executable: bool,
    pub data: Option<Seq<u8>>,
    pub data_len: nat,
    pub rent_epoch: u64,
}

impl View for AccountSnapshot {
    type V = SnapshotView;

    open spec fn view(&self) -> SnapshotView {
        SnapshotView {
            pubkey: self.pubkey@,
            lamports: self.lamports,
            owner: self.owner@,
            executable: self.executable,
            data: match self.data {
                Some(d) => Some(d@),
                None => None,
            },
            data_len: self.data_len as nat,
            rent_epoch: self.rent_epoch,
        }
    }
}

impl AccountSnapshot {
    /// Whenever the payload was captured, the recorded length agrees with it.
    pub open spec fn wf(&self) -> bool {
        self@.data matches Some(d) ==> self@.data_len == d.len()
    }

    /// Build a snapshot from the fields of a direct ledger read, which
    /// always carries the full payload.
    pub fn from_account(
        pubkey: Address,
        lamports: u64,
        owner: Address,
        executable: bool,
        data: Vec<u8>,
        rent_epoch: u64,
    ) -> (s: AccountSnapshot)
        ensures
            s@ == (SnapshotView {
                pubkey: pubkey@,
                lamports,
                owner: owner@,
                executable,
                data: Some(data@),
                data_len: data@.len(),
                rent_epoch,
            }),
            s.wf(),
    {
        let data_len: usize = data.len();
        AccountSnapshot { pubkey, lamports, owner, executable, data: Some(data), data_len, rent_epoch }
    }

    /// The canonical default snapshot for an address that does not exist
    /// yet: zero balance, the sentinel system owner, not executable, an
    /// empty payload, epoch zero.
    pub fn default_for(pubkey: Address) -> (s: AccountSnapshot)
        ensures
            s@.pubkey == pubkey@,
            s@.lamports == 0,
            s@.owner == system_owner(),
            s@.executable == false,
            s@.data == Some(Seq::<u8>::empty()),
            s@.data_len == 0,
            s@.rent_epoch == 0,
            s.wf(),
    {
        AccountSnapshot {
            pubkey,
            lamports: 0,
            owner: Address::system(),
            executable: false,
            data: Some(Vec::new()),
            data_len: 0,
            rent_epoch: 0,
        }
    }
}

impl PartialEq for AccountSnapshot {
    /// Snapshot equality is structural, field by field: two snapshots with
    /// identical field values are interchangeable regardless of provenance.
    fn eq(&self, other: &AccountSnapshot) -> (r: bool) {
        let data_eq = match (&self.data, &other.data) {
            (Some(a), Some(b)) => bytes_eq(a, b),
            (None, None) => true,
            _ => false,
        };
        data_eq && self.pubkey == other.pubkey && self.lamports == other.lamports
            && self.owner == other.owner && self.executable == other.executable
            && self.data_len == other.data_len && self.rent_epoch == other.rent_epoch
    }
}

impl vstd::std_specs::cmp::PartialEqSpecImpl for AccountSnapshot {
    open spec fn obeys_eq_spec() -> bool {
        true
    }

    open spec fn eq_spec(&self, other: &AccountSnapshot) -> bool {
        self@ == other@
    }
}

impl Clone for AccountSnapshot {
    fn clone(&self) -> (r: Self)
        ensures
            r@ == self@,
    {
        AccountSnapshot {
            pubkey: self.pubkey.clone(),
            lamports: self.lamports,
            owner: self.owner.clone(),
            executable: self.executable,
            data: match &self.data {
                Some(d) => Some(clone_bytes(d)),
                None => None,
            },
            data_len: self.data_len,
            rent_epoch: self.rent_epoch,
        }
    }
}

} // verus!
