use vstd::prelude::*;

use crate::address::bytes_eq;
use crate::simulation::SimulationResult;
use crate::snapshot::{AccountSnapshot, SnapshotView};

verus! {

/// The field-level change-set between two snapshots: five independent
/// boolean flags. `data_changed` is computed independently of
/// `data_len_changed` (a same-length payload can still differ byte for
/// byte) and is only ever set when both payloads were captured.
#[derive(Debug, PartialEq, Eq, Structural)]
pub struct SnapshotDiff {
    pub lamports_changed: bool,
    pub owner_changed: bool,
    pub executable_changed: bool,
    pub data_len_changed: bool,
    pub data_changed: bool,
}

/// The change-set with each flag spelled out.
pub open spec fn flags(l: bool, o: bool, e: bool, n: bool, c: bool) -> SnapshotDiff {
    SnapshotDiff {
        lamports_changed: l,
        owner_changed: o,
        executable_changed: e,
        data_len_changed: n,
        data_changed: c,
    }
}

/// What the diff of two snapshot values is: each flag is an independent
/// equality test on the corresponding field pair. The payload comparison
/// only fires when both payloads were captured; an absent payload is
/// "unknown", never a change.
pub open spec fn spec_diff(b: SnapshotView, a: SnapshotView) -> SnapshotDiff {
    flags(
        b.lamports != a.lamports,
        b.owner != a.owner,
        b.executable != a.executable,
        b.data_len != a.data_len,
        b.data matches Some(bd) && a.data matches Some(ad) && bd != ad,
    )
}

impl SnapshotDiff {
    /// Compare two snapshots field by field. Pure and total: every pair of
    /// snapshots has a diff.
    pub fn diff(before: &AccountSnapshot, after: &AccountSnapshot) -> (d: SnapshotDiff)
        ensures
            d == spec_diff(before@, after@),
    {
        let data_changed = match (&before.data, &after.data) {
            (Some(bd), Some(ad)) => !bytes_eq(bd, ad),
            _ => false,
        };
        SnapshotDiff {
            lamports_changed: before.lamports != after.lamports,
            owner_changed: !(before.owner == after.owner),
            executable_changed: before.executable != after.executable,
            data_len_changed: before.data_len != after.data_len,
            data_changed,
        }
    }
}

/// Diffing any snapshot value against itself yields no change at all:
/// the diff engine is reflexive, whichever fields are populated.
pub proof fn lemma_diff_reflexive(x: SnapshotView)
    ensures
        spec_diff(x, x) == flags(false, false, false, false, false),
{
}

/// Mutating exactly one compared field between two snapshot values sets
/// exactly the corresponding flag. For the payload length this speaks of
/// snapshots whose payloads did not change (such as payload-less reads);
/// for the payload content, of a same-length byte change. Mutating only a
/// field that the diff does not compare (the address or the staleness
/// epoch) sets no flag at all.
pub proof fn lemma_diff_single_field(b: SnapshotView, a: SnapshotView)
    ensures
        (a.lamports == b.lamports && a.owner == b.owner && a.executable == b.executable
            && a.data_len == b.data_len && a.data == b.data)
            ==> spec_diff(b, a) == flags(false, false, false, false, false),
        (a.lamports != b.lamports && a.owner == b.owner && a.executable == b.executable
            && a.data_len == b.data_len && a.data == b.data)
            ==> spec_diff(b, a) == flags(true, false, false, false, false),
        (a.lamports == b.lamports && a.owner != b.owner && a.executable == b.executable
            && a.data_len == b.data_len && a.data == b.data)
            ==> spec_diff(b, a) == flags(false, true, false, false, false),
        (a.lamports == b.lamports && a.owner == b.owner && a.executable != b.executable
            && a.data_len == b.data_len && a.data == b.data)
            ==> spec_diff(b, a) == flags(false, false, true, false, false),
        (a.lamports == b.lamports && a.owner == b.owner && a.executable == b.executable
            && a.data_len != b.data_len && a.data == b.data)
            ==> spec_diff(b, a) == flags(false, false, false, true, false),
        ({
            &&& a.lamports == b.lamports
            &&& a.owner == b.owner
            &&& a.executable == b.executable
            &&& a.data_len == b.data_len
            &&& b.data matches Some(bd) && a.data matches Some(ad) && bd != ad
        }) ==> spec_diff(b, a) == flags(false, false, false, false, true),
{
}

/// The safety verdict over a change-set.
#[derive(Debug, PartialEq, Eq, Structural)]
pub enum RetrySafety {
    Safe,
    Unsafe,
}

/// A verdict plus its ordered, machine-readable reasons. The reasons are
/// empty exactly when the verdict is `Safe`.
#[derive(Debug)]
pub struct Classification {
    pub safety: RetrySafety,
    pub reasons: Vec<String>,
}

/// The reason strings a change-set produces, in the fixed field precedence
/// balance, owner, executable flag, payload length, payload content —
/// one fixed string per set flag, regardless of which subset is set.
pub open spec fn spec_reasons(d: SnapshotDiff) -> Seq<Seq<char>> {
    (if d.lamports_changed {
        seq!["Lamports changed"@]
    } else {
        Seq::<Seq<char>>::empty()
    }) + (if d.owner_changed {
        seq!["Owner changed"@]
    } else {
        Seq::<Seq<char>>::empty()
    }) + (if d.executable_changed {
        seq!["Executable flag changed"@]
    } else {
        Seq::<Seq<char>>::empty()
    }) + (if d.data_len_changed {
        seq!["Account data size changed"@]
    } else {
        Seq::<Seq<char>>::empty()
    }) + (if d.data_changed {
        seq!["Account data content changed"@]
    } else {
        Seq::<Seq<char>>::empty()
    })
}

/// How many flags of a change-set are set.
pub open spec fn count_flags(d: SnapshotDiff) -> int {
    (if d.lamports_changed { 1int } else { 0 }) + (if d.owner_changed { 1int } else { 0 })
        + (if d.executable_changed { 1int } else { 0 }) + (if d.data_len_changed { 1int } else { 0 })
        + (if d.data_changed { 1int } else { 0 })
}

/// A change-set produces one reason per set flag: the reasons sequence has
/// exactly as many entries as there are set flags.
pub proof fn lemma_reason_count(d: SnapshotDiff)
    ensures
        spec_reasons(d).len() == count_flags(d),
{
}

/// Each reason sits at the index given by how many flags before it in the
/// fixed precedence are set: the reasons always come out in the order
/// balance, owner, executable flag, payload length, payload content,
/// whichever subset of flags is set.
pub proof fn lemma_reason_order(d: SnapshotDiff)
    ensures
        d.lamports_changed ==> spec_reasons(d)[0] == "Lamports changed"@,
        d.owner_changed ==> spec_reasons(d)[(if d.lamports_changed { 1int } else { 0 })]
            == "Owner changed"@,
        d.executable_changed ==> spec_reasons(d)[(if d.lamports_changed { 1int } else { 0 })
            + (if d.owner_changed { 1int } else { 0 })] == "Executable flag changed"@,
        d.data_len_changed ==> spec_reasons(d)[(if d.lamports_changed { 1int } else { 0 })
            + (if d.owner_changed { 1int } else { 0 }) + (if d.executable_changed {
            1int
        } else {
            0
        })] == "Account data size changed"@,
        d.data_changed ==> spec_reasons(d)[count_flags(d) - 1] == "Account data content changed"@,
{
}

/// What a correct classification of a change-set looks like: the exact
/// reason sequence, and a verdict that is `Unsafe` exactly when some
/// reason was produced.
pub open spec fn classification_matches(c: Classification, d: SnapshotDiff) -> bool {
    &&& c.reasons@.len() == spec_reasons(d).len()
    &&& forall|i: int|
        0 <= i < spec_reasons(d).len() ==> #[trigger] c.reasons@[i]@ == spec_reasons(d)[i]
    &&& (c.safety is Unsafe <==> spec_reasons(d).len() > 0)
    &&& (c.safety is Safe <==> spec_reasons(d).len() == 0)
}

/// Turn a change-set into a verdict plus ordered reasons. Any observable
/// mutation means a retry cannot be assumed idempotent, so a single set
/// flag already makes the verdict `Unsafe`.
pub fn classify(diff: &SnapshotDiff) -> (c: Classification)
    ensures
        classification_matches(c, *diff),
{
    let mut reasons: Vec<String> = Vec::new();
    if diff.lamports_changed {
        reasons.push("Lamports changed".to_owned());
    }
    if diff.owner_changed {
        reasons.push("Owner changed".to_owned());
    }
    if diff.executable_changed {
        reasons.push("Executable flag changed".to_owned());
    }
    if diff.data_len_changed {
        reasons.push("Account data size changed".to_owned());
    }
    if diff.data_changed {
        reasons.push("Account data content changed".to_owned());
    }
    let safety = if reasons.len() == 0 {
        RetrySafety::Safe
    } else {
        RetrySafety::Unsafe
    };
    Classification { safety, reasons }
}

/// The final aggregate of one analysis: the two snapshots, their diff,
/// the classification, and any simulation log lines.
pub struct AnalysisResult {
    pub before: AccountSnapshot,
    pub after: AccountSnapshot,
    pub diff: SnapshotDiff,
    pub classification: Classification,
    pub simulation_logs: Vec<String>,
}

/// One full diff-and-classify cycle over an already-obtained pair of
/// snapshots: compute the change-set, classify it, and assemble the
/// result together with the simulation log lines.
pub fn analyse(before: AccountSnapshot, after: AccountSnapshot, simulation_logs: Vec<String>) -> (r:
    AnalysisResult)
    ensures
        r.before == before,
        r.after == after,
        r.simulation_logs == simulation_logs,
        r.diff == spec_diff(before@, after@),
        classification_matches(r.classification, r.diff),
{
    let diff = SnapshotDiff::diff(&before, &after);
    let classification = classify(&diff);
    AnalysisResult { before, after, diff, classification, simulation_logs }
}

/// One full analysis cycle over a simulation outcome. When the simulation
/// carried a post-operation snapshot it is compared against the
/// pre-operation one; when it carried none, the pre-operation snapshot is
/// compared against itself, so the net diff is all-false. The simulation's
/// log lines are carried into the result either way.
pub fn analyse_with_outcome(before: AccountSnapshot, outcome: SimulationResult) -> (r:
    AnalysisResult)
    ensures
        r.before == before,
        outcome.post_snapshot matches Some(a) ==> r.after == a,
        outcome.post_snapshot is None ==> r.after@ == before@,
        outcome.post_snapshot is None ==> r.diff == flags(false, false, false, false, false),
        r.simulation_logs == outcome.logs,
        r.diff == spec_diff(before@, r.after@),
        classification_matches(r.classification, r.diff),
{
    let SimulationResult { error: _, logs, post_snapshot, units_consumed: _ } = outcome;
    let after = match post_snapshot {
        Some(a) => a,
        None => before.clone(),
    };
    analyse(before, after, logs)
}

} // verus!
