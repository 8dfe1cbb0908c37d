//! The per-request reconciliation loop: for each planned record, in order,
//! delete the existing record and — unless the request asked to clear —
//! create it anew; the first failed provider call aborts the rest.

use vstd::prelude::*;
use crate::provider::PorkbunAPI;
use crate::records::{rec_views, RecordSpec, RecordType};

verus! {

/// One kind of provider operation the loop performs.
#[derive(Clone, Copy, PartialEq, Eq, Structural, Debug)]
pub enum OpKind {
    Delete,
    Create,
}

/// One provider call the loop made: which planned record it belonged to,
/// which operation it was, and whether the provider accepted it.
#[derive(Clone, Copy, PartialEq, Eq, Structural, Debug)]
pub struct OpLogEntry {
    pub record_index: usize,
    pub op: OpKind,
    pub ok: bool,
}

/// The terminal state of a request.
#[derive(Clone, Copy, PartialEq, Eq, Structural, Debug)]
pub enum Status {
    Success,
    Unauthorized,
    ProviderError,
}

/// The sole externally observable output of a request.
pub struct ReconciliationResult {
    pub status: Status,
    pub domain: String,
    pub clear: bool,
    pub records: Vec<RecordSpec>,
}

/// How many provider calls a full run over `n` records takes: one delete
/// per record when clearing, a delete and a create per record otherwise.
pub open spec fn trace_len(n: nat, clear: bool) -> nat {
    if clear {
        n
    } else {
        2 * n
    }
}

/// The operation the loop performs as its `i`-th provider call.
pub open spec fn op_at(i: int, clear: bool) -> OpKind {
    if clear || i % 2 == 0 {
        OpKind::Delete
    } else {
        OpKind::Create
    }
}

/// The planned record the loop's `i`-th provider call belongs to.
pub open spec fn rec_at(i: int, clear: bool) -> int {
    if clear {
        i
    } else {
        i / 2
    }
}

/// Everything the reconciliation loop promises of its result and of its
/// operation log, whatever the provider answered:
/// - the log is a prefix of the fixed operation schedule — per record, in the
///   record set's order, a delete followed (unless clearing) by a create;
/// - every logged call but the last succeeded;
/// - the run succeeds exactly when the whole schedule ran and its last call
///   (if any) succeeded, and then the result carries the full record set;
/// - otherwise the last logged call failed and the result carries the records
///   attempted so far, the failed one included.
pub open spec fn reconcile_post(
    records: Seq<(RecordType, Seq<char>)>,
    clear: bool,
    domain: Seq<char>,
    res: ReconciliationResult,
    log: Seq<OpLogEntry>,
) -> bool {
    &&& res.clear == clear
    &&& res.domain@ == domain
    &&& log.len() <= trace_len(records.len(), clear)
    &&& (forall|i: int|
        0 <= i < log.len() ==> (#[trigger] log[i]).op == op_at(i, clear) && log[i].record_index
            == rec_at(i, clear))
    &&& (forall|i: int| 0 <= i < log.len() - 1 ==> (#[trigger] log[i]).ok)
    &&& (res.status == Status::Success || res.status == Status::ProviderError)
    &&& ((res.status == Status::Success) <==> (log.len() == trace_len(records.len(), clear) && (
    log.len() == 0 || log.last().ok)))
    &&& (res.status == Status::Success ==> rec_views(res.records@) == records)
    &&& (res.status == Status::ProviderError ==> {
        &&& log.len() >= 1
        &&& !log.last().ok
        &&& rec_views(res.records@) == records.take(log.last().record_index + 1)
    })
}

/// When the request asks to clear, the loop performs delete operations
/// only: no create is ever invoked, for any record set and any provider
/// answers.
pub proof fn lemma_clear_only_deletes(
    records: Seq<(RecordType, Seq<char>)>,
    domain: Seq<char>,
    res: ReconciliationResult,
    log: Seq<OpLogEntry>,
)
    requires
        reconcile_post(records, true, domain, res, log),
    ensures
        forall|i: int| 0 <= i < log.len() ==> (#[trigger] log[i]).op == OpKind::Delete,
{
}

/// When the request does not ask to clear, the loop invokes, for every
/// record it reaches both calls of, a delete and then a create, in that
/// order, and consecutive calls never step back to an earlier record.
pub proof fn lemma_delete_then_create(
    records: Seq<(RecordType, Seq<char>)>,
    domain: Seq<char>,
    res: ReconciliationResult,
    log: Seq<OpLogEntry>,
    j: int,
)
    requires
        reconcile_post(records, false, domain, res, log),
        0 <= j,
        2 * j + 1 < log.len(),
    ensures
        log[2 * j].record_index == j && log[2 * j].op == OpKind::Delete,
        log[2 * j + 1].record_index == j && log[2 * j + 1].op == OpKind::Create,
{
    assert(log[2 * j].op == op_at(2 * j, false));
    assert(log[2 * j + 1].op == op_at(2 * j + 1, false));
    assert((2 * j) % 2 == 0);
    assert((2 * j + 1) % 2 == 1);
    assert((2 * j) / 2 == j);
    assert((2 * j + 1) / 2 == j);
}

/// If a provider call fails partway through a run, the result reports the
/// failure and carries exactly the records attempted up to and including the
/// failing one — later records are omitted, and every call logged before the
/// failing one had succeeded, earlier records' calls first.
pub proof fn lemma_failure_reports_prefix(
    records: Seq<(RecordType, Seq<char>)>,
    clear: bool,
    domain: Seq<char>,
    res: ReconciliationResult,
    log: Seq<OpLogEntry>,
)
    requires
        reconcile_post(records, clear, domain, res, log),
        res.status == Status::ProviderError,
    ensures
        rec_views(res.records@) == records.take(log.last().record_index + 1),
        !log.last().ok,
        forall|i: int| 0 <= i < log.len() - 1 ==> (#[trigger] log[i]).ok,
        forall|i1: int, i2: int|
            0 <= i1 <= i2 < log.len() ==> (#[trigger] log[i1]).record_index <= (
            #[trigger] log[i2]).record_index,
{
    assert forall|i1: int, i2: int| 0 <= i1 <= i2 < log.len() implies (
    #[trigger] log[i1]).record_index <= (#[trigger] log[i2]).record_index by {
        assert(log[i1].record_index == rec_at(i1, clear));
        assert(log[i2].record_index == rec_at(i2, clear));
    }
}

/// Idempotence of non-clear runs: two runs over the same record set and
/// domain whose provider calls all succeed — as against a provider that
/// treats deleting an absent record as a benign no-op — both succeed, and
/// both report the full, identical record list.
pub proof fn lemma_idempotent_success(
    records: Seq<(RecordType, Seq<char>)>,
    domain: Seq<char>,
    res1: ReconciliationResult,
    log1: Seq<OpLogEntry>,
    res2: ReconciliationResult,
    log2: Seq<OpLogEntry>,
)
    requires
        reconcile_post(records, false, domain, res1, log1),
        reconcile_post(records, false, domain, res2, log2),
        forall|i: int| 0 <= i < log1.len() ==> (#[trigger] log1[i]).ok,
        forall|i: int| 0 <= i < log2.len() ==> (#[trigger] log2[i]).ok,
        log1.len() == trace_len(records.len(), false),
        log2.len() == trace_len(records.len(), false),
    ensures
        res1.status == Status::Success,
        res2.status == Status::Success,
        rec_views(res1.records@) == records,
        rec_views(res1.records@) == rec_views(res2.records@),
{
    if log1.len() > 0 {
        assert(log1.last() == log1[log1.len() - 1]);
    }
    if log2.len() > 0 {
        assert(log2.last() == log2[log2.len() - 1]);
    }
}

/// An owned copy of the first `len` planned records.
fn clone_prefix(records: &Vec<RecordSpec>, len: usize) -> (r: Vec<RecordSpec>)
    requires
        len <= records@.len(),
    ensures
        rec_views(r@) == rec_views(records@).take(len as int),
{
    let mut r: Vec<RecordSpec> = Vec::new();
    let mut i: usize = 0;
    proof {
        assert(rec_views(r@) =~~= rec_views(records@).take(0));
    }
    while i < len
        invariant
            i <= len <= records@.len(),
            rec_views(r@) =~~= rec_views(records@).take(i as int),
        decreases len - i,
    {
        let ghost prev = r@;
        let rec = &records[i];
        r.push(rec.duplicate());
        proof {
            assert(rec_views(prev).len() == prev.len());
            assert(rec_views(records@).take(i as int).len() == i as int);
            assert(prev.len() == i as int);
            assert(r@ =~= prev.push(r@.last()));
            assert(r@.last()@ == records@[i as int]@);
            assert forall|j: int| 0 <= j < i + 1 implies rec_views(r@)[j] == rec_views(
                records@,
            ).take(i + 1)[j] by {
                if j < i {
                    assert(rec_views(prev)[j] == rec_views(records@).take(i as int)[j]);
                    assert(r@[j] == prev[j]);
                }
            }
            assert(rec_views(r@) =~~= rec_views(records@).take(i + 1));
        }
        i = i + 1;
    }
    r
}

/// Handles one record against the provider: deletes whatever record of that
/// type and name exists, then — unless `clear` — creates the record anew.
/// Returns whether the delete succeeded and, when a create was attempted,
/// whether it succeeded: a create is attempted exactly when the delete
/// succeeded and the request did not ask to clear.
pub fn handle_record<P: PorkbunAPI>(
    provider: &P,
    full_subdomain: &String,
    record: &RecordSpec,
    clear: bool,
) -> (r: (bool, Option<bool>))
    ensures
        clear ==> r.1 is None,
        !clear ==> (r.1 is Some <==> r.0),
{
    let deleted = provider.delete_record(
        full_subdomain.as_str(),
        record.record_type.name(),
        record.content.as_str(),
    );
    if deleted.is_err() {
        return (false, Option::None);
    }
    if clear {
        return (true, Option::None);
    }
    let created = provider.create_record(
        full_subdomain.as_str(),
        record.record_type.name(),
        record.content.as_str(),
    );
    (true, Option::Some(created.is_ok()))
}

/// Reconciles the planned record set against the provider, sequentially and
/// in order: per record a delete, then — unless `clear` — a create; the
/// first failed call aborts the remaining schedule.  Returns the result and
/// the log of the provider calls made.
pub fn reconcile<P: PorkbunAPI>(
    provider: &P,
    full_subdomain: &String,
    full_domain: &String,
    records: &Vec<RecordSpec>,
    clear: bool,
) -> (r: (ReconciliationResult, Vec<OpLogEntry>))
    ensures
        reconcile_post(rec_views(records@), clear, full_domain@, r.0, r.1@),
{
    let ghost plan = rec_views(records@);
    let mut log: Vec<OpLogEntry> = Vec::new();
    let mut idx: usize = 0;
    let n = records.len();
    while idx < n
        invariant
            idx <= n == records@.len(),
            plan == rec_views(records@),
            log@.len() == trace_len(idx as nat, clear),
            forall|i: int|
                0 <= i < log@.len() ==> (#[trigger] log@[i]).op == op_at(i, clear)
                    && log@[i].record_index == rec_at(i, clear) && log@[i].ok,
        decreases n - idx,
    {
        let rec = &records[idx];
        let (delete_ok, created) = handle_record(provider, full_subdomain, rec, clear);
        log.push(OpLogEntry { record_index: idx, op: OpKind::Delete, ok: delete_ok });
        if !delete_ok {
            let kept = clone_prefix(records, idx + 1);
            let result = ReconciliationResult {
                status: Status::ProviderError,
                domain: full_domain.clone(),
                clear,
                records: kept,
            };
            return (result, log);
        }
        if let Option::Some(create_ok) = created {
            log.push(OpLogEntry { record_index: idx, op: OpKind::Create, ok: create_ok });
            if !create_ok {
                let kept = clone_prefix(records, idx + 1);
                let result = ReconciliationResult {
                    status: Status::ProviderError,
                    domain: full_domain.clone(),
                    clear,
                    records: kept,
                };
                return (result, log);
            }
        }
        idx = idx + 1;
    }
    let all = clone_prefix(records, n);
    proof {
        assert(rec_views(records@).take(n as int) =~~= rec_views(records@));
    }
    let result = ReconciliationResult {
        status: Status::Success,
        domain: full_domain.clone(),
        clear,
        records: all,
    };
    (result, log)
}

} // verus!
