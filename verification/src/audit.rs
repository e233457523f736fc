//! The ledger: a digest chain over the steps of a run, and its audit.
use vstd::prelude::*;

use crate::errors::CoreError;
use crate::text::{nat_decimal, push_str, push_u64_decimal, str_eq, string_of};
use crate::trace::TraceEntry;

verus! {

/// One ledger entry: its sequence number, its digest, the digest of the
/// entry before it, its kind and the digest of its payload.
#[derive(Debug, Clone, PartialEq, Eq)]
pub struct LedgerEntry {
    pub seq: u64,
    pub digest: String,
    pub prev_digest: String,
    pub kind: String,
    pub payload_digest: String,
}

/// Every entry after the first names its predecessor's digest.
pub open spec fn chain_linked(es: Seq<LedgerEntry>) -> bool {
    forall|i: int| 1 <= i < es.len() ==> #[trigger] es[i].prev_digest@ == es[i - 1].digest@
}

/// `i` is the first entry whose link to its predecessor is broken.
pub open spec fn first_break(es: Seq<LedgerEntry>, i: int) -> bool {
    &&& 1 <= i < es.len()
    &&& es[i].prev_digest@ != es[i - 1].digest@
    &&& forall|j: int| 1 <= j < i ==> #[trigger] es[j].prev_digest@ == es[j - 1].digest@
}

/// The outcome of auditing `es` against `head`: `None` when the ledger is
/// non-empty, linked, and its last digest is `head`; otherwise the failure
/// message.
pub open spec fn ledger_audit(es: Seq<LedgerEntry>, head: Seq<char>) -> Option<Seq<char>> {
    if es.len() == 0 {
        Some("empty ledger"@)
    } else if !chain_linked(es) {
        let i = choose|i: int| first_break(es, i);
        Some("broken chain at seq "@ + nat_decimal(es[i].seq as nat))
    } else if es.last().digest@ != head {
        Some("head digest does not match ledger tip"@)
    } else {
        None
    }
}

proof fn lemma_first_break_unique(es: Seq<LedgerEntry>, i: int)
    requires
        first_break(es, i),
    ensures
        !chain_linked(es),
        (choose|k: int| first_break(es, k)) == i,
{
    assert(es[i].prev_digest@ != es[i - 1].digest@);
    let c = choose|k: int| first_break(es, k);
    assert(first_break(es, c));
    if c < i {
        assert(es[c].prev_digest@ == es[c - 1].digest@);
    }
    if i < c {
        assert(es[i].prev_digest@ == es[i - 1].digest@);
    }
}

/// Checks that the ledger is non-empty, that each entry links to the digest
/// of the one before it, and that the last digest is `head`.
pub fn verify_ledger_head(entries: &[LedgerEntry], head: &str) -> (r: Result<(), CoreError>)
    ensures
        r is Ok <==> ledger_audit(entries@, head@) is None,
        r matches Err(e) ==> e is AuditFailure && Some(e->AuditFailure_0@) == ledger_audit(
            entries@,
            head@,
        ),
{
    if entries.len() == 0 {
        return Err(CoreError::AuditFailure(string_of("empty ledger")));
    }
    let mut idx: usize = 1;
    while idx < entries.len()
        invariant
            1 <= idx <= entries@.len(),
            forall|j: int| 1 <= j < idx ==> #[trigger] entries@[j].prev_digest@ == entries@[j - 1].digest@,
        decreases entries@.len() - idx,
    {
        if !str_eq(entries[idx].prev_digest.as_str(), entries[idx - 1].digest.as_str()) {
            proof {
                lemma_first_break_unique(entries@, idx as int);
            }
            let mut msg = string_of("broken chain at seq ");
            push_u64_decimal(&mut msg, entries[idx].seq);
            return Err(CoreError::AuditFailure(msg));
        }
        idx = idx + 1;
    }
    let last = &entries[entries.len() - 1];
    if !str_eq(last.digest.as_str(), head) {
        return Err(CoreError::AuditFailure(string_of("head digest does not match ledger tip")));
    }
    Ok(())
}

/// The digest that precedes the first ledger entry.
pub open spec fn genesis_digest() -> Seq<char> {
    "sha256:0000000000000000000000000000000000000000000000000000000000000000"@
}

/// The ledger of a trace: entry `i` carries step `i`'s output digest and
/// role and its evidence digest, and links to step `i - 1`'s output digest
/// (the genesis digest for the first entry).
pub open spec fn ledger_of(t: Seq<TraceEntry>, es: Seq<LedgerEntry>) -> bool {
    &&& es.len() == t.len()
    &&& forall|i: int|
        0 <= i < t.len() ==> {
            &&& #[trigger] es[i].seq == i
            &&& es[i].digest@ == t[i].out_digest@
            &&& es[i].prev_digest@ == (if i == 0 {
                genesis_digest()
            } else {
                t[i - 1].out_digest@
            })
            &&& es[i].kind@ == t[i].role@
            &&& es[i].payload_digest@ == t[i].op_evidence_digest@
        }
}

/// Builds the ledger of a trace.
pub fn make_ledger(trace: &[TraceEntry]) -> (out: Vec<LedgerEntry>)
    ensures
        ledger_of(trace@, out@),
{
    let mut prev = string_of("sha256:0000000000000000000000000000000000000000000000000000000000000000");
    let mut out: Vec<LedgerEntry> = Vec::new();
    let mut i: usize = 0;
    while i < trace.len()
        invariant
            i <= trace@.len(),
            out@.len() == i,
            prev@ == (if i == 0 {
                genesis_digest()
            } else {
                trace@[i - 1].out_digest@
            }),
            forall|k: int|
                0 <= k < i ==> {
                    &&& #[trigger] out@[k].seq == k
                    &&& out@[k].digest@ == trace@[k].out_digest@
                    &&& out@[k].prev_digest@ == (if k == 0 {
                        genesis_digest()
                    } else {
                        trace@[k - 1].out_digest@
                    })
                    &&& out@[k].kind@ == trace@[k].role@
                    &&& out@[k].payload_digest@ == trace@[k].op_evidence_digest@
                },
        decreases trace@.len() - i,
    {
        let ghost old_out = out@;
        let t = &trace[i];
        let digest = t.out_digest.clone();
        out.push(
            LedgerEntry {
                seq: i as u64,
                digest: digest.clone(),
                prev_digest: prev,
                kind: t.role.clone(),
                payload_digest: t.op_evidence_digest.clone(),
            },
        );
        proof {
            let k = i as int;
            assert(out@[k].seq == k);
            assert(out@[k].digest@ == trace@[k].out_digest@);
            assert(out@[k].prev_digest@ == (if k == 0 {
                genesis_digest()
            } else {
                trace@[k - 1].out_digest@
            }));
            assert(out@[k].kind@ == trace@[k].role@);
            assert forall|m: int| 0 <= m < k implies #[trigger] out@[m] == old_out[m] by {}
        }
        prev = digest;
        i = i + 1;
    }
    out
}

/// A ledger built from a non-empty trace passes the audit against the
/// trace's last output digest.
pub proof fn lemma_made_ledger_audits(t: Seq<TraceEntry>, es: Seq<LedgerEntry>)
    requires
        ledger_of(t, es),
        t.len() > 0,
    ensures
        ledger_audit(es, t.last().out_digest@) is None,
{
    assert forall|i: int| 1 <= i < es.len() implies #[trigger] es[i].prev_digest@ == es[i
        - 1].digest@ by {
        assert(es[i].seq == i);
        assert(es[i - 1].seq == i - 1);
    }
    assert(es[es.len() - 1].seq == es.len() - 1);
}

} // verus!
