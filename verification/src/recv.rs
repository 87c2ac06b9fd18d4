//! The receive/reconciliation pipeline.
//!
//! Each tick, the transport's inbound buffer is drained once into a snapshot
//! before any entity is reconciled; every entity then sees the same snapshot.
//! Per entity, the snapshot is filtered to the messages whose sender the
//! resolved predicate addresses and whose identity equals the entity's, and
//! the "latest valid message" among them is selected: ordered messages must
//! strictly beat the stored ordering mark and each other, and unordered
//! messages count only when no ordered candidate exists, the last-received
//! one winning.

use crate::predicate::CIdSpec;
use crate::sync::{spec_should_receive, should_receive};
use crate::sync::{EntityRow, InboundMsg, NetComp, NetEntity, Role, SNetDir};
use vstd::prelude::*;

verus! {

/// What reconciling one entity produced: the index into the snapshot of the
/// message to apply, if one was selected, and whether the direction
/// configuration is an overlapping `ToFrom` (a hazard worth a diagnostic,
/// never a reason to suppress the update).
#[derive(Clone, Copy, Debug, PartialEq, Eq)]
pub struct RecvOutcome {
    /// The snapshot index of the selected message, if any.
    pub applied: Option<usize>,
    /// True when the entity is configured `ToFrom` with overlapping
    /// predicates on the server.
    pub overlap_hazard: bool,
}

/// The message is addressed to this entity and its sender is accepted.
pub open spec fn matches_entity<M>(m: InboundMsg<M>, from: CIdSpec, id: u64) -> bool {
    from.spec_matches(m.cid) && m.msg.id == id
}

/// The ordering mark as a threshold: a missing mark rejects nothing above
/// zero.
pub open spec fn mark_value(last: Option<u32>) -> u32 {
    match last {
        Some(t) => t,
        None => 0u32,
    }
}

/// An accepted message whose ordering value strictly beats the stored mark.
pub open spec fn ordered_candidate<M>(
    m: InboundMsg<M>,
    from: CIdSpec,
    id: u64,
    last: Option<u32>,
) -> bool {
    &&& matches_entity(m, from, id)
    &&& m.time is Some
    &&& m.time->0 > mark_value(last)
}

/// An accepted message that carries no ordering value.
pub open spec fn unordered_match<M>(m: InboundMsg<M>, from: CIdSpec, id: u64) -> bool {
    matches_entity(m, from, id) && m.time is None
}

/// Some message in the snapshot is an ordered candidate.
pub open spec fn has_ordered_candidate<M>(
    msgs: Seq<InboundMsg<M>>,
    from: CIdSpec,
    id: u64,
    last: Option<u32>,
) -> bool {
    exists|i: int| 0 <= i < msgs.len() && ordered_candidate(#[trigger] msgs[i], from, id, last)
}

/// Index `i` holds the latest valid message of the snapshot: the first
/// ordered candidate carrying the highest ordering value if any ordered
/// candidate exists, otherwise the last unordered accepted message.
pub open spec fn is_selected<M>(
    msgs: Seq<InboundMsg<M>>,
    last: Option<u32>,
    from: CIdSpec,
    id: u64,
    i: int,
) -> bool {
    &&& 0 <= i < msgs.len()
    &&& if has_ordered_candidate(msgs, from, id, last) {
        &&& ordered_candidate(msgs[i], from, id, last)
        &&& forall|j: int|
            0 <= j < msgs.len() && ordered_candidate(#[trigger] msgs[j], from, id, last)
                ==> msgs[j].time->0 <= msgs[i].time->0
        &&& forall|j: int|
            0 <= j < i && ordered_candidate(#[trigger] msgs[j], from, id, last)
                ==> msgs[j].time->0 < msgs[i].time->0
    } else {
        &&& unordered_match(msgs[i], from, id)
        &&& forall|j: int| i < j < msgs.len() ==> !unordered_match(#[trigger] msgs[j], from, id)
    }
}

/// Nothing in the snapshot qualifies for this entity: no ordered candidate
/// and no unordered accepted message.
pub open spec fn no_candidate<M>(
    msgs: Seq<InboundMsg<M>>,
    last: Option<u32>,
    from: CIdSpec,
    id: u64,
) -> bool {
    forall|i: int|
        0 <= i < msgs.len()
            ==> !ordered_candidate(#[trigger] msgs[i], from, id, last) && !unordered_match(
            msgs[i],
            from,
            id,
        )
}

/// Gets the most recent message that `from` accepts for the entity with
/// `id`, if one was sent later than `current`: the index of the latest valid
/// message of the snapshot, or nothing when no message qualifies.
pub fn get_latest_msg<M>(
    msgs: &Vec<InboundMsg<M>>,
    current: Option<u32>,
    from: CIdSpec,
    id: u64,
) -> (r: Option<usize>)
    ensures
        match r {
            Some(i) => is_selected(msgs@, current, from, id, i as int),
            None => no_candidate(msgs@, current, from, id),
        },
{
    let threshold: u32 = match current {
        Some(t) => t,
        None => 0,
    };
    let mut best_ordered: Option<usize> = None;
    let mut best_time: u32 = threshold;
    let mut last_unordered: Option<usize> = None;
    let mut k: usize = 0;
    while k < msgs.len()
        invariant
            k <= msgs@.len(),
            threshold == mark_value(current),
            best_time >= threshold,
            match best_ordered {
                Some(b) => {
                    &&& b < k
                    &&& ordered_candidate(msgs@[b as int], from, id, current)
                    &&& msgs@[b as int].time->0 == best_time
                    &&& forall|j: int|
                        0 <= j < k && ordered_candidate(#[trigger] msgs@[j], from, id, current)
                            ==> msgs@[j].time->0 <= best_time
                    &&& forall|j: int|
                        0 <= j < b && ordered_candidate(#[trigger] msgs@[j], from, id, current)
                            ==> msgs@[j].time->0 < best_time
                },
                None => {
                    &&& best_time == threshold
                    &&& forall|j: int|
                        0 <= j < k ==> !ordered_candidate(#[trigger] msgs@[j], from, id, current)
                },
            },
            match last_unordered {
                Some(u) => {
                    &&& u < k
                    &&& unordered_match(msgs@[u as int], from, id)
                    &&& forall|j: int|
                        u < j < k ==> !unordered_match(#[trigger] msgs@[j], from, id)
                },
                None => forall|j: int| 0 <= j < k ==> !unordered_match(#[trigger] msgs@[j], from, id),
            },
        decreases msgs@.len() - k,
    {
        let m = &msgs[k];
        if from.matches(m.cid) && m.msg.id == id {
            match m.time {
                Some(t) => {
                    if t > best_time {
                        best_time = t;
                        best_ordered = Some(k);
                    }
                },
                None => {
                    last_unordered = Some(k);
                },
            }
        }
        k += 1;
    }
    match best_ordered {
        Some(b) => Some(b),
        None => last_unordered,
    }
}

/// The direction configuration is a server-side `ToFrom` whose two
/// predicates overlap: a configuration hazard worth a diagnostic.
pub open spec fn spec_overlap_hazard(role: Role, s_dir: SNetDir) -> bool {
    &&& role == Role::Server
    &&& s_dir matches SNetDir::ToFrom(to_spec, from_spec) && to_spec.spec_overlaps(from_spec)
}

/// The per-entity receive contract: how `after` and the outcome relate to
/// `before` and the snapshot.  The selected message is determined by the
/// resolved receive predicate alone; an overlap hazard is reported but never
/// suppresses the update.
pub open spec fn recv_entity_post<M>(
    role: Role,
    msgs: Seq<InboundMsg<M>>,
    id: u64,
    before: NetComp,
    after: NetComp,
    r: RecvOutcome,
) -> bool {
    &&& after.cd == before.cd
    &&& after.c_dir == before.c_dir
    &&& after.s_dir == before.s_dir
    &&& r.overlap_hazard == spec_overlap_hazard(role, before.s_dir)
    &&& match spec_should_receive(role, before.c_dir, before.s_dir) {
        Some(from) => match r.applied {
            Some(i) => {
                &&& is_selected(msgs, before.last, from, id, i as int)
                &&& after.last == msgs[i as int].time
            },
            None => {
                &&& no_candidate(msgs, before.last, from, id)
                &&& after.last == before.last
            },
        },
        None => r.applied is None && after.last == before.last,
    }
}

/// Reconciles one entity against the tick's snapshot: selects the latest
/// valid message for it, if any, and moves the ordering mark to the selected
/// message's ordering value.  The caller applies the selected payload to the
/// component (a total replace).
pub fn comp_recv_entity<M>(
    role: Role,
    msgs: &Vec<InboundMsg<M>>,
    net_e: &NetEntity,
    net_c: &mut NetComp,
) -> (r: RecvOutcome)
    ensures
        recv_entity_post(role, msgs@, net_e.id, *old(net_c), *final(net_c), r),
{
    let overlap_hazard = match (role, &net_c.s_dir) {
        (Role::Server, SNetDir::ToFrom(to_spec, from_spec)) => to_spec.overlaps(*from_spec),
        _ => false,
    };
    let applied = match should_receive(role, net_c.c_dir, net_c.s_dir) {
        Some(from) => {
            let sel = get_latest_msg(msgs, net_c.last, from, net_e.id);
            if let Some(i) = sel {
                net_c.last = msgs[i].time;
            }
            sel
        },
        None => None,
    };
    RecvOutcome { applied, overlap_hazard }
}

/// The full receive pass: reconciles every row against one snapshot.
///
/// The snapshot is drained exactly once per tick, before this pass begins;
/// every row is matched against the same `msgs`, so a message that arrives
/// while the pass runs waits for the next tick.  A message whose identity no
/// row carries is silently left unapplied.  Returns one outcome per row, in
/// row order.
pub fn comp_recv<M>(role: Role, msgs: &Vec<InboundMsg<M>>, rows: &mut Vec<EntityRow>) -> (r: Vec<
    RecvOutcome,
>)
    ensures
        final(rows)@.len() == old(rows)@.len(),
        r@.len() == old(rows)@.len(),
        forall|k: int|
            0 <= k < old(rows)@.len() ==> {
                &&& (#[trigger] final(rows)@[k]).net_e == old(rows)@[k].net_e
                &&& final(rows)@[k].changed == old(rows)@[k].changed
                &&& recv_entity_post(
                    role,
                    msgs@,
                    old(rows)@[k].net_e.id,
                    old(rows)@[k].net_c,
                    final(rows)@[k].net_c,
                    r@[k],
                )
            },
{
    let mut out: Vec<RecvOutcome> = Vec::new();
    let n = rows.len();
    let mut k: usize = 0;
    while k < n
        invariant
            n == rows@.len(),
            n == old(rows)@.len(),
            k <= n,
            out@.len() == k as int,
            forall|j: int| k <= j < n ==> #[trigger] rows@[j] == old(rows)@[j],
            forall|j: int|
                0 <= j < k ==> {
                    &&& (#[trigger] rows@[j]).net_e == old(rows)@[j].net_e
                    &&& rows@[j].changed == old(rows)@[j].changed
                    &&& recv_entity_post(
                        role,
                        msgs@,
                        old(rows)@[j].net_e.id,
                        old(rows)@[j].net_c,
                        rows@[j].net_c,
                        out@[j],
                    )
                },
        decreases n - k,
    {
        let row = rows[k];
        let mut net_c = row.net_c;
        let oc = comp_recv_entity(role, msgs, &row.net_e, &mut net_c);
        rows[k] = EntityRow { net_e: row.net_e, net_c, changed: row.changed };
        out.push(oc);
        k += 1;
    }
    out
}

/// At most one index of the snapshot is selected.
pub proof fn lemma_selected_unique<M>(
    msgs: Seq<InboundMsg<M>>,
    last: Option<u32>,
    from: CIdSpec,
    id: u64,
    i: int,
    j: int,
)
    requires
        is_selected(msgs, last, from, id, i),
        is_selected(msgs, last, from, id, j),
    ensures
        i == j,
{
    if i < j {
        if has_ordered_candidate(msgs, from, id, last) {
            assert(msgs[i].time->0 < msgs[j].time->0);
            assert(msgs[j].time->0 <= msgs[i].time->0);
        } else {
            assert(!unordered_match(msgs[j], from, id));
        }
    }
    if j < i {
        if has_ordered_candidate(msgs, from, id, last) {
            assert(msgs[j].time->0 < msgs[i].time->0);
            assert(msgs[i].time->0 <= msgs[j].time->0);
        } else {
            assert(!unordered_match(msgs[i], from, id));
        }
    }
}

/// Law (ordering monotonicity): arrival order never overrides ordering
/// values.  Among ordered candidates the selected message carries a maximal
/// ordering value, so a candidate with a smaller value than some other
/// candidate is never the one selected, wherever the two stand in the
/// snapshot.
pub proof fn lemma_ordering_monotonicity<M>(
    msgs: Seq<InboundMsg<M>>,
    last: Option<u32>,
    from: CIdSpec,
    id: u64,
    i: int,
    j: int,
    w: int,
)
    requires
        0 <= i < msgs.len(),
        0 <= j < msgs.len(),
        ordered_candidate(msgs[i], from, id, last),
        ordered_candidate(msgs[j], from, id, last),
        msgs[i].time->0 > msgs[j].time->0,
        is_selected(msgs, last, from, id, w),
    ensures
        msgs[w].time->0 >= msgs[i].time->0,
        w != j,
{
    assert(has_ordered_candidate(msgs, from, id, last));
}

/// Law (overlap tolerance): a server-side `ToFrom` whose predicates overlap
/// reports the hazard, and the hazard never suppresses the inbound update:
/// whenever the receive predicate selects a message of the snapshot, the
/// outcome applies exactly that message and the mark moves to its ordering
/// value.
pub proof fn lemma_overlap_tolerance<M>(
    msgs: Seq<InboundMsg<M>>,
    id: u64,
    before: NetComp,
    after: NetComp,
    oc: RecvOutcome,
    to_spec: CIdSpec,
    from_spec: CIdSpec,
    w: int,
)
    requires
        before.s_dir == SNetDir::ToFrom(to_spec, from_spec),
        recv_entity_post(Role::Server, msgs, id, before, after, oc),
        is_selected(msgs, before.last, from_spec, id, w),
    ensures
        oc.overlap_hazard == to_spec.spec_overlaps(from_spec),
        oc.applied matches Some(a) && a as int == w,
        after.last == msgs[w].time,
{
    assert(spec_should_receive(Role::Server, before.c_dir, before.s_dir) == Some(from_spec));
    match oc.applied {
        Some(a) => {
            lemma_selected_unique(msgs, before.last, from_spec, id, a as int, w);
        },
        None => {
            assert(!ordered_candidate(msgs[w], from_spec, id, before.last) && !unordered_match(
                msgs[w],
                from_spec,
                id,
            ));
            if has_ordered_candidate(msgs, from_spec, id, before.last) {
                assert(ordered_candidate(msgs[w], from_spec, id, before.last));
            } else {
                assert(unordered_match(msgs[w], from_spec, id));
            }
        },
    }
}

} // verus!
