//! The per-tick pipeline, with its ordering made explicit.
//!
//! The host drains the transport's inbound buffer exactly once, before
//! calling in here; [`tick`] then reconciles every row against that one
//! snapshot and only afterwards runs the send scan.  Nothing re-draws or
//! reorders messages between entities within a tick: a message that arrives
//! after the snapshot was taken is not considered until the next tick.

use crate::recv::{comp_recv, recv_entity_post, RecvOutcome};
use crate::send::{comp_send, send_cmds, send_on_event, SendCmd};
use crate::sync::{EntityRow, InboundMsg, Role};
use vstd::prelude::*;

verus! {

/// Everything one tick decided: one receive outcome per row, in row order,
/// then the send commands of the change-gated pass, then those of the
/// forced-sync pass.
pub struct TickOutput {
    /// One reconciliation outcome per row.
    pub outcomes: Vec<RecvOutcome>,
    /// The commands of the change-detection-gated send pass.
    pub sends: Vec<SendCmd>,
    /// The commands of the forced-sync pass (empty unless the trigger
    /// fired this tick).
    pub forced_sends: Vec<SendCmd>,
}

/// Runs one tick over the table: reconciliation first, against the single
/// drained snapshot `msgs`, then the gated send scan, then the forced-sync
/// scan if the trigger `fired`.
pub fn tick<M>(
    role: Role,
    fired: bool,
    msgs: &Vec<InboundMsg<M>>,
    rows: &mut Vec<EntityRow>,
) -> (r: TickOutput)
    ensures
        final(rows)@.len() == old(rows)@.len(),
        r.outcomes@.len() == old(rows)@.len(),
        forall|k: int|
            0 <= k < old(rows)@.len() ==> {
                &&& (#[trigger] final(rows)@[k]).net_e == old(rows)@[k].net_e
                &&& final(rows)@[k].changed == old(rows)@[k].changed
                &&& recv_entity_post(
                    role,
                    msgs@,
                    old(rows)@[k].net_e.id,
                    old(rows)@[k].net_c,
                    final(rows)@[k].net_c,
                    r.outcomes@[k],
                )
            },
        r.sends@ == send_cmds(role, final(rows)@, false),
        fired ==> r.forced_sends@ == send_cmds(role, final(rows)@, true),
        !fired ==> r.forced_sends@ == Seq::<SendCmd>::empty(),
{
    let outcomes = comp_recv(role, msgs, rows);
    let sends = comp_send(role, rows);
    let forced_sends = send_on_event(fired, role, rows);
    TickOutput { outcomes, sends, forced_sends }
}

} // verus!
