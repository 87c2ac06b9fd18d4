//! The send pipeline.
//!
//! Each tick, every entity row is scanned in order.  A row emits one send
//! command when it passes the change-detection gate (always passed when the
//! forced-sync trigger fired this tick) and its direction configuration
//! resolves to a send predicate.  The command names the row, the entity
//! identity to put on the envelope, and the predicate addressing the
//! receivers; handing the envelope to the transport, and tolerating one
//! entity's delivery failure independently of the others, is the caller's
//! part.

use crate::predicate::CIdSpec;
use crate::sync::{spec_should_send, should_send};
use crate::sync::{EntityRow, Role, SNetDir};
use vstd::prelude::*;

verus! {

/// One outbound send the pass decided on: which row it came from, the
/// entity identity for the envelope, and who receives it.
#[derive(Clone, Copy, Debug, PartialEq, Eq)]
pub struct SendCmd {
    /// The index of the emitting row in the scanned table.
    pub index: usize,
    /// The entity identity to wrap the payload with.
    pub id: u64,
    /// The connections the message is addressed to (every connection, for a
    /// client's single implicit peer).
    pub spec: CIdSpec,
}

/// The row emits a message this tick: the change-detection gate passes
/// (trivially under a forced sync, or with change detection off, or on a
/// reported change) and the direction resolves to a send predicate.
pub open spec fn wants_send(role: Role, row: EntityRow, force: bool) -> bool {
    &&& force || !row.net_c.cd || row.changed
    &&& spec_should_send(role, row.net_c.c_dir, row.net_c.s_dir) is Some
}

/// The command emitted for the row at `i`.
pub open spec fn send_cmd_for(role: Role, rows: Seq<EntityRow>, i: int) -> SendCmd {
    SendCmd {
        index: i as usize,
        id: rows[i].net_e.id,
        spec: spec_should_send(role, rows[i].net_c.c_dir, rows[i].net_c.s_dir)->0,
    }
}

/// The commands a scan of `rows` emits, in row order: one per row that
/// wants to send, none for any other row.
pub open spec fn send_cmds(role: Role, rows: Seq<EntityRow>, force: bool) -> Seq<SendCmd>
    decreases rows.len(),
{
    if rows.len() == 0 {
        Seq::empty()
    } else {
        send_cmds(role, rows.drop_last(), force) + if wants_send(role, rows.last(), force) {
            seq![send_cmd_for(role, rows, rows.len() - 1)]
        } else {
            Seq::empty()
        }
    }
}

/// One scan of the table: the shared body of [`comp_send`] and
/// [`send_on_event`].
pub fn send_pass(role: Role, rows: &Vec<EntityRow>, force: bool) -> (r: Vec<SendCmd>)
    ensures
        r@ == send_cmds(role, rows@, force),
{
    let mut out: Vec<SendCmd> = Vec::new();
    let mut k: usize = 0;
    while k < rows.len()
        invariant
            k <= rows@.len(),
            out@ == send_cmds(role, rows@.subrange(0, k as int), force),
        decreases rows@.len() - k,
    {
        let row = &rows[k];
        let gate = force || !row.net_c.cd || row.changed;
        if gate {
            if let Some(to_spec) = should_send(role, row.net_c.c_dir, row.net_c.s_dir) {
                out.push(SendCmd { index: k, id: row.net_e.id, spec: to_spec });
            }
        }
        proof {
            let pre = rows@.subrange(0, k as int);
            let cur = rows@.subrange(0, k + 1);
            assert(cur.drop_last() =~= pre);
            assert(cur.last() == rows@[k as int]);
        }
        k += 1;
    }
    proof {
        assert(rows@.subrange(0, rows@.len() as int) =~= rows@);
    }
    out
}

/// The per-tick send pass, gated by change detection: scans the rows and
/// emits one command per row whose gate and direction allow a send.
pub fn comp_send(role: Role, rows: &Vec<EntityRow>) -> (r: Vec<SendCmd>)
    ensures
        r@ == send_cmds(role, rows@, false),
{
    send_pass(role, rows, false)
}

/// The forced-sync pass: when the trigger for this component type `fired`
/// this tick (however many times: firing is idempotent per tick), scans the
/// rows ignoring change detection; otherwise emits nothing.  The trigger
/// does not queue across ticks.
pub fn send_on_event(fired: bool, role: Role, rows: &Vec<EntityRow>) -> (r: Vec<SendCmd>)
    ensures
        fired ==> r@ == send_cmds(role, rows@, true),
        !fired ==> r@ == Seq::<SendCmd>::empty(),
{
    if fired {
        send_pass(role, rows, true)
    } else {
        Vec::new()
    }
}

/// How a scan's output relates to its rows: every command comes from a row
/// that wants to send and is built for it, every such row gets a command,
/// and commands keep row order (so each row gets at most one).
pub proof fn lemma_send_cmds_characterization(role: Role, rows: Seq<EntityRow>, force: bool)
    requires
        rows.len() <= usize::MAX,
    ensures
        forall|j: int|
            0 <= j < send_cmds(role, rows, force).len() ==> {
                let c = #[trigger] send_cmds(role, rows, force)[j];
                &&& c.index < rows.len()
                &&& wants_send(role, rows[c.index as int], force)
                &&& c == send_cmd_for(role, rows, c.index as int)
            },
        forall|i: int|
            0 <= i < rows.len() && wants_send(role, #[trigger] rows[i], force) ==> exists|j: int|
                0 <= j < send_cmds(role, rows, force).len() && (#[trigger] send_cmds(
                    role,
                    rows,
                    force,
                )[j]).index == i,
        forall|j1: int, j2: int|
            0 <= j1 < j2 < send_cmds(role, rows, force).len() ==> (#[trigger] send_cmds(
                role,
                rows,
                force,
            )[j1]).index < (#[trigger] send_cmds(role, rows, force)[j2]).index,
    decreases rows.len(),
{
    if rows.len() > 0 {
        let pre = rows.drop_last();
        let n = rows.len() - 1;
        lemma_send_cmds_characterization(role, pre, force);
        assert(rows.last() == rows[n]);
        assert forall|i: int| 0 <= i < n implies pre[i] == rows[i] && send_cmd_for(role, pre, i)
            == send_cmd_for(role, rows, i) by {
            assert(pre[i] == rows[i]);
        }
        let cmds = send_cmds(role, rows, force);
        let pre_cmds = send_cmds(role, pre, force);
        assert forall|j: int| 0 <= j < pre_cmds.len() implies cmds[j] == pre_cmds[j] by {}
        if wants_send(role, rows[n], force) {
            assert(cmds[cmds.len() - 1] == send_cmd_for(role, rows, n));
            assert(cmds[cmds.len() - 1].index == n);
        }
        assert forall|i: int| 0 <= i < rows.len() && wants_send(role, #[trigger] rows[i], force)
            implies exists|j: int|
            0 <= j < cmds.len() && (#[trigger] cmds[j]).index == i by {
            if i < n {
                let j = choose|j: int|
                    0 <= j < pre_cmds.len() && (#[trigger] pre_cmds[j]).index == i;
                assert(cmds[j].index == i);
            } else {
                assert(cmds[cmds.len() - 1].index == i);
            }
        }
    }
}

/// Law (idempotent no-op): with change detection enabled on every row and no
/// content change reported, a change-gated pass emits zero outbound
/// messages — and so does every repetition of it while nothing changes.
pub proof fn lemma_no_change_no_send(role: Role, rows: Seq<EntityRow>)
    requires
        forall|i: int| 0 <= i < rows.len() ==> (#[trigger] rows[i]).net_c.cd && !rows[i].changed,
    ensures
        send_cmds(role, rows, false).len() == 0,
    decreases rows.len(),
{
    if rows.len() > 0 {
        let pre = rows.drop_last();
        assert forall|i: int| 0 <= i < pre.len() implies (#[trigger] pre[i]).net_c.cd
            && !pre[i].changed by {
            assert(pre[i] == rows[i]);
        }
        lemma_no_change_no_send(role, pre);
        assert(rows.last() == rows[rows.len() - 1]);
        assert(!wants_send(role, rows.last(), false));
    }
}

/// Law (direction correctness): a server row configured `To(p)` that passes
/// the change gate emits exactly one command, and that command addresses a
/// connection id precisely when `p` matches it; rows outside `p` receive
/// nothing because the command's predicate is `p` itself.
pub proof fn lemma_direction_correctness(
    rows: Seq<EntityRow>,
    force: bool,
    i: int,
    p: CIdSpec,
    cid: u32,
)
    requires
        rows.len() <= usize::MAX,
        0 <= i < rows.len(),
        rows[i].net_c.s_dir == SNetDir::To(p),
        force || !rows[i].net_c.cd || rows[i].changed,
    ensures
        exists|j: int|
            0 <= j < send_cmds(Role::Server, rows, force).len() && (#[trigger] send_cmds(
                Role::Server,
                rows,
                force,
            )[j]).index == i,
        forall|j: int|
            0 <= j < send_cmds(Role::Server, rows, force).len() && (#[trigger] send_cmds(
                Role::Server,
                rows,
                force,
            )[j]).index == i ==> send_cmds(Role::Server, rows, force)[j].spec == p && (send_cmds(
                Role::Server,
                rows,
                force,
            )[j].spec.spec_matches(cid) <==> p.spec_matches(cid)),
        forall|j1: int, j2: int|
            0 <= j1 < send_cmds(Role::Server, rows, force).len() && 0 <= j2 < send_cmds(
                Role::Server,
                rows,
                force,
            ).len() && (#[trigger] send_cmds(Role::Server, rows, force)[j1]).index == i
                && (#[trigger] send_cmds(Role::Server, rows, force)[j2]).index == i ==> j1 == j2,
{
    lemma_send_cmds_characterization(Role::Server, rows, force);
    assert(wants_send(Role::Server, rows[i], force));
    assert forall|j1: int, j2: int|
        0 <= j1 < send_cmds(Role::Server, rows, force).len() && 0 <= j2 < send_cmds(
            Role::Server,
            rows,
            force,
        ).len() && (#[trigger] send_cmds(Role::Server, rows, force)[j1]).index == i && (
        #[trigger] send_cmds(Role::Server, rows, force)[j2]).index == i implies j1 == j2 by {
        if j1 < j2 {
            assert(send_cmds(Role::Server, rows, force)[j1].index < send_cmds(
                Role::Server,
                rows,
                force,
            )[j2].index);
        }
        if j2 < j1 {
            assert(send_cmds(Role::Server, rows, force)[j2].index < send_cmds(
                Role::Server,
                rows,
                force,
            )[j1].index);
        }
    }
}

/// Law (forced sync bypass): with change detection on and nothing changed,
/// the gated pass emits nothing, while a forced pass emits a command for
/// exactly the rows whose direction resolves to a send predicate — one
/// outbound message per qualifying entity for the tick the trigger fired,
/// and zero again on a tick without trigger and without changes.
pub proof fn lemma_forced_sync_bypass(role: Role, rows: Seq<EntityRow>)
    requires
        rows.len() <= usize::MAX,
        forall|i: int| 0 <= i < rows.len() ==> (#[trigger] rows[i]).net_c.cd && !rows[i].changed,
    ensures
        send_cmds(role, rows, false).len() == 0,
        forall|i: int|
            0 <= i < rows.len() && spec_should_send(
                role,
                (#[trigger] rows[i]).net_c.c_dir,
                rows[i].net_c.s_dir,
            ) is Some ==> exists|j: int|
                0 <= j < send_cmds(role, rows, true).len() && (#[trigger] send_cmds(
                    role,
                    rows,
                    true,
                )[j]).index == i,
        forall|j: int|
            0 <= j < send_cmds(role, rows, true).len() ==> {
                let c = #[trigger] send_cmds(role, rows, true)[j];
                &&& c.index < rows.len()
                &&& spec_should_send(
                    role,
                    rows[c.index as int].net_c.c_dir,
                    rows[c.index as int].net_c.s_dir,
                ) is Some
            },
        forall|j1: int, j2: int|
            0 <= j1 < j2 < send_cmds(role, rows, true).len() ==> (#[trigger] send_cmds(
                role,
                rows,
                true,
            )[j1]).index < (#[trigger] send_cmds(role, rows, true)[j2]).index,
{
    lemma_no_change_no_send(role, rows);
    lemma_send_cmds_characterization(role, rows, true);
}

} // verus!
