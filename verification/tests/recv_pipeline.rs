use bevy_pigeon::predicate::CIdSpec;
use bevy_pigeon::recv::{comp_recv, comp_recv_entity, get_latest_msg};
use bevy_pigeon::sync::{
    CNetDir, EntityRow, InboundMsg, NetComp, NetCompMsg, NetEntity, Role, SNetDir,
};

fn msg(cid: u32, time: Option<u32>, id: u64, payload: u64) -> InboundMsg<u64> {
    InboundMsg::new(cid, time, NetCompMsg::new(id, payload))
}

#[test]
fn ordering_value_beats_arrival_order() {
    // Ordering 5 arrives before ordering 3: the component must end the tick
    // holding the value from the message with ordering 5.
    let msgs = vec![msg(1, Some(5), 7, 100), msg(1, Some(3), 7, 200)];
    let mut net_c = NetComp::new(true, CNetDir::From, SNetDir::from_all());
    let outcome = comp_recv_entity(Role::Server, &msgs, &NetEntity::new(7), &mut net_c);
    assert_eq!(outcome.applied, Some(0));
    assert_eq!(msgs[0].msg.msg, 100);
    assert_eq!(net_c.last, Some(5));
}

#[test]
fn highest_ordering_wins_regardless_of_position() {
    let msgs = vec![
        msg(1, Some(3), 7, 100),
        msg(1, Some(9), 7, 200),
        msg(1, Some(6), 7, 300),
    ];
    let r = get_latest_msg(&msgs, None, CIdSpec::All, 7);
    assert_eq!(r, Some(1));
}

#[test]
fn stale_ordering_is_rejected() {
    // The stored mark is 10; a message ordered 5 must not regress it.
    let msgs = vec![msg(1, Some(5), 7, 100)];
    let mut net_c = NetComp::new(true, CNetDir::From, SNetDir::from_all());
    net_c.last = Some(10);
    let outcome = comp_recv_entity(Role::Server, &msgs, &NetEntity::new(7), &mut net_c);
    assert_eq!(outcome.applied, None);
    assert_eq!(net_c.last, Some(10));
}

#[test]
fn ordering_equal_to_mark_is_rejected() {
    let msgs = vec![msg(1, Some(10), 7, 100)];
    assert_eq!(get_latest_msg(&msgs, Some(10), CIdSpec::All, 7), None);
    // With no mark yet, the threshold is zero, so ordering zero is stale too.
    let zero = vec![msg(1, Some(0), 7, 100)];
    assert_eq!(get_latest_msg(&zero, None, CIdSpec::All, 7), None);
}

#[test]
fn equal_highest_orderings_pick_the_first() {
    let msgs = vec![msg(1, Some(5), 7, 100), msg(1, Some(5), 7, 200)];
    assert_eq!(get_latest_msg(&msgs, None, CIdSpec::All, 7), Some(0));
}

#[test]
fn last_unordered_wins_without_ordered_candidates() {
    let msgs = vec![msg(1, None, 7, 100), msg(1, None, 7, 200)];
    let mut net_c = NetComp::new(true, CNetDir::From, SNetDir::from_all());
    net_c.last = Some(10);
    let outcome = comp_recv_entity(Role::Server, &msgs, &NetEntity::new(7), &mut net_c);
    assert_eq!(outcome.applied, Some(1));
    // An unordered winner resets the mark: it supersedes no ordering comparison.
    assert_eq!(net_c.last, None);
}

#[test]
fn ordered_candidate_beats_unordered_messages() {
    let msgs = vec![msg(1, None, 7, 100), msg(1, Some(4), 7, 200), msg(1, None, 7, 300)];
    assert_eq!(get_latest_msg(&msgs, None, CIdSpec::All, 7), Some(1));
}

#[test]
fn unknown_entity_messages_are_dropped() {
    // The message names an entity this process does not know: silently no-op.
    let msgs = vec![msg(1, Some(5), 99, 100)];
    let mut net_c = NetComp::new(true, CNetDir::From, SNetDir::from_all());
    let outcome = comp_recv_entity(Role::Server, &msgs, &NetEntity::new(7), &mut net_c);
    assert_eq!(outcome.applied, None);
    assert_eq!(net_c.last, None);
}

#[test]
fn unmatched_sender_is_filtered_out() {
    let msgs = vec![msg(2, Some(5), 7, 100)];
    let mut net_c = NetComp::new(true, CNetDir::From, SNetDir::From(CIdSpec::Only(1)));
    let outcome = comp_recv_entity(Role::Server, &msgs, &NetEntity::new(7), &mut net_c);
    assert_eq!(outcome.applied, None);
}

#[test]
fn send_only_directions_receive_nothing() {
    let msgs = vec![msg(1, Some(5), 7, 100)];
    let mut net_c = NetComp::new(true, CNetDir::To, SNetDir::to_all());
    let server = comp_recv_entity(Role::Server, &msgs, &NetEntity::new(7), &mut net_c);
    assert_eq!(server.applied, None);
    let client = comp_recv_entity(Role::Client, &msgs, &NetEntity::new(7), &mut net_c);
    assert_eq!(client.applied, None);
    assert_eq!(net_c.last, None);
}

#[test]
fn client_receives_from_its_peer() {
    let msgs = vec![msg(0, Some(2), 7, 100)];
    let mut net_c = NetComp::new(true, CNetDir::From, SNetDir::to_all());
    let outcome = comp_recv_entity(Role::Client, &msgs, &NetEntity::new(7), &mut net_c);
    assert_eq!(outcome.applied, Some(0));
    assert_eq!(net_c.last, Some(2));
    assert!(!outcome.overlap_hazard);
}

#[test]
fn overlapping_to_from_warns_but_still_applies() {
    // ToFrom(All, Only(5)) overlaps; the inbound update from connection 5
    // must still be applied, and the send side still addresses everyone.
    let msgs = vec![msg(5, Some(3), 7, 100)];
    let mut net_c = NetComp::new(false, CNetDir::From, SNetDir::ToFrom(CIdSpec::All, CIdSpec::Only(5)));
    let outcome = comp_recv_entity(Role::Server, &msgs, &NetEntity::new(7), &mut net_c);
    assert!(outcome.overlap_hazard);
    assert_eq!(outcome.applied, Some(0));
    assert_eq!(net_c.last, Some(3));
}

#[test]
fn disjoint_to_from_applies_without_hazard() {
    let msgs = vec![msg(5, Some(3), 7, 100)];
    let mut net_c =
        NetComp::new(false, CNetDir::From, SNetDir::ToFrom(CIdSpec::Except(5), CIdSpec::Only(5)));
    let outcome = comp_recv_entity(Role::Server, &msgs, &NetEntity::new(7), &mut net_c);
    assert!(!outcome.overlap_hazard);
    assert_eq!(outcome.applied, Some(0));
}

#[test]
fn full_pass_reconciles_each_row_against_one_snapshot() {
    let msgs = vec![msg(1, Some(5), 7, 100), msg(2, Some(6), 8, 200)];
    let mut rows = vec![
        EntityRow {
            net_e: NetEntity::new(7),
            net_c: NetComp::new(true, CNetDir::From, SNetDir::from_all()),
            changed: false,
        },
        EntityRow {
            net_e: NetEntity::new(8),
            net_c: NetComp::new(true, CNetDir::From, SNetDir::from_all()),
            changed: false,
        },
        EntityRow {
            net_e: NetEntity::new(9),
            net_c: NetComp::new(true, CNetDir::From, SNetDir::from_all()),
            changed: false,
        },
    ];
    let outcomes = comp_recv(Role::Server, &msgs, &mut rows);
    assert_eq!(outcomes.len(), 3);
    assert_eq!(outcomes[0].applied, Some(0));
    assert_eq!(outcomes[1].applied, Some(1));
    assert_eq!(outcomes[2].applied, None);
    assert_eq!(rows[0].net_c.last, Some(5));
    assert_eq!(rows[1].net_c.last, Some(6));
    assert_eq!(rows[2].net_c.last, None);
}
