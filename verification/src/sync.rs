//! The things needed to sync components: direction configurations, the
//! per-entity replication binding, the network identity, and the message
//! envelope.

use crate::predicate::CIdSpec;
use vstd::prelude::*;

verus! {

/// Which side of the connection this process plays.
///
/// A process where neither role is active simply never runs the pipelines:
/// that tick is a no-op.
#[derive(Clone, Copy, Debug, PartialEq, Eq)]
pub enum Role {
    /// The one authoritative instance, holding many connections.
    Server,
    /// A consumer instance with a single implicit peer.
    Client,
}

/// Client net direction: the synchronizing direction for data on a client.
#[derive(Clone, Copy, Debug, PartialEq, Eq, Hash)]
pub enum CNetDir {
    /// Synchronize data **to** the peer, from this instance.
    To,
    /// Synchronize data **from** the peer, to this instance.
    From,
}

/// Server net direction: the synchronizing direction for data on the server.
///
/// The [`CIdSpec`]s specify who to send the data to, or receive it from.
#[derive(Clone, Copy, Debug, PartialEq, Eq, Hash)]
pub enum SNetDir {
    /// Synchronize data **to** the connections the predicate addresses.
    To(CIdSpec),
    /// Synchronize data **from** the connections the predicate addresses.
    From(CIdSpec),
    /// Synchronize data both ways, each way restricted by its own predicate.
    ToFrom(CIdSpec, CIdSpec),
}

impl SNetDir {
    /// The send side of the direction, if it has one.
    pub open spec fn spec_to(self) -> Option<CIdSpec> {
        match self {
            SNetDir::To(spec) => Some(spec),
            SNetDir::From(_) => None,
            SNetDir::ToFrom(spec, _) => Some(spec),
        }
    }

    /// The receive side of the direction, if it has one.
    pub open spec fn spec_from(self) -> Option<CIdSpec> {
        match self {
            SNetDir::To(_) => None,
            SNetDir::From(spec) => Some(spec),
            SNetDir::ToFrom(_, spec) => Some(spec),
        }
    }

    /// Shorthand for `SNetDir::To(CIdSpec::All)`.
    pub fn to_all() -> (r: Self)
        ensures
            r == SNetDir::To(CIdSpec::All),
    {
        SNetDir::To(CIdSpec::All)
    }

    /// Shorthand for `SNetDir::From(CIdSpec::All)`.
    pub fn from_all() -> (r: Self)
        ensures
            r == SNetDir::From(CIdSpec::All),
    {
        SNetDir::From(CIdSpec::All)
    }

    /// Gets the to component of the `SNetDir`.
    pub fn to(&self) -> (r: Option<&CIdSpec>)
        ensures
            match r {
                Some(spec) => self.spec_to() == Some(*spec),
                None => self.spec_to() is None,
            },
    {
        match self {
            SNetDir::To(spec) => Some(spec),
            SNetDir::From(_) => None,
            SNetDir::ToFrom(spec, _) => Some(spec),
        }
    }

    /// Gets the from component of the `SNetDir`.
    pub fn from(&self) -> (r: Option<&CIdSpec>)
        ensures
            match r {
                Some(spec) => self.spec_from() == Some(*spec),
                None => self.spec_from() is None,
            },
    {
        match self {
            SNetDir::To(_) => None,
            SNetDir::From(spec) => Some(spec),
            SNetDir::ToFrom(_, spec) => Some(spec),
        }
    }
}

/// The per-entity, per-component-type replication binding.
///
/// Holds the direction configuration, the change-detection flag, and the
/// ordering mark: the ordering value of the last message written to the
/// component, used to reject stale updates.  Only the receive pipeline
/// mutates the mark; the send pipeline reads the binding.
#[derive(Clone, Copy, Debug, PartialEq, Eq, Hash)]
pub struct NetComp {
    /// Change detection.
    ///
    /// If enabled, the send pipeline only emits a message when the host
    /// runtime reports the component changed (which may false-positive).
    pub cd: bool,
    /// The ordering value of the last message received and written to the
    /// component, if that message carried one.
    pub last: Option<u32>,
    /// The net direction for the client role.
    pub c_dir: CNetDir,
    /// The net direction for the server role.
    pub s_dir: SNetDir,
}

impl NetComp {
    /// Creates a new binding with the given net directions and
    /// change-detection flag, and no ordering mark yet.
    pub fn new(cd: bool, c_dir: CNetDir, s_dir: SNetDir) -> (r: Self)
        ensures
            r.cd == cd,
            r.last is None,
            r.c_dir == c_dir,
            r.s_dir == s_dir,
    {
        NetComp { cd, last: None, c_dir, s_dir }
    }
}

impl Default for NetComp {
    /// Change detection on, consuming from the peer on a client, sending to
    /// all connections on the server.
    fn default() -> (r: Self)
        ensures
            r.cd == true,
            r.last is None,
            r.c_dir == CNetDir::From,
            r.s_dir == SNetDir::To(CIdSpec::All),
    {
        NetComp { cd: true, last: None, c_dir: CNetDir::From, s_dir: SNetDir::To(CIdSpec::All) }
    }
}

/// A networked entity: a stable identity shared by every connected instance.
///
/// Any entity carrying a [`NetComp`] binding needs one of these.  Uniqueness
/// is the caller's responsibility; a random `u64` gives a very low collision
/// rate, and colliding ids are silently treated as the same entity.
#[derive(Clone, Copy, Debug, PartialEq, Eq, Hash)]
pub struct NetEntity {
    /// The identifier, identical on all connected instances.
    pub id: u64,
}

impl NetEntity {
    /// Creates a new [`NetEntity`] with `id`.
    pub fn new(id: u64) -> (r: Self)
        ensures
            r.id == id,
    {
        NetEntity { id }
    }
}

/// The message envelope: pairs the wire payload with the entity's identity.
#[derive(Clone, Debug, PartialEq, Eq)]
pub struct NetCompMsg<M> {
    /// The identity of the entity the payload belongs to.
    pub id: u64,
    /// The wire payload.
    pub msg: M,
}

impl<M> NetCompMsg<M> {
    /// Wraps `msg` with the entity identity `id`.
    pub fn new(id: u64, msg: M) -> (r: Self)
        ensures
            r.id == id,
            r.msg == msg,
    {
        NetCompMsg { id, msg }
    }
}

/// One inbound message as the transport hands it over: the sender's
/// connection id, the optional ordering value (absent when the transport
/// gave the message no send time), and the envelope.
#[derive(Clone, Debug, PartialEq, Eq)]
pub struct InboundMsg<M> {
    /// The connection id the message was sent from.
    pub cid: u32,
    /// The ordering value the message was sent with, if any.
    pub time: Option<u32>,
    /// The envelope: entity identity plus wire payload.
    pub msg: NetCompMsg<M>,
}

impl<M> InboundMsg<M> {
    /// Builds the record for one drained message.
    pub fn new(cid: u32, time: Option<u32>, msg: NetCompMsg<M>) -> (r: Self)
        ensures
            r.cid == cid,
            r.time == time,
            r.msg == msg,
    {
        InboundMsg { cid, time, msg }
    }
}

/// One entity as the pipelines see it: its identity, its binding, and the
/// host runtime's change report for this tick.
#[derive(Clone, Copy, Debug, PartialEq, Eq)]
pub struct EntityRow {
    /// The entity's network identity.
    pub net_e: NetEntity,
    /// The entity's replication binding.
    pub net_c: NetComp,
    /// Whether the host runtime reports the component changed since the
    /// prior tick (may false-positive).
    pub changed: bool,
}

/// Where a send is warranted: the predicate addressing the receivers, or
/// nothing.
///
/// This function and [`spec_should_receive`] are the only places direction
/// semantics are decided.
pub open spec fn spec_should_send(role: Role, c_dir: CNetDir, s_dir: SNetDir) -> Option<CIdSpec> {
    match role {
        Role::Client => match c_dir {
            CNetDir::To => Some(CIdSpec::All),
            CNetDir::From => None,
        },
        Role::Server => s_dir.spec_to(),
    }
}

/// Where a receive is accepted from: the predicate addressing the accepted
/// senders, or nothing.
pub open spec fn spec_should_receive(role: Role, c_dir: CNetDir, s_dir: SNetDir) -> Option<
    CIdSpec,
> {
    match role {
        Role::Client => match c_dir {
            CNetDir::To => None,
            CNetDir::From => Some(CIdSpec::All),
        },
        Role::Server => s_dir.spec_from(),
    }
}

/// Resolve the direction configuration for sending under `role`.
pub fn should_send(role: Role, c_dir: CNetDir, s_dir: SNetDir) -> (r: Option<CIdSpec>)
    ensures
        r == spec_should_send(role, c_dir, s_dir),
{
    match role {
        Role::Client => match c_dir {
            CNetDir::To => Some(CIdSpec::All),
            CNetDir::From => None,
        },
        Role::Server => match s_dir {
            SNetDir::To(spec) => Some(spec),
            SNetDir::From(_) => None,
            SNetDir::ToFrom(spec, _) => Some(spec),
        },
    }
}

/// Resolve the direction configuration for receiving under `role`.
pub fn should_receive(role: Role, c_dir: CNetDir, s_dir: SNetDir) -> (r: Option<CIdSpec>)
    ensures
        r == spec_should_receive(role, c_dir, s_dir),
{
    match role {
        Role::Client => match c_dir {
            CNetDir::To => None,
            CNetDir::From => Some(CIdSpec::All),
        },
        Role::Server => match s_dir {
            SNetDir::To(_) => None,
            SNetDir::From(spec) => Some(spec),
            SNetDir::ToFrom(_, spec) => Some(spec),
        },
    }
}

} // verus!
