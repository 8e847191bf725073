use vstd::prelude::*;

use crate::direction::MoveDirection;
use crate::directory::{DirectoryEntry, IdentityDirectory, SimulationEntity};
use crate::messages::{ClientConnectInfo, Delivery, RouterEvent, ServerMessage};
use crate::position::{applied, Position};

verus! {

/// The directory after one router event is applied to it.
///
/// A connect registers a fresh entity at the origin under the new identity;
/// a movement command for a known identity moves that identity's entity and
/// touches no other entry; a movement command for an unknown identity
/// changes nothing; a disconnect removes the identity's entry.
pub open spec fn step_directory(m: Map<u128, DirectoryEntry>, e: RouterEvent) -> Map<
    u128,
    DirectoryEntry,
> {
    match e {
        RouterEvent::Connect(info) => m.insert(
            info.identity,
            DirectoryEntry {
                entity: SimulationEntity {
                    identity: info.identity,
                    translation: Position::spec_origin(),
                },
                outbound: info.outbound,
            },
        ),
        RouterEvent::Move(d, id) => if m.contains_key(id) {
            m.insert(
                id,
                DirectoryEntry {
                    entity: SimulationEntity {
                        identity: m[id].entity.identity,
                        translation: applied(m[id].entity.translation, d),
                    },
                    outbound: m[id].outbound,
                },
            )
        } else {
            m
        },
        RouterEvent::Disconnect(id) => m.remove(id),
    }
}

/// The outbound message one router event produces, if any.
///
/// Only a recognized movement command for a connected identity produces
/// one: a position update addressed to that identity's own outbound
/// delivery queue. Connects, disconnects, no-op commands and commands for
/// unknown identities produce none.
pub open spec fn step_output(m: Map<u128, DirectoryEntry>, e: RouterEvent) -> Option<Delivery> {
    match e {
        RouterEvent::Move(d, id) => if m.contains_key(id) && !(d is Noop) {
            Some(
                Delivery {
                    outbound: m[id].outbound,
                    message: ServerMessage::PlayerUpdate {
                        translation: applied(m[id].entity.translation, d),
                    },
                },
            )
        } else {
            None
        },
        _ => None,
    }
}

/// The directory after a whole stream of router events, applied one at a
/// time in the order the router delivered them.
pub open spec fn run_directory(m: Map<u128, DirectoryEntry>, events: Seq<RouterEvent>) -> Map<
    u128,
    DirectoryEntry,
>
    decreases events.len(),
{
    if events.len() == 0 {
        m
    } else {
        run_directory(step_directory(m, events[0]), events.subrange(1, events.len() as int))
    }
}

/// The outbound messages a whole stream of router events produces, in the
/// order the events were consumed.
pub open spec fn run_outputs(m: Map<u128, DirectoryEntry>, events: Seq<RouterEvent>) -> Seq<
    Delivery,
>
    decreases events.len(),
{
    if events.len() == 0 {
        Seq::empty()
    } else {
        (match step_output(m, events[0]) {
            Some(d) => seq![d],
            None => Seq::empty(),
        }) + run_outputs(
            step_directory(m, events[0]),
            events.subrange(1, events.len() as int),
        )
    }
}

/// A movement command for an identity with no prior connect changes no
/// state and produces no outbound message: it is silently dropped.
pub proof fn lemma_move_without_connect(m: Map<u128, DirectoryEntry>, d: MoveDirection, id: u128)
    requires
        !m.contains_key(id),
    ensures
        step_directory(m, RouterEvent::Move(d, id)) == m,
        step_output(m, RouterEvent::Move(d, id)) == None::<Delivery>,
{
}

/// Two movement commands from the same connection are applied in the order
/// they were sent: after the stream `[first, second]`, the connection's
/// entity stands where applying `first` and then `second` puts it.
pub proof fn lemma_moves_apply_in_order(
    m: Map<u128, DirectoryEntry>,
    id: u128,
    first: MoveDirection,
    second: MoveDirection,
)
    requires
        m.contains_key(id),
    ensures
        ({
            let after = run_directory(
                m,
                seq![RouterEvent::Move(first, id), RouterEvent::Move(second, id)],
            );
            &&& after.contains_key(id)
            &&& after[id].entity.translation == applied(
                applied(m[id].entity.translation, first),
                second,
            )
        }),
{
    let s = seq![RouterEvent::Move(first, id), RouterEvent::Move(second, id)];
    let tail = s.subrange(1, 2);
    let m1 = step_directory(m, RouterEvent::Move(first, id));
    let m2 = step_directory(m1, RouterEvent::Move(second, id));
    assert(tail =~= seq![RouterEvent::Move(second, id)]);
    assert(tail.subrange(1, 1) =~= Seq::<RouterEvent>::empty());
    assert(run_directory(m, s) == run_directory(m1, tail));
    assert(run_directory(m1, tail) == run_directory(m2, tail.subrange(1, 1)));
    assert(run_directory(m2, tail.subrange(1, 1)) == m2);
}

/// Two recognized movement commands from the same connection produce two
/// position updates in the order the commands were sent, both addressed to
/// that connection's own outbound delivery queue: the first reflects the
/// first command, the second reflects both.
pub proof fn lemma_move_outputs_in_order(
    m: Map<u128, DirectoryEntry>,
    id: u128,
    first: MoveDirection,
    second: MoveDirection,
)
    requires
        m.contains_key(id),
        !(first is Noop),
        !(second is Noop),
    ensures
        ({
            let p0 = m[id].entity.translation;
            let h = m[id].outbound;
            run_outputs(m, seq![RouterEvent::Move(first, id), RouterEvent::Move(second, id)])
                == seq![
                Delivery {
                    outbound: h,
                    message: ServerMessage::PlayerUpdate { translation: applied(p0, first) },
                },
                Delivery {
                    outbound: h,
                    message: ServerMessage::PlayerUpdate {
                        translation: applied(applied(p0, first), second),
                    },
                },
            ]
        }),
{
    let s = seq![RouterEvent::Move(first, id), RouterEvent::Move(second, id)];
    let tail = s.subrange(1, 2);
    let m1 = step_directory(m, RouterEvent::Move(first, id));
    assert(tail =~= seq![RouterEvent::Move(second, id)]);
    assert(tail.subrange(1, 1) =~= Seq::<RouterEvent>::empty());
    assert(run_outputs(m1, tail) == (match step_output(m1, tail[0]) {
        Some(d) => seq![d],
        None => Seq::<Delivery>::empty(),
    }) + run_outputs(step_directory(m1, tail[0]), tail.subrange(1, 1)));
    let d0 = step_output(m, s[0]).unwrap();
    let d1 = step_output(m1, tail[0]).unwrap();
    assert(run_outputs(m, s) =~= seq![d0, d1]);
}

/// A movement command touches only the connection that sent it: every
/// other identity's entry is exactly what it was, and the update, if one
/// is produced, is addressed to the sender's own outbound delivery queue.
pub proof fn lemma_move_is_isolated(
    m: Map<u128, DirectoryEntry>,
    id: u128,
    d: MoveDirection,
    other: u128,
)
    requires
        other != id,
    ensures
        step_directory(m, RouterEvent::Move(d, id)).contains_key(other) <==> m.contains_key(other),
        m.contains_key(other) ==> step_directory(m, RouterEvent::Move(d, id))[other] == m[other],
        step_output(m, RouterEvent::Move(d, id)) matches Some(delivery) ==> m.contains_key(id)
            && delivery.outbound == m[id].outbound,
{
}

/// After a connect event, exactly one directory entry exists for that
/// identity, holding one entity at the origin and the session's outbound
/// handle; every other identity's entry is untouched.
pub proof fn lemma_connect_registers(m: Map<u128, DirectoryEntry>, info: ClientConnectInfo)
    ensures
        ({
            let after = step_directory(m, RouterEvent::Connect(info));
            &&& after.contains_key(info.identity)
            &&& after[info.identity] == (DirectoryEntry {
                entity: SimulationEntity {
                    identity: info.identity,
                    translation: Position::spec_origin(),
                },
                outbound: info.outbound,
            })
            &&& after.dom() =~= m.dom().insert(info.identity)
            &&& forall|other: u128|
                other != info.identity && #[trigger] m.contains_key(other) ==> after[other]
                    == m[other]
        }),
        step_output(m, RouterEvent::Connect(info)) == None::<Delivery>,
{
}

/// A disconnect event removes the identity's directory entry, releases no
/// other entry, and produces no outbound message.
pub proof fn lemma_disconnect_removes(m: Map<u128, DirectoryEntry>, id: u128)
    ensures
        step_directory(m, RouterEvent::Disconnect(id)) == m.remove(id),
        !step_directory(m, RouterEvent::Disconnect(id)).contains_key(id),
        forall|other: u128|
            other != id && #[trigger] m.contains_key(other) ==> step_directory(
                m,
                RouterEvent::Disconnect(id),
            ).contains_key(other) && step_directory(m, RouterEvent::Disconnect(id))[other]
                == m[other],
        step_output(m, RouterEvent::Disconnect(id)) == None::<Delivery>,
{
}

/// The single writer of simulation state: it owns the identity directory
/// and mutates it only by consuming router events.
pub struct Simulation {
    directory: IdentityDirectory,
}

impl View for Simulation {
    type V = Map<u128, DirectoryEntry>;

    closed spec fn view(&self) -> Map<u128, DirectoryEntry> {
        self.directory@
    }
}

impl Simulation {
    /// The directory under it is well formed.
    pub closed spec fn wf(&self) -> bool {
        self.directory.wf()
    }

    /// A simulation with no connected clients.
    pub fn new() -> (r: Simulation)
        ensures
            r@ == Map::<u128, DirectoryEntry>::empty(),
            r.wf(),
    {
        Simulation { directory: IdentityDirectory::new() }
    }

    /// Read access to the directory, for delivery producers that look
    /// identities up without mutating anything.
    pub fn directory(&self) -> (r: &IdentityDirectory)
        ensures
            r@ == self@,
    {
        &self.directory
    }

    /// Consumes one router event: the dispatch step of the simulation
    /// loop. The directory changes exactly as `step_directory` says and
    /// the returned outbound message is exactly what `step_output` says.
    pub fn process_event(&mut self, event: RouterEvent) -> (r: Option<Delivery>)
        requires
            old(self).wf(),
        ensures
            final(self)@ == step_directory(old(self)@, event),
            r == step_output(old(self)@, event),
            final(self).wf(),
    {
        match event {
            RouterEvent::Connect(info) => {
                let entity = SimulationEntity {
                    identity: info.identity,
                    translation: Position::origin(),
                };
                self.directory.register(info.identity, entity, info.outbound);
                None
            },
            RouterEvent::Move(d, id) => {
                match self.directory.lookup(id) {
                    Some(entry) => {
                        let translation = entry.entity.translation.apply(d);
                        let entity = SimulationEntity { identity: entry.entity.identity, translation };
                        self.directory.register(id, entity, entry.outbound);
                        if matches!(d, MoveDirection::Noop) {
                            None
                        } else {
                            Some(
                                Delivery {
                                    outbound: entry.outbound,
                                    message: ServerMessage::PlayerUpdate { translation },
                                },
                            )
                        }
                    },
                    None => None,
                }
            },
            RouterEvent::Disconnect(id) => {
                self.directory.remove(id);
                None
            },
        }
    }

    /// Consumes a stream of router events in order, returning the outbound
    /// messages they produce, in order.
    pub fn process_events(&mut self, events: &Vec<RouterEvent>) -> (out: Vec<Delivery>)
        requires
            old(self).wf(),
        ensures
            final(self)@ == run_directory(old(self)@, events@),
            out@ == run_outputs(old(self)@, events@),
            final(self).wf(),
    {
        let mut out: Vec<Delivery> = Vec::new();
        let mut i: usize = 0;
        proof {
            assert(events@.subrange(0, events@.len() as int) =~= events@);
            assert(Seq::<Delivery>::empty() + run_outputs(old(self)@, events@) =~= run_outputs(
                old(self)@,
                events@,
            ));
        }
        while i < events.len()
            invariant
                i <= events@.len(),
                self.wf(),
                run_directory(old(self)@, events@) == run_directory(
                    self@,
                    events@.subrange(i as int, events@.len() as int),
                ),
                run_outputs(old(self)@, events@) == out@ + run_outputs(
                    self@,
                    events@.subrange(i as int, events@.len() as int),
                ),
            decreases events@.len() - i,
        {
            let ghost rest = events@.subrange(i as int, events@.len() as int);
            match self.process_event(events[i]) {
                Some(d) => out.push(d),
                None => {},
            }
            i += 1;
            proof {
                assert(rest[0] == events@[i - 1]);
                assert(rest.subrange(1, rest.len() as int) =~= events@.subrange(
                    i as int,
                    events@.len() as int,
                ));
            }
        }
        proof {
            assert(events@.subrange(events@.len() as int, events@.len() as int) =~= Seq::<
                RouterEvent,
            >::empty());
        }
        out
    }
}

} // verus!
