//! What passes through an endpoint over its whole life: the bytes of its connections, and the
//! messages that its owner queues for the runtime.

use vstd::prelude::*;

use crate::network::host::{HostActionView, HostEvent, HostPhase, HostView};

verus! {

/// What can happen around an endpoint.
pub enum Happening {
    /// The owner queued a message for the runtime.
    Queued(Seq<u8>),
    /// Something happened to the endpoint itself. A message for the runtime that it is given is
    /// the one that has waited longest.
    Step(HostEvent),
}

/// A frame that was handed to a connection.
pub struct Delivery {
    /// The connection, counted from one.
    pub connection: nat,
    /// The message, counted from zero among all that were ever queued.
    pub message: nat,
    /// The frame.
    pub frame: Seq<u8>,
}

/// An endpoint with everything that passed through it.
pub struct Traffic {
    /// The endpoint.
    pub host: HostView,
    /// Number of connections accepted so far.
    pub connections: nat,
    /// The bytes that arrived on the latest connection.
    pub arrived: Seq<u8>,
    /// The messages passed on from the latest connection.
    pub forwarded: Seq<Seq<u8>>,
    /// Every message that was ever queued for the runtime, in order.
    pub queued: Seq<Seq<u8>>,
    /// How many of these have left the queue, taken or thrown away.
    pub gone: nat,
    /// The frames handed to connections, in order.
    pub written: Seq<Delivery>,
}

/// The messages that some actions pass on, in order.
pub open spec fn messages_forwarded(actions: Seq<HostActionView>) -> Seq<Seq<u8>>
    decreases actions.len(),
{
    if actions.len() == 0 {
        Seq::empty()
    } else {
        let before = messages_forwarded(actions.drop_last());
        match actions.last() {
            HostActionView::Forward(message) => before.push(message),
            _ => before,
        }
    }
}

/// The deliveries that some actions make of a message on a connection, in order.
pub open spec fn frames_written(
    actions: Seq<HostActionView>,
    connection: nat,
    message: nat,
) -> Seq<Delivery>
    decreases actions.len(),
{
    if actions.len() == 0 {
        Seq::empty()
    } else {
        let before = frames_written(actions.drop_last(), connection, message);
        match actions.last() {
            HostActionView::Write(frame) => before.push(Delivery { connection, message, frame }),
            _ => before,
        }
    }
}

/// Whether some actions end a connection, and with it throw away what waits for it.
pub open spec fn ends_connection(actions: Seq<HostActionView>) -> bool {
    exists|i: int| 0 <= i < actions.len() && #[trigger] actions[i] is EndConnection
}

impl Traffic {
    /// An endpoint that nothing has happened to yet.
    pub open spec fn fresh() -> Self {
        Traffic {
            host: HostView::empty(HostPhase::Accepting),
            connections: 0,
            arrived: Seq::empty(),
            forwarded: Seq::empty(),
            queued: Seq::empty(),
            gone: 0,
            written: Seq::empty(),
        }
    }

    /// The messages that wait for the runtime.
    pub open spec fn waiting(self) -> Seq<Seq<u8>> {
        self.queued.skip(self.gone as int)
    }

    /// Whether this can happen now.
    pub open spec fn possible(self, happening: Happening) -> bool {
        match happening {
            Happening::Queued(_) => true,
            Happening::Step(event) => {
                &&& self.host.expects(event)
                &&& event matches HostEvent::Outgoing(Some(message)) ==> self.gone
                    < self.queued.len() && message@ == self.queued[self.gone as int]
            },
        }
    }

    /// Where this leads to.
    pub open spec fn after(self, happening: Happening) -> Self {
        match happening {
            Happening::Queued(message) => Traffic { queued: self.queued.push(message), ..self },
            Happening::Step(event) => {
                let (host, actions) = self.host.next(event);
                Traffic {
                    host,
                    connections: if event is Accepted {
                        self.connections + 1
                    } else {
                        self.connections
                    },
                    arrived: match event {
                        HostEvent::Accepted => Seq::empty(),
                        HostEvent::BytesRead(bytes) => self.arrived + bytes@,
                        _ => self.arrived,
                    },
                    forwarded: if event is Accepted {
                        Seq::empty()
                    } else {
                        self.forwarded + messages_forwarded(actions)
                    },
                    queued: self.queued,
                    gone: if ends_connection(actions) {
                        self.queued.len()
                    } else if event matches HostEvent::Outgoing(Some(_)) {
                        self.gone + 1
                    } else {
                        self.gone
                    },
                    written: self.written + frames_written(actions, self.connections, self.gone),
                }
            },
        }
    }

    /// Messages of the runtime come out of the bytes that arrived, whole and in order, and all
    /// that are complete have been passed on or are about to be.
    pub open spec fn incoming_sound(self) -> bool {
        &&& self.host.wf()
        &&& self.forwarded.is_prefix_of(crate::network::reader::whole_frames(self.arrived))
        &&& self.host.is_connected() ==> {
            &&& self.forwarded + self.host.ready == crate::network::reader::whole_frames(
                self.arrived,
            )
            &&& self.host.held == crate::network::reader::left_over(self.arrived)
        }
    }

    /// What was written are the frames of queued messages, each once and in order.
    pub open spec fn outgoing_sound(self) -> bool {
        &&& self.gone <= self.queued.len()
        &&& forall|a: int|
            0 <= a < self.written.len() ==> {
                &&& (#[trigger] self.written[a]).message < self.gone
                &&& self.written[a].connection <= self.connections
                &&& crate::network::frame::framed(
                    self.queued[self.written[a].message as int],
                ) == Ok::<Seq<u8>, crate::fault::IoFailureView>(self.written[a].frame)
            }
        &&& forall|a: int, b: int|
            0 <= a < b < self.written.len() ==> {
                &&& (#[trigger] self.written[a]).message < (#[trigger] self.written[b]).message
                &&& self.written[a].connection <= self.written[b].connection
            }
    }
}

/// The traffic of a fresh endpoint after all this has happened.
pub open spec fn life(happenings: Seq<Happening>) -> Traffic
    decreases happenings.len(),
{
    if happenings.len() == 0 {
        Traffic::fresh()
    } else {
        life(happenings.drop_last()).after(happenings.last())
    }
}

/// Whether all this can happen, one after another, to a fresh endpoint.
pub open spec fn can_happen(happenings: Seq<Happening>) -> bool
    decreases happenings.len(),
{
    happenings.len() == 0 || (can_happen(happenings.drop_last()) && life(
        happenings.drop_last(),
    ).possible(happenings.last()))
}

/// The actions of one step hold one message or one frame at most.
proof fn single_actions(host: HostView, event: HostEvent, connection: nat, message: nat)
    ensures
        ({
            let actions = host.next(event).1;
            &&& messages_forwarded(actions) == if actions.len() == 1 && actions[0] is Forward {
                seq![actions[0]->Forward_0]
            } else {
                Seq::empty()
            }
            &&& frames_written(actions, connection, message) == if actions.len() == 1
                && actions[0] is Write {
                seq![Delivery { connection, message, frame: actions[0]->Write_0 }]
            } else {
                Seq::empty()
            }
            &&& ends_connection(actions) <==> actions.len() > 0 && actions[0] is EndConnection
        }),
{
    reveal_with_fuel(messages_forwarded, 3);
    reveal_with_fuel(frames_written, 3);
    let actions = host.next(event).1;
    if actions.len() > 0 && actions[0] is EndConnection {
        assert(ends_connection(actions));
    }
    assert(messages_forwarded(actions) =~= if actions.len() == 1 && actions[0] is Forward {
        seq![actions[0]->Forward_0]
    } else {
        Seq::empty()
    });
    assert(frames_written(actions, connection, message) =~= if actions.len() == 1
        && actions[0] is Write {
        seq![Delivery { connection, message, frame: actions[0]->Write_0 }]
    } else {
        Seq::empty()
    });
}

proof fn incoming_stays_sound(traffic: Traffic, event: HostEvent)
    requires
        traffic.incoming_sound(),
        traffic.host.expects(event),
    ensures
        traffic.after(Happening::Step(event)).incoming_sound(),
{
    let after = traffic.after(Happening::Step(event));
    single_actions(traffic.host, event, traffic.connections, traffic.gone);
    crate::network::host::endpoints_stay_sound(traffic.host, event);
    let frames = crate::network::reader::whole_frames(after.arrived);
    match event {
        HostEvent::Accepted => {
            assert(after.forwarded + after.host.ready =~= frames);
        },
        HostEvent::BytesRead(bytes) => {
            crate::network::reader::cuts_do_not_matter(traffic.arrived, bytes@);
            assert(traffic.forwarded + traffic.host.ready =~= traffic.forwarded);
            let fresh = crate::network::reader::whole_frames(traffic.host.held + bytes@);
            assert(frames == traffic.forwarded + fresh);
            if fresh.len() > 0 {
                assert(after.forwarded + after.host.ready =~= frames);
            } else {
                assert(after.forwarded =~= frames);
                assert(after.forwarded + after.host.ready =~= frames);
            }
        },
        HostEvent::Forwarded => {
            if traffic.host.ready.len() > 0 {
                assert(after.forwarded + after.host.ready =~= frames);
            } else {
                assert(after.forwarded =~= traffic.forwarded);
                assert(traffic.forwarded + traffic.host.ready =~= traffic.forwarded);
                assert(after.forwarded + after.host.ready =~= frames);
            }
        },
        _ => {
            assert(after.forwarded =~= traffic.forwarded);
        },
    }
    if after.host.is_connected() {
        assert(after.forwarded =~= frames.take(after.forwarded.len() as int));
    }
}

proof fn outgoing_stays_sound(traffic: Traffic, event: HostEvent)
    requires
        traffic.outgoing_sound(),
        traffic.possible(Happening::Step(event)),
    ensures
        traffic.after(Happening::Step(event)).outgoing_sound(),
        traffic.gone <= traffic.after(Happening::Step(event)).gone,
{
    single_actions(traffic.host, event, traffic.connections, traffic.gone);
    let after = traffic.after(Happening::Step(event));
    if event matches HostEvent::Outgoing(Some(_)) {
    } else {
        assert(after.written =~= traffic.written);
    }
}

proof fn life_is_sound(happenings: Seq<Happening>)
    requires
        can_happen(happenings),
    ensures
        life(happenings).incoming_sound(),
        life(happenings).outgoing_sound(),
    decreases happenings.len(),
{
    if happenings.len() == 0 {
        assert(crate::network::reader::whole_frames(Seq::<u8>::empty()).len() == 0);
        assert(Traffic::fresh().forwarded =~= crate::network::reader::whole_frames(
            Seq::<u8>::empty(),
        ));
    } else {
        let before = life(happenings.drop_last());
        life_is_sound(happenings.drop_last());
        match happenings.last() {
            Happening::Queued(message) => {
                assert forall|a: int| 0 <= a < before.written.len() implies before.queued.push(
                    message,
                )[(#[trigger] before.written[a]).message as int]
                    == before.queued[before.written[a].message as int] by {}
            },
            Happening::Step(event) => {
                incoming_stays_sound(before, event);
                outgoing_stays_sound(before, event);
            },
        }
    }
}

/// Messages of the runtime are passed on complete: of a runtime that writes frames, what has
/// been passed on from its connection is a prefix of what it wrote, each message whole, once and
/// in order, however its bytes are cut up and whatever else the endpoint does meanwhile. Nothing
/// complete is held back while the endpoint waits for more.
pub proof fn messages_are_passed_on_complete(
    happenings: Seq<Happening>,
    payloads: Seq<Seq<u8>>,
    missing: Seq<u8>,
)
    requires
        can_happen(happenings),
        crate::network::reader::all_bounded(payloads),
        life(happenings).arrived + missing == crate::network::reader::all_framed(payloads),
    ensures
        life(happenings).forwarded.is_prefix_of(payloads),
        life(happenings).host.phase == HostPhase::Serving ==> life(happenings).forwarded
            == crate::network::reader::whole_frames(life(happenings).arrived),
        life(happenings).host.phase == HostPhase::Serving && missing.len() == 0 ==> life(
            happenings,
        ).forwarded == payloads,
{
    let now = life(happenings);
    life_is_sound(happenings);
    crate::network::reader::parts_of_a_stream_read_as_a_prefix(now.arrived, missing, payloads);
    let frames = crate::network::reader::whole_frames(now.arrived);
    assert(now.forwarded =~= payloads.take(now.forwarded.len() as int));
    if now.host.phase == HostPhase::Serving {
        assert(now.forwarded + now.host.ready =~= now.forwarded);
        if missing.len() == 0 {
            assert(now.arrived + missing =~= now.arrived);
            crate::network::reader::payloads_come_out(payloads, Seq::empty());
            assert(crate::network::reader::all_framed(payloads) + Seq::<u8>::empty()
                =~= crate::network::reader::all_framed(payloads));
            assert(payloads + crate::network::reader::whole_frames(Seq::<u8>::empty())
                =~= payloads);
        }
    }
}

/// Messages for the runtime are written as frames, each at most once and in the order in which
/// they were queued.
pub proof fn queued_messages_are_written_in_order(happenings: Seq<Happening>)
    requires
        can_happen(happenings),
    ensures
        life(happenings).outgoing_sound(),
{
    life_is_sound(happenings);
}

/// A message for the runtime that is taken from the queue is written as one frame to the
/// connection that is there, if it is within the limit.
pub proof fn taken_messages_are_written(traffic: Traffic, message: Vec<u8>)
    requires
        traffic.possible(Happening::Step(HostEvent::Outgoing(Some(message)))),
        message@.len() <= crate::network::frame::MAX_CONTROL_MESSAGE_LENGTH,
    ensures
        ({
            let after = traffic.after(Happening::Step(HostEvent::Outgoing(Some(message))));
            &&& after.gone == traffic.gone + 1
            &&& after.written == traffic.written.push(
                Delivery {
                    connection: traffic.connections,
                    message: traffic.gone,
                    frame: crate::network::frame::framed(message@)->Ok_0,
                },
            )
        }),
{
    let event = HostEvent::Outgoing(Some(message));
    single_actions(traffic.host, event, traffic.connections, traffic.gone);
}

/// What is written later was not gone before.
proof fn gone_messages_are_not_written(earlier: Seq<Happening>, more: Seq<Happening>)
    requires
        can_happen(earlier + more),
    ensures
        can_happen(earlier),
        life(earlier).gone <= life(earlier + more).gone,
        life(earlier).connections <= life(earlier + more).connections,
        life(earlier).written.is_prefix_of(life(earlier + more).written),
        forall|a: int|
            life(earlier).written.len() <= a < life(earlier + more).written.len() ==> {
                &&& (#[trigger] life(earlier + more).written[a]).message >= life(earlier).gone
                &&& life(earlier + more).written[a].connection >= life(earlier).connections
            },
    decreases more.len(),
{
    if more.len() == 0 {
        assert(earlier + more =~= earlier);
    } else {
        let all = earlier + more;
        assert(all.drop_last() =~= earlier + more.drop_last());
        gone_messages_are_not_written(earlier, more.drop_last());
        let before = life(all.drop_last());
        life_is_sound(all.drop_last());
        if let Happening::Step(event) = all.last() {
            outgoing_stays_sound(before, event);
            single_actions(before.host, event, before.connections, before.gone);
        }
    }
}

/// What waits for one connection never reaches the next: when a connection ends nothing waits
/// any more, and whatever is written after that was queued after that.
pub proof fn waiting_messages_end_with_their_connection(
    earlier: Seq<Happening>,
    event: HostEvent,
    more: Seq<Happening>,
)
    requires
        can_happen(earlier.push(Happening::Step(event)) + more),
        ends_connection(life(earlier).host.next(event).1),
    ensures
        life(earlier.push(Happening::Step(event))).waiting() == Seq::<Seq<u8>>::empty(),
        forall|a: int|
            life(earlier).written.len() <= a < life(
                earlier.push(Happening::Step(event)) + more,
            ).written.len() ==> (#[trigger] life(
                earlier.push(Happening::Step(event)) + more,
            ).written[a]).message >= life(earlier).queued.len(),
{
    let ended = earlier.push(Happening::Step(event));
    assert(ended.drop_last() =~= earlier);
    let before = life(earlier);
    gone_messages_are_not_written(ended, more);
    single_actions(before.host, event, before.connections, before.gone);
    assert(life(ended).written =~= before.written);
    assert(life(ended).waiting() =~= Seq::<Seq<u8>>::empty());
}

} // verus!
