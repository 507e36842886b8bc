//! The relay: once two connections are paired, a loop forwards every frame
//! received from one side to the other, verbatim and in order, until either
//! side's stream ends or a forward fails.
//!
//! The decisions of that loop live here as a step machine: the caller reports
//! what a receive produced, the machine answers with the forwarding action
//! and keeps, as ghost state, the sequences of frames it has handed over for
//! delivery in each direction.

use vstd::prelude::*;

verus! {

/// One WebSocket frame, as the relay sees it: an opaque payload under one of
/// the transport's frame types. The relay never inspects the payload.
#[derive(Clone, Debug, PartialEq, Eq)]
pub enum Frame {
    Text(String),
    Binary(Vec<u8>),
    Ping(Vec<u8>),
    Pong(Vec<u8>),
    Close(Option<CloseReason>),
}

/// The payload a close frame may carry.
#[derive(Clone, Debug, PartialEq, Eq)]
pub struct CloseReason {
    pub code: u16,
    pub reason: String,
}

/// The two roles of a paired session.
#[derive(Clone, Copy, Debug, PartialEq, Eq, Structural)]
pub enum Side {
    Creator,
    Joiner,
}

/// The peer of a side.
pub open spec fn opposite(side: Side) -> Side {
    match side {
        Side::Creator => Side::Joiner,
        Side::Joiner => Side::Creator,
    }
}

impl Side {
    /// The peer of this side.
    pub fn other(self) -> (r: Side)
        ensures
            r == opposite(self),
    {
        match self {
            Side::Creator => Side::Joiner,
            Side::Joiner => Side::Creator,
        }
    }
}

/// What one receive on a side produced: a frame, or the terminal signal
/// (end of stream, a read error, or an abrupt close — the relay treats them
/// all alike).
#[derive(Clone, Debug, PartialEq, Eq)]
pub enum RecvOutcome {
    Frame(Frame),
    Ended,
}

/// What the relay asks its caller to do next.
#[derive(Clone, Debug, PartialEq, Eq)]
pub enum RelayAction {
    /// Deliver the frame to the named side, unchanged.
    Forward { to: Side, frame: Frame },
    /// End the session for both sides at once.
    Stop,
}

/// The relay's state, mathematically: whether the session is still live, and
/// the frames handed over for delivery to each side, in order.
pub ghost struct RelayModel {
    pub active: bool,
    pub to_joiner: Seq<Frame>,
    pub to_creator: Seq<Frame>,
}

/// The frames handed over for delivery to one side.
pub open spec fn forwarded_to(m: RelayModel, to: Side) -> Seq<Frame> {
    match to {
        Side::Joiner => m.to_joiner,
        Side::Creator => m.to_creator,
    }
}

/// One step of the relay loop: a frame received from a side is forwarded to
/// its peer verbatim; a terminal signal stops the session with nothing more
/// forwarded.
pub open spec fn relay_step(m: RelayModel, from: Side, out: RecvOutcome) -> (RelayModel, RelayAction) {
    match out {
        RecvOutcome::Frame(f) => {
            let stepped = match from {
                Side::Creator => RelayModel { to_joiner: m.to_joiner.push(f), ..m },
                Side::Joiner => RelayModel { to_creator: m.to_creator.push(f), ..m },
            };
            (stepped, RelayAction::Forward { to: opposite(from), frame: f })
        },
        RecvOutcome::Ended => (RelayModel { active: false, ..m }, RelayAction::Stop),
    }
}

/// The relay's state after receiving a whole sequence of frames from one
/// side, first to last.
pub open spec fn relay_run(m: RelayModel, from: Side, frames: Seq<Frame>) -> RelayModel
    decreases frames.len(),
{
    if frames.len() == 0 {
        m
    } else {
        relay_run(relay_step(m, from, RecvOutcome::Frame(frames[0])).0, from, frames.drop_first())
    }
}

/// The relay loop's decisions for one paired session. The ghost sequences
/// record every frame handed over for delivery, per direction.
pub struct Relay {
    active: bool,
    to_joiner: Ghost<Seq<Frame>>,
    to_creator: Ghost<Seq<Frame>>,
}

impl View for Relay {
    type V = RelayModel;

    closed spec fn view(&self) -> RelayModel {
        RelayModel { active: self.active, to_joiner: self.to_joiner@, to_creator: self.to_creator@ }
    }
}

impl Relay {
    /// Starts the session: live, nothing forwarded yet.
    pub fn new() -> (r: Relay)
        ensures
            r@.active,
            r@.to_joiner =~= Seq::empty(),
            r@.to_creator =~= Seq::empty(),
    {
        Relay { active: true, to_joiner: Ghost(Seq::empty()), to_creator: Ghost(Seq::empty()) }
    }

    /// Takes what one receive produced and answers with the next action,
    /// exactly as `relay_step` says: a frame goes to the peer verbatim, a
    /// terminal signal stops the session.
    pub fn on_recv(&mut self, from: Side, out: RecvOutcome) -> (act: RelayAction)
        requires
            old(self)@.active,
        ensures
            final(self)@ == relay_step(old(self)@, from, out).0,
            act == relay_step(old(self)@, from, out).1,
    {
        match out {
            RecvOutcome::Frame(frame) => {
                let ghost f = frame;
                let to = from.other();
                match from {
                    Side::Creator => {
                        self.to_joiner = Ghost(self.to_joiner@.push(f));
                    },
                    Side::Joiner => {
                        self.to_creator = Ghost(self.to_creator@.push(f));
                    },
                }
                RelayAction::Forward { to, frame }
            },
            RecvOutcome::Ended => {
                self.active = false;
                RelayAction::Stop
            },
        }
    }

    /// A forward send failed: the session ends for both sides; what was
    /// already handed over stands.
    pub fn halt(&mut self)
        ensures
            final(self)@ == (RelayModel { active: false, ..old(self)@ }),
    {
        self.active = false;
    }

    /// Whether the session is still live.
    pub fn is_active(&self) -> (r: bool)
        ensures
            r == self@.active,
    {
        self.active
    }
}

/// Law: after pairing, a sequence of frames received from one side is
/// forwarded to the peer verbatim — the frames handed over for delivery to
/// the peer are exactly the frames received, with identical type and
/// payload, in receipt order — while the opposite direction is untouched and
/// the session stays live.
pub proof fn lemma_frames_forwarded_in_order(m: RelayModel, from: Side, frames: Seq<Frame>)
    requires
        m.active,
    ensures
        relay_run(m, from, frames).active,
        forwarded_to(relay_run(m, from, frames), opposite(from))
            =~= forwarded_to(m, opposite(from)) + frames,
        forwarded_to(relay_run(m, from, frames), from) =~= forwarded_to(m, from),
    decreases frames.len(),
{
    if frames.len() == 0 {
        assert(forwarded_to(m, opposite(from)) + frames =~= forwarded_to(m, opposite(from)));
    } else {
        let stepped = relay_step(m, from, RecvOutcome::Frame(frames[0])).0;
        lemma_frames_forwarded_in_order(stepped, from, frames.drop_first());
        assert(forwarded_to(m, opposite(from)).push(frames[0]) + frames.drop_first()
            =~= forwarded_to(m, opposite(from)) + frames);
    }
}

/// Law: termination is bilateral and immediate — a terminal signal from
/// either side stops the whole session in one step, with nothing further
/// forwarded in either direction.
pub proof fn lemma_end_is_bilateral(m: RelayModel, from: Side)
    ensures
        !relay_step(m, from, RecvOutcome::Ended).0.active,
        relay_step(m, from, RecvOutcome::Ended).1 == RelayAction::Stop,
        relay_step(m, from, RecvOutcome::Ended).0.to_joiner == m.to_joiner,
        relay_step(m, from, RecvOutcome::Ended).0.to_creator == m.to_creator,
{
}

} // verus!
