//! The duplex relay engine: the per-connection state machine that decides,
//! for each read outcome on either side of an established connection, what
//! the surrounding tasks must write, shut down, or tear down.
//!
//! A connection pairs a TCP-side stream with an overlay-side stream. Two
//! copy directions run concurrently; each direction reads chunks from its
//! source and forwards them verbatim to the other side. A zero-length read
//! is a definitive end-of-stream signal for that direction (half-close),
//! not a condition to retry; a read or write error fails the whole
//! connection.

use vstd::prelude::*;

verus! {

/// The two endpoints of a connection, named by transport kind.
#[derive(Clone, Copy, Debug, PartialEq, Eq, Structural)]
pub enum Side {
    Tcp,
    Overlay,
}

/// The endpoint opposite `s`.
pub open spec fn other_side(s: Side) -> Side {
    match s {
        Side::Tcp => Side::Overlay,
        Side::Overlay => Side::Tcp,
    }
}

/// The endpoint opposite `s`.
pub fn opposite(s: Side) -> (r: Side)
    ensures
        r == other_side(s),
{
    match s {
        Side::Tcp => Side::Overlay,
        Side::Overlay => Side::Tcp,
    }
}

/// The lifecycle of one connection. A connection is `Established` when both
/// streams exist, `Relaying` while the two copy directions run, `HalfClosed`
/// once exactly one direction has observed end-of-stream, and `Closed` when
/// both directions have ended or a failure has been torn down; a read or
/// write error puts it in `Failed` until the teardown completes.
#[derive(Clone, Copy, Debug, PartialEq, Eq, Structural)]
pub enum ConnState {
    Established,
    Relaying,
    HalfClosed(Side),
    Closed,
    Failed,
}

/// What one copy direction observed: a chunk of data read from a side, a
/// zero-length read (end-of-stream) from a side, or a read or write error
/// involving a side.
#[derive(Debug)]
pub enum RelayEvent {
    Data(Side, Vec<u8>),
    Eof(Side),
    Failure(Side),
}

/// What the surrounding task must do next: write the bytes to the named
/// side, signal end-of-input to the named side's write direction, or close
/// both streams.
#[derive(Debug)]
pub enum RelayAction {
    Forward(Side, Vec<u8>),
    ShutdownWrite(Side),
    TearDownBoth,
}

/// The mathematical state of one connection: its lifecycle state, which
/// directions have ended, whether it failed, and the bytes relayed so far
/// in each direction.
#[verifier::ext_equal]
pub ghost struct Model {
    pub state: ConnState,
    pub tcp_ended: bool,
    pub overlay_ended: bool,
    pub failed: bool,
    pub to_overlay: Seq<u8>,
    pub to_tcp: Seq<u8>,
}

/// The mathematical form of a [`RelayEvent`]: chunks as sequences.
pub ghost enum Ev {
    Data(Side, Seq<u8>),
    Eof(Side),
    Failure(Side),
}

impl View for RelayEvent {
    type V = Ev;

    open spec fn view(&self) -> Ev {
        match self {
            RelayEvent::Data(s, buf) => Ev::Data(*s, buf@),
            RelayEvent::Eof(s) => Ev::Eof(*s),
            RelayEvent::Failure(s) => Ev::Failure(*s),
        }
    }
}

impl Model {
    /// Whether the direction reading from `s` has observed end-of-stream.
    pub open spec fn ended(self, s: Side) -> bool {
        match s {
            Side::Tcp => self.tcp_ended,
            Side::Overlay => self.overlay_ended,
        }
    }

    /// All bytes read from `s` and forwarded to the other side, in order.
    pub open spec fn relayed_from(self, s: Side) -> Seq<u8> {
        match s {
            Side::Tcp => self.to_overlay,
            Side::Overlay => self.to_tcp,
        }
    }

    /// The state invariant: the lifecycle state agrees with the per-direction
    /// end flags and the failure flag. In particular the connection is
    /// `Closed` only once both directions have ended or it has failed.
    pub open spec fn wf(self) -> bool {
        match self.state {
            ConnState::Established => !self.tcp_ended && !self.overlay_ended && !self.failed,
            ConnState::Relaying => !self.tcp_ended && !self.overlay_ended && !self.failed,
            ConnState::HalfClosed(s) => self.ended(s) && !self.ended(other_side(s))
                && !self.failed,
            ConnState::Closed => self.failed || (self.tcp_ended && self.overlay_ended),
            ConnState::Failed => self.failed,
        }
    }

    /// Whether `ev` can be observed next: the copy directions only run while
    /// the connection is `Relaying` or `HalfClosed`, and a direction that has
    /// ended reads nothing further.
    pub open spec fn accepts(self, ev: Ev) -> bool {
        &&& (self.state is Relaying || self.state is HalfClosed)
        &&& match ev {
            Ev::Data(s, _) => !self.ended(s),
            Ev::Eof(s) => !self.ended(s),
            Ev::Failure(_) => true,
        }
    }

    /// The transition relation of the connection state machine.
    ///
    /// Data from a live side is appended, verbatim and in order, to the
    /// bytes relayed toward the other side. End-of-stream from a side ends
    /// that direction alone: the connection half-closes, and reaches
    /// `Closed` only if the other direction had already ended. Any error
    /// fails the whole connection.
    pub open spec fn step(self, ev: Ev) -> Model {
        match ev {
            Ev::Data(s, chunk) => Model {
                to_overlay: if s is Tcp { self.to_overlay + chunk } else { self.to_overlay },
                to_tcp: if s is Overlay { self.to_tcp + chunk } else { self.to_tcp },
                ..self
            },
            Ev::Eof(s) => Model {
                tcp_ended: self.tcp_ended || s is Tcp,
                overlay_ended: self.overlay_ended || s is Overlay,
                state: if self.ended(other_side(s)) {
                    ConnState::Closed
                } else {
                    ConnState::HalfClosed(s)
                },
                ..self
            },
            Ev::Failure(_) => Model { state: ConnState::Failed, failed: true, ..self },
        }
    }

    /// The action owed for `ev`, against which the executable step is checked.
    pub open spec fn action_for(ev: Ev, a: RelayAction) -> bool {
        match ev {
            Ev::Data(s, chunk) => a matches RelayAction::Forward(t, out) && t == other_side(s)
                && out@ == chunk,
            Ev::Eof(s) => a == RelayAction::ShutdownWrite(other_side(s)),
            Ev::Failure(_) => a == RelayAction::TearDownBoth,
        }
    }
}

/// A step taken from a well-formed state on an acceptable event lands in a
/// well-formed state.
pub proof fn lemma_step_preserves_wf(m: Model, ev: Ev)
    requires
        m.wf(),
        m.accepts(ev),
    ensures
        m.step(ev).wf(),
{
}

/// The state after observing a whole sequence of events, in order.
pub open spec fn run(m: Model, evs: Seq<Ev>) -> Model
    decreases evs.len(),
{
    if evs.len() == 0 {
        m
    } else {
        run(m, evs.drop_last()).step(evs.last())
    }
}

/// Whether every event of `evs` is acceptable at the state it meets.
pub open spec fn accepts_all(m: Model, evs: Seq<Ev>) -> bool
    decreases evs.len(),
{
    if evs.len() == 0 {
        true
    } else {
        accepts_all(m, evs.drop_last()) && run(m, evs.drop_last()).accepts(evs.last())
    }
}

/// The concatenation, in order, of every data chunk that `evs` reads
/// from side `s`: the bytes the peer behind `s` wrote.
pub open spec fn data_from(evs: Seq<Ev>, s: Side) -> Seq<u8>
    decreases evs.len(),
{
    if evs.len() == 0 {
        Seq::empty()
    } else {
        data_from(evs.drop_last(), s) + match evs.last() {
            Ev::Data(t, chunk) => if t == s {
                chunk
            } else {
                Seq::<u8>::empty()
            },
            _ => Seq::<u8>::empty(),
        }
    }
}

/// Duplex fidelity: over any sequence of observed events, the bytes relayed
/// out of side `s` toward the other side are exactly the bytes read from
/// `s`, in order — no loss, duplication, or reordering, for single and
/// multi-chunk writes, and symmetrically for either side.
pub proof fn lemma_duplex_fidelity(m: Model, evs: Seq<Ev>, s: Side)
    requires
        m.wf(),
        accepts_all(m, evs),
    ensures
        run(m, evs).relayed_from(s) == m.relayed_from(s) + data_from(evs, s),
    decreases evs.len(),
{
    if evs.len() == 0 {
        assert(run(m, evs).relayed_from(s) =~= m.relayed_from(s) + data_from(evs, s));
    } else {
        lemma_duplex_fidelity(m, evs.drop_last(), s);
        assert(run(m, evs).relayed_from(s) =~= m.relayed_from(s) + data_from(evs, s));
    }
}

/// Running a sequence of acceptable events preserves the state invariant.
pub proof fn lemma_run_preserves_wf(m: Model, evs: Seq<Ev>)
    requires
        m.wf(),
        accepts_all(m, evs),
    ensures
        run(m, evs).wf(),
    decreases evs.len(),
{
    if evs.len() != 0 {
        lemma_run_preserves_wf(m, evs.drop_last());
        lemma_step_preserves_wf(run(m, evs.drop_last()), evs.last());
    }
}

/// Half-close independence: once side `s` has closed its write direction
/// (its end-of-stream was observed, so the connection is `HalfClosed(s)`),
/// the other side can still deliver data toward `s`, verbatim, without
/// disturbing the half-closed state; and the connection reaches `Closed`
/// exactly when the other direction also ends.
pub proof fn lemma_half_close_independence(m: Model, s: Side, chunk: Seq<u8>)
    requires
        m.wf(),
        m.state == ConnState::HalfClosed(s),
    ensures
        m.accepts(Ev::Data(other_side(s), chunk)),
        m.step(Ev::Data(other_side(s), chunk)).state == ConnState::HalfClosed(s),
        m.step(Ev::Data(other_side(s), chunk)).relayed_from(other_side(s)) == m.relayed_from(
            other_side(s),
        ) + chunk,
        m.step(Ev::Eof(other_side(s))).state == ConnState::Closed,
{
}

/// One entry of an interleaved schedule: which connection an event belongs
/// to, and the event itself.
pub ghost struct TaggedEv {
    pub conn: int,
    pub ev: Ev,
}

/// The states of a family of connections after an interleaved schedule of
/// events has run: each event steps the one connection it belongs to.
pub open spec fn run_tagged(cs: Map<int, Model>, sched: Seq<TaggedEv>) -> Map<int, Model>
    decreases sched.len(),
{
    if sched.len() == 0 {
        cs
    } else {
        let prev = run_tagged(cs, sched.drop_last());
        prev.insert(sched.last().conn, prev[sched.last().conn].step(sched.last().ev))
    }
}

/// The subsequence of `sched` that belongs to connection `i`, untagged.
pub open spec fn project(sched: Seq<TaggedEv>, i: int) -> Seq<Ev>
    decreases sched.len(),
{
    if sched.len() == 0 {
        Seq::empty()
    } else {
        project(sched.drop_last(), i) + if sched.last().conn == i {
            seq![sched.last().ev]
        } else {
            Seq::<Ev>::empty()
        }
    }
}

/// Every event of the schedule belongs to a connection of the family.
pub open spec fn tags_in(sched: Seq<TaggedEv>, dom: Set<int>) -> bool {
    forall|k: int| 0 <= k < sched.len() ==> dom.contains(#[trigger] sched[k].conn)
}

/// Connection isolation: connections are independent. However many
/// connections run at once and however their events interleave, each
/// connection ends in exactly the state it reaches on its own events alone —
/// so each side observes only its own connection's bytes, with no
/// cross-talk.
pub proof fn lemma_connection_isolation(cs: Map<int, Model>, sched: Seq<TaggedEv>, i: int)
    requires
        cs.dom().contains(i),
        tags_in(sched, cs.dom()),
    ensures
        run_tagged(cs, sched).dom() == cs.dom(),
        run_tagged(cs, sched)[i] == run(cs[i], project(sched, i)),
    decreases sched.len(),
{
    if sched.len() == 0 {
        assert(project(sched, i) =~= Seq::<Ev>::empty());
    } else {
        let head = sched.drop_last();
        let last = sched.last();
        assert forall|k: int| 0 <= k < head.len() implies cs.dom().contains(
            #[trigger] head[k].conn,
        ) by {
            assert(head[k] == sched[k]);
        }
        lemma_connection_isolation(cs, head, i);
        let prev = run_tagged(cs, head);
        assert(run_tagged(cs, sched).dom() =~= cs.dom());
        if last.conn == i {
            let p = project(head, i);
            assert(project(sched, i) =~= p.push(last.ev));
            assert(p.push(last.ev).drop_last() =~= p);
        } else {
            assert(project(sched, i) =~= project(head, i));
        }
    }
}

/// One live connection: two paired streams and the relay state the engine
/// keeps for them. The ghost fields carry the bytes relayed so far, so that
/// contracts can speak of whole byte streams.
pub struct Connection {
    pub state: ConnState,
    pub tcp_ended: bool,
    pub overlay_ended: bool,
    pub failed: bool,
    pub to_overlay: Ghost<Seq<u8>>,
    pub to_tcp: Ghost<Seq<u8>>,
}

impl View for Connection {
    type V = Model;

    open spec fn view(&self) -> Model {
        Model {
            state: self.state,
            tcp_ended: self.tcp_ended,
            overlay_ended: self.overlay_ended,
            failed: self.failed,
            to_overlay: self.to_overlay@,
            to_tcp: self.to_tcp@,
        }
    }
}

impl Connection {
    /// A freshly established connection: both streams live, nothing relayed.
    pub fn new() -> (c: Self)
        ensures
            c@.wf(),
            c@.state == ConnState::Established,
            c@.relayed_from(Side::Tcp) == Seq::<u8>::empty(),
            c@.relayed_from(Side::Overlay) == Seq::<u8>::empty(),
    {
        Connection {
            state: ConnState::Established,
            tcp_ended: false,
            overlay_ended: false,
            failed: false,
            to_overlay: Ghost(Seq::empty()),
            to_tcp: Ghost(Seq::empty()),
        }
    }

    /// Start the two copy directions: the established connection begins
    /// relaying. Nothing else changes.
    pub fn start_relaying(&mut self)
        requires
            old(self)@.wf(),
            old(self)@.state == ConnState::Established,
        ensures
            final(self)@ == (Model { state: ConnState::Relaying, ..old(self)@ }),
            final(self)@.wf(),
    {
        self.state = ConnState::Relaying;
        proof {
            assert(final(self)@ =~= (Model { state: ConnState::Relaying, ..old(self)@ }));
        }
    }

    /// Advance the connection by one observed event and return the action
    /// the surrounding task owes for it.
    ///
    /// Data read from a live side is forwarded verbatim to the other side.
    /// End-of-stream from one side half-closes that direction only: the
    /// other side is told end-of-input (so it can finish on its own terms),
    /// and the connection reaches `Closed` only once both directions have
    /// ended. A read or write error fails the connection and both streams
    /// are torn down.
    pub fn on_event(&mut self, ev: RelayEvent) -> (a: RelayAction)
        requires
            old(self)@.wf(),
            old(self)@.accepts(ev@),
        ensures
            final(self)@ == old(self)@.step(ev@),
            final(self)@.wf(),
            Model::action_for(ev@, a),
    {
        proof {
            lemma_step_preserves_wf(old(self)@, ev@);
        }
        match ev {
            RelayEvent::Data(s, buf) => {
                let t = opposite(s);
                match s {
                    Side::Tcp => {
                        self.to_overlay = Ghost(self.to_overlay@ + buf@);
                    },
                    Side::Overlay => {
                        self.to_tcp = Ghost(self.to_tcp@ + buf@);
                    },
                }
                proof {
                    assert(final(self)@ =~= old(self)@.step(ev@));
                }
                RelayAction::Forward(t, buf)
            },
            RelayEvent::Eof(s) => {
                match s {
                    Side::Tcp => {
                        self.tcp_ended = true;
                    },
                    Side::Overlay => {
                        self.overlay_ended = true;
                    },
                }
                let both = self.tcp_ended && self.overlay_ended;
                self.state = if both {
                    ConnState::Closed
                } else {
                    ConnState::HalfClosed(s)
                };
                proof {
                    assert(final(self)@ =~= old(self)@.step(ev@));
                }
                RelayAction::ShutdownWrite(opposite(s))
            },
            RelayEvent::Failure(_) => {
                self.state = ConnState::Failed;
                self.failed = true;
                proof {
                    assert(final(self)@ =~= old(self)@.step(ev@));
                }
                RelayAction::TearDownBoth
            },
        }
    }

    /// Finish tearing down a failed connection: both streams have been
    /// released, the connection is closed.
    pub fn finish_teardown(&mut self)
        requires
            old(self)@.wf(),
            old(self)@.state == ConnState::Failed,
        ensures
            final(self)@ == (Model { state: ConnState::Closed, ..old(self)@ }),
            final(self)@.wf(),
    {
        self.state = ConnState::Closed;
        proof {
            assert(final(self)@ =~= (Model { state: ConnState::Closed, ..old(self)@ }));
        }
    }
}

/// Turn one read outcome into the event it means: a zero-length read is a
/// definitive end-of-stream signal for that direction, never an empty data
/// chunk; anything else is data to forward.
pub fn classify_read(side: Side, buf: Vec<u8>) -> (ev: RelayEvent)
    ensures
        buf@.len() == 0 ==> ev == RelayEvent::Eof(side),
        buf@.len() > 0 ==> (ev matches RelayEvent::Data(s, b) && s == side && b@ == buf@),
{
    if buf.len() == 0 {
        RelayEvent::Eof(side)
    } else {
        RelayEvent::Data(side, buf)
    }
}

} // verus!
