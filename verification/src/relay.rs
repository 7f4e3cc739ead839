//! The relay session: per-direction forwarding rules, the session state
//! machine with mutual cancellation, and its laws.
//!
//! A session owns one client socket and one upstream (robot) socket and runs
//! two forwarding loops. Each loop reads frames, decides what to forward,
//! and terminates on a close frame or a read error; whichever loop ends
//! first cancels its sibling. The unverified shell performs the socket reads
//! and writes and feeds every frame through the functions here, so all the
//! decisions — forward, drop, terminate, cancel — are made in verified code.

use vstd::prelude::*;

use crate::envelope::Envelope;
use crate::json::decoded;
use crate::json::json_text_wf;
use crate::json::parse_envelope;
use crate::markup::lemma_decoded_transform;
use crate::markup::text_fragment_of;
use crate::markup::transform_envelope;
use crate::markup::transform_spec;

verus! {

/// A frame (or read outcome) observed on the client side.
#[derive(Debug)]
pub enum ClientFrame {
    /// A text frame, forwarded upstream verbatim.
    Text(String),
    /// A close frame: this direction terminates.
    Close,
    /// Any other frame kind: ignored, the loop continues.
    Other,
    /// A failed read: this direction terminates.
    ReadError,
    /// The receive stream is exhausted: the transport ended without a close
    /// frame; this direction terminates rather than polling a dead stream.
    StreamEnd,
}

/// A frame (or read outcome) observed on the robot side.
#[derive(Debug)]
pub enum RobotFrame {
    /// A text frame, fed to the message transformer.
    Text(String),
    /// A close frame: this direction terminates.
    Close,
    /// Any other frame kind: ignored, the loop continues.
    Other,
    /// A failed read: this direction terminates.
    ReadError,
    /// The receive stream is exhausted: the transport ended without a close
    /// frame; this direction terminates rather than polling a dead stream.
    StreamEnd,
}

/// A robot-side frame after decoding: what the forwarding loop dispatches on.
#[derive(Debug)]
pub enum RobotEvent {
    /// A text frame's decoded envelope (possibly unrecognized or malformed).
    Message(Envelope),
    /// A non-text, non-close frame.
    NotText,
    /// A close frame.
    Closed,
    /// A failed read.
    Failed,
    /// An exhausted receive stream.
    Ended,
}

/// What the robot-side loop does with one frame.
#[derive(Debug)]
pub enum RobotDirective {
    /// Send this fragment text to the client.
    Forward(String),
    /// Drop the frame and keep reading.
    Skip,
    /// Terminate this direction.
    Terminate,
}

/// The state of one forwarding loop. All three non-running states are
/// terminal and equivalent from the session's point of view.
#[derive(Clone, Copy, Debug, PartialEq, Eq, Structural)]
pub enum LoopState {
    Running,
    /// The peer sent a close frame.
    Closed,
    /// A read or write failed.
    Errored,
    /// The sibling loop terminated first.
    Cancelled,
}

/// One relay session: the joint state of its two forwarding loops.
#[derive(Clone, Copy, Debug, PartialEq, Eq, Structural)]
pub struct Session {
    pub client_loop: LoopState,
    pub robot_loop: LoopState,
}

/// Whether a loop state is terminal.
pub open spec fn terminal(ls: LoopState) -> bool {
    !(ls is Running)
}

impl Session {
    /// Both loops still running.
    pub open spec fn live(self) -> bool {
        self.client_loop is Running && self.robot_loop is Running
    }

    /// Both loops terminal: the session is over.
    pub open spec fn closed(self) -> bool {
        terminal(self.client_loop) && terminal(self.robot_loop)
    }

    /// A session is never half-stopped: the first loop to terminate cancels
    /// the other in the same step.
    pub open spec fn wf(self) -> bool {
        self.live() || self.closed()
    }
}

/// The view of an optional outbound text.
pub open spec fn opt_view(o: Option<String>) -> Option<Seq<char>> {
    match o {
        Some(s) => Some(s@),
        None => None,
    }
}

/// One step of the client-to-robot direction: the next session state and
/// the text (if any) forwarded upstream. A frame arriving on a session that
/// is no longer live changes nothing and forwards nothing.
pub open spec fn client_frame_step(s: Session, f: ClientFrame) -> (Session, Option<Seq<char>>) {
    if !s.live() {
        (s, None)
    } else {
        match f {
            ClientFrame::Text(t) => (s, Some(t@)),
            ClientFrame::Close => (
                Session { client_loop: LoopState::Closed, robot_loop: LoopState::Cancelled },
                None,
            ),
            ClientFrame::Other => (s, None),
            ClientFrame::ReadError => (
                Session { client_loop: LoopState::Errored, robot_loop: LoopState::Cancelled },
                None,
            ),
            ClientFrame::StreamEnd => (
                Session { client_loop: LoopState::Errored, robot_loop: LoopState::Cancelled },
                None,
            ),
        }
    }
}

/// One step of the robot-to-client direction, over the decoded event: the
/// next session state and the fragment (if any) forwarded to the client.
pub open spec fn robot_event_step(s: Session, ev: RobotEvent) -> (Session, Option<Seq<char>>) {
    if !s.live() {
        (s, None)
    } else {
        match ev {
            RobotEvent::Message(env) => (s, transform_spec(env)),
            RobotEvent::NotText => (s, None),
            RobotEvent::Closed => (
                Session { client_loop: LoopState::Cancelled, robot_loop: LoopState::Closed },
                None,
            ),
            RobotEvent::Failed => (
                Session { client_loop: LoopState::Cancelled, robot_loop: LoopState::Errored },
                None,
            ),
            RobotEvent::Ended => (
                Session { client_loop: LoopState::Cancelled, robot_loop: LoopState::Errored },
                None,
            ),
        }
    }
}

/// An event arriving at a session: a frame on either direction, or a
/// failed write. A write error is session-terminal like a read error: the
/// loop that failed to write ends, and its sibling is cancelled.
pub enum SessionEvent {
    FromClient(ClientFrame),
    FromRobot(RobotEvent),
    /// The client-to-robot loop failed to write upstream.
    UpstreamWriteFailed,
    /// The robot-to-client loop failed to write to the client.
    ClientWriteFailed,
}

/// One session step: the next state, the text forwarded upstream, and the
/// fragment forwarded to the client.
pub open spec fn session_step(s: Session, ev: SessionEvent) -> (
    Session,
    Option<Seq<char>>,
    Option<Seq<char>>,
) {
    match ev {
        SessionEvent::FromClient(f) => {
            let step = client_frame_step(s, f);
            (step.0, step.1, None)
        },
        SessionEvent::FromRobot(e) => {
            let step = robot_event_step(s, e);
            (step.0, None, step.1)
        },
        SessionEvent::UpstreamWriteFailed => (
            if s.live() {
                Session { client_loop: LoopState::Errored, robot_loop: LoopState::Cancelled }
            } else {
                s
            },
            None,
            None,
        ),
        SessionEvent::ClientWriteFailed => (
            if s.live() {
                Session { client_loop: LoopState::Cancelled, robot_loop: LoopState::Errored }
            } else {
                s
            },
            None,
            None,
        ),
    }
}

/// Prepend an optional output to a list of outputs.
pub open spec fn opt_prepend(o: Option<Seq<char>>, rest: Seq<Seq<char>>) -> Seq<Seq<char>> {
    match o {
        Some(x) => seq![x] + rest,
        None => rest,
    }
}

/// Run a session over a sequence of events: the final state, the texts
/// forwarded upstream, and the fragments forwarded to the client, each in
/// arrival order.
pub open spec fn session_run(s: Session, evs: Seq<SessionEvent>) -> (
    Session,
    Seq<Seq<char>>,
    Seq<Seq<char>>,
)
    decreases evs.len(),
{
    if evs.len() == 0 {
        (s, Seq::empty(), Seq::empty())
    } else {
        let step = session_step(s, evs[0]);
        let rest = session_run(step.0, evs.drop_first());
        (rest.0, opt_prepend(step.1, rest.1), opt_prepend(step.2, rest.2))
    }
}

/// The relation between a robot frame and its decoded event: the event's
/// kind follows the frame's, and the envelope of a text frame is exactly
/// what `decoded` says for that text.
pub open spec fn classifies(f: RobotFrame, ev: RobotEvent) -> bool {
    &&& (f is Close) == (ev is Closed)
    &&& (f is ReadError) == (ev is Failed)
    &&& (f is StreamEnd) == (ev is Ended)
    &&& (f is Other) == (ev is NotText)
    &&& (f is Text) == (ev is Message)
    &&& f matches RobotFrame::Text(t) ==> (ev matches RobotEvent::Message(env) && decoded(
        t@,
        env,
    ))
    &&& (f matches RobotFrame::Text(t) && !json_text_wf(t@)) ==> (ev
        matches RobotEvent::Message(env) && env is Malformed)
}

/// Decode one robot frame into the event the loop dispatches on.
pub fn classify_robot_frame(f: &RobotFrame) -> (ev: RobotEvent)
    ensures
        classifies(*f, ev),
{
    match f {
        RobotFrame::Text(t) => RobotEvent::Message(parse_envelope(t.as_str())),
        RobotFrame::Close => RobotEvent::Closed,
        RobotFrame::Other => RobotEvent::NotText,
        RobotFrame::ReadError => RobotEvent::Failed,
        RobotFrame::StreamEnd => RobotEvent::Ended,
    }
}

/// The stateless robot-side dispatch: what the forwarding loop does with
/// one frame, independent of session state.
///
/// A close frame, a read error or an exhausted stream terminates the
/// direction. A text frame never does: it is forwarded exactly when the
/// text owes a fragment — then the fragment is that text's, character for
/// character — and skipped otherwise, the loop accepting the next frame.
pub fn process_robot_message(f: &RobotFrame) -> (d: RobotDirective)
    ensures
        (f is Close || f is ReadError || f is StreamEnd) <==> d is Terminate,
        f is Other ==> d is Skip,
        f matches RobotFrame::Text(t) ==> ((d is Forward) == (text_fragment_of(t@) is Some)),
        f matches RobotFrame::Text(t) ==> (d matches RobotDirective::Forward(m)
            ==> text_fragment_of(t@) == Some(m@)),
        f matches RobotFrame::Text(t) && !json_text_wf(t@) ==> d is Skip,
    {
    let ev = classify_robot_frame(f);
    match ev {
        RobotEvent::Message(env) => {
            proof {
                if let RobotFrame::Text(t) = f {
                    lemma_decoded_transform(t@, env);
                }
            }
            match transform_envelope(&env) {
                Some(m) => RobotDirective::Forward(m),
                None => RobotDirective::Skip,
            }
        },
        RobotEvent::NotText => RobotDirective::Skip,
        RobotEvent::Closed => RobotDirective::Terminate,
        RobotEvent::Failed => RobotDirective::Terminate,
        RobotEvent::Ended => RobotDirective::Terminate,
    }
}

impl Session {
    /// A freshly established session, both loops running.
    pub fn new() -> (s: Session)
        ensures
            s.live(),
    {
        Session { client_loop: LoopState::Running, robot_loop: LoopState::Running }
    }

    /// Whether both loops are still running.
    pub fn is_live(&self) -> (r: bool)
        ensures
            r == self.live(),
    {
        self.client_loop == LoopState::Running && self.robot_loop == LoopState::Running
    }

    /// Apply one client-side frame: returns the text to forward upstream,
    /// if any, and updates the loop states.
    pub fn on_client_frame(&mut self, f: &ClientFrame) -> (out: Option<String>)
        ensures
            *final(self) == client_frame_step(*old(self), *f).0,
            opt_view(out) == client_frame_step(*old(self), *f).1,
    {
        if !self.is_live() {
            return None;
        }
        match f {
            ClientFrame::Text(t) => Some(t.clone()),
            ClientFrame::Close => {
                self.client_loop = LoopState::Closed;
                self.robot_loop = LoopState::Cancelled;
                None
            },
            ClientFrame::Other => None,
            ClientFrame::ReadError => {
                self.client_loop = LoopState::Errored;
                self.robot_loop = LoopState::Cancelled;
                None
            },
            ClientFrame::StreamEnd => {
                self.client_loop = LoopState::Errored;
                self.robot_loop = LoopState::Cancelled;
                None
            },
        }
    }

    /// Apply one decoded robot-side event: returns the fragment to forward
    /// to the client, if any, and updates the loop states.
    pub fn on_robot_event(&mut self, ev: RobotEvent) -> (out: Option<String>)
        ensures
            *final(self) == robot_event_step(*old(self), ev).0,
            opt_view(out) == robot_event_step(*old(self), ev).1,
    {
        if !self.is_live() {
            return None;
        }
        match ev {
            RobotEvent::Message(env) => transform_envelope(&env),
            RobotEvent::NotText => None,
            RobotEvent::Closed => {
                self.client_loop = LoopState::Cancelled;
                self.robot_loop = LoopState::Closed;
                None
            },
            RobotEvent::Failed => {
                self.client_loop = LoopState::Cancelled;
                self.robot_loop = LoopState::Errored;
                None
            },
            RobotEvent::Ended => {
                self.client_loop = LoopState::Cancelled;
                self.robot_loop = LoopState::Errored;
                None
            },
        }
    }

    /// Apply one raw robot-side frame: decode it, then step. While the
    /// session is live, a text frame yields exactly the fragment its text
    /// owes; a terminal frame closes both loops; nothing moves afterward.
    pub fn on_robot_frame(&mut self, f: &RobotFrame) -> (out: Option<String>)
        ensures
            exists|ev: RobotEvent|
                (#[trigger] classifies(*f, ev) && *final(self) == robot_event_step(*old(self), ev).0
                    && opt_view(out) == robot_event_step(*old(self), ev).1),
            old(self).live() ==> (f matches RobotFrame::Text(t) ==> opt_view(out)
                == text_fragment_of(t@)),
            old(self).closed() ==> *final(self) == *old(self) && out is None,
            old(self).live() && (f is Close || f is ReadError || f is StreamEnd)
                ==> final(self).closed(),
            f is Text ==> *final(self) == *old(self),
    {
        let ev = classify_robot_frame(f);
        let ghost gev = ev;
        let out = self.on_robot_event(ev);
        proof {
            assert(classifies(*f, gev));
            if let RobotFrame::Text(t) = f {
                if let RobotEvent::Message(env) = gev {
                    lemma_decoded_transform(t@, env);
                }
            }
        }
        out
    }

    /// The client-to-robot loop failed to write upstream: that loop ends in
    /// error and its sibling is cancelled.
    pub fn on_upstream_write_failure(&mut self)
        ensures
            *final(self) == session_step(*old(self), SessionEvent::UpstreamWriteFailed).0,
    {
        if self.is_live() {
            self.client_loop = LoopState::Errored;
            self.robot_loop = LoopState::Cancelled;
        }
    }

    /// The robot-to-client loop failed to write to the client: that loop
    /// ends in error and its sibling is cancelled.
    pub fn on_client_write_failure(&mut self)
        ensures
            *final(self) == session_step(*old(self), SessionEvent::ClientWriteFailed).0,
    {
        if self.is_live() {
            self.client_loop = LoopState::Cancelled;
            self.robot_loop = LoopState::Errored;
        }
    }
}

/// An event that carries a close frame.
pub open spec fn is_close_event(ev: SessionEvent) -> bool {
    ||| ev matches SessionEvent::FromClient(ClientFrame::Close)
    ||| ev matches SessionEvent::FromRobot(RobotEvent::Closed)
}

/// A step taken by a session that is already over changes nothing and
/// forwards nothing, in either direction.
pub proof fn lemma_closed_step_silent(s: Session, ev: SessionEvent)
    requires
        s.closed(),
    ensures
        session_step(s, ev).0 == s,
        session_step(s, ev).1 is None,
        session_step(s, ev).2 is None,
{
}

/// A session that is over stays over and forwards nothing, whatever else
/// arrives on it.
pub proof fn lemma_closed_run_silent(s: Session, evs: Seq<SessionEvent>)
    requires
        s.closed(),
    ensures
        session_run(s, evs).0 == s,
        session_run(s, evs).1 == Seq::<Seq<char>>::empty(),
        session_run(s, evs).2 == Seq::<Seq<char>>::empty(),
    decreases evs.len(),
{
    if evs.len() > 0 {
        lemma_closed_step_silent(s, evs[0]);
        lemma_closed_run_silent(s, evs.drop_first());
    }
}

/// No step half-stops a session: the first loop to terminate cancels the
/// sibling in the same step, so the session is always live or over.
pub proof fn lemma_step_preserves_wf(s: Session, ev: SessionEvent)
    requires
        s.wf(),
    ensures
        session_step(s, ev).0.wf(),
{
}

/// An event that terminates its direction: a close frame, a read error, an
/// exhausted stream, or a failed write.
pub open spec fn is_terminal_event(ev: SessionEvent) -> bool {
    ||| ev matches SessionEvent::FromClient(ClientFrame::Close)
    ||| ev matches SessionEvent::FromClient(ClientFrame::ReadError)
    ||| ev matches SessionEvent::FromClient(ClientFrame::StreamEnd)
    ||| ev matches SessionEvent::FromRobot(RobotEvent::Closed)
    ||| ev matches SessionEvent::FromRobot(RobotEvent::Failed)
    ||| ev matches SessionEvent::FromRobot(RobotEvent::Ended)
    ||| ev is UpstreamWriteFailed
    ||| ev is ClientWriteFailed
}

/// The first loop to reach a terminal state cancels its sibling in the same
/// step: right after any terminal event, a live session is closed, the step
/// itself forwards nothing, and no later event forwards anything on that
/// session in either direction.
pub proof fn lemma_terminal_event_quiesces(s: Session, ev: SessionEvent, later: Seq<SessionEvent>)
    requires
        s.live(),
        is_terminal_event(ev),
    ensures
        session_step(s, ev).0.closed(),
        session_step(s, ev).1 is None,
        session_step(s, ev).2 is None,
        session_run(session_step(s, ev).0, later).1 == Seq::<Seq<char>>::empty(),
        session_run(session_step(s, ev).0, later).2 == Seq::<Seq<char>>::empty(),
{
    lemma_closed_run_silent(session_step(s, ev).0, later);
}

/// A close frame on either direction ends the session: both loops terminal,
/// nothing forwarded on the session afterward.
pub proof fn lemma_close_quiesces(s: Session, ev: SessionEvent, later: Seq<SessionEvent>)
    requires
        s.live(),
        is_close_event(ev),
    ensures
        session_step(s, ev).0.closed(),
        session_step(s, ev).1 is None,
        session_step(s, ev).2 is None,
        session_run(session_step(s, ev).0, later).1 == Seq::<Seq<char>>::empty(),
        session_run(session_step(s, ev).0, later).2 == Seq::<Seq<char>>::empty(),
{
    lemma_terminal_event_quiesces(s, ev, later);
}

/// A text frame that decodes to nothing usable — invalid JSON, a missing or
/// non-string `type`, an unrecognized variant, or a bad payload — produces
/// no fragment and leaves the loop running.
pub proof fn lemma_bad_frame_harmless(s: Session, env: Envelope)
    requires
        s.live(),
        env is Malformed || env is Unrecognized,
    ensures
        robot_event_step(s, RobotEvent::Message(env)).0 == s,
        robot_event_step(s, RobotEvent::Message(env)).1 is None,
{
}

/// Run two sessions under an arbitrary interleaving. At each scheduling
/// step the chosen session consumes its next event, if it has one left; the
/// fragment it produces, if any, is delivered to that session's own client.
/// Returns the fragments delivered to each client.
pub open spec fn interleaved_deliveries(
    a: Session,
    aevs: Seq<SessionEvent>,
    b: Session,
    bevs: Seq<SessionEvent>,
    sched: Seq<bool>,
) -> (Seq<Seq<char>>, Seq<Seq<char>>)
    decreases sched.len(),
{
    if sched.len() == 0 {
        (Seq::empty(), Seq::empty())
    } else if sched[0] {
        if aevs.len() == 0 {
            interleaved_deliveries(a, aevs, b, bevs, sched.drop_first())
        } else {
            let step = session_step(a, aevs[0]);
            let rest = interleaved_deliveries(
                step.0,
                aevs.drop_first(),
                b,
                bevs,
                sched.drop_first(),
            );
            (opt_prepend(step.2, rest.0), rest.1)
        }
    } else {
        if bevs.len() == 0 {
            interleaved_deliveries(a, aevs, b, bevs, sched.drop_first())
        } else {
            let step = session_step(b, bevs[0]);
            let rest = interleaved_deliveries(
                a,
                aevs,
                step.0,
                bevs.drop_first(),
                sched.drop_first(),
            );
            (rest.0, opt_prepend(step.2, rest.1))
        }
    }
}

/// How many events one side consumes under a schedule, out of the `n` it
/// has to offer.
pub open spec fn consumed(n: nat, sched: Seq<bool>, side: bool) -> nat
    decreases sched.len(),
{
    if sched.len() == 0 {
        0
    } else if sched[0] == side && n > 0 {
        1 + consumed((n - 1) as nat, sched.drop_first(), side)
    } else {
        consumed(n, sched.drop_first(), side)
    }
}

pub proof fn lemma_consumed_le(n: nat, sched: Seq<bool>, side: bool)
    ensures
        consumed(n, sched, side) <= n,
    decreases sched.len(),
{
    if sched.len() > 0 {
        if sched[0] == side && n > 0 {
            lemma_consumed_le((n - 1) as nat, sched.drop_first(), side);
        } else {
            lemma_consumed_le(n, sched.drop_first(), side);
        }
    }
}

/// Concurrently open sessions never cross-deliver: under every interleaving,
/// the fragments delivered to one session's client are exactly what that
/// session alone produces from the events it consumed, untouched by the
/// other session's state, events or schedule share.
pub proof fn lemma_sessions_isolated(
    a: Session,
    aevs: Seq<SessionEvent>,
    b: Session,
    bevs: Seq<SessionEvent>,
    sched: Seq<bool>,
)
    ensures
        interleaved_deliveries(a, aevs, b, bevs, sched).0 == session_run(
            a,
            aevs.take(consumed(aevs.len(), sched, true) as int),
        ).2,
        interleaved_deliveries(a, aevs, b, bevs, sched).1 == session_run(
            b,
            bevs.take(consumed(bevs.len(), sched, false) as int),
        ).2,
    decreases sched.len(),
{
    if sched.len() == 0 {
        assert(aevs.take(0) =~= Seq::<SessionEvent>::empty());
        assert(bevs.take(0) =~= Seq::<SessionEvent>::empty());
    } else if sched[0] {
        if aevs.len() == 0 {
            lemma_sessions_isolated(a, aevs, b, bevs, sched.drop_first());
        } else {
            let step = session_step(a, aevs[0]);
            lemma_sessions_isolated(step.0, aevs.drop_first(), b, bevs, sched.drop_first());
            let c = consumed((aevs.len() - 1) as nat, sched.drop_first(), true);
            lemma_consumed_le((aevs.len() - 1) as nat, sched.drop_first(), true);
            let taken = aevs.take(1 + c as int);
            assert(taken[0] == aevs[0]);
            assert(taken.drop_first() =~= aevs.drop_first().take(c as int));
        }
    } else {
        if bevs.len() == 0 {
            lemma_sessions_isolated(a, aevs, b, bevs, sched.drop_first());
        } else {
            let step = session_step(b, bevs[0]);
            lemma_sessions_isolated(a, aevs, step.0, bevs.drop_first(), sched.drop_first());
            let c = consumed((bevs.len() - 1) as nat, sched.drop_first(), false);
            lemma_consumed_le((bevs.len() - 1) as nat, sched.drop_first(), false);
            let taken = bevs.take(1 + c as int);
            assert(taken[0] == bevs[0]);
            assert(taken.drop_first() =~= bevs.drop_first().take(c as int));
        }
    }
}

} // verus!
