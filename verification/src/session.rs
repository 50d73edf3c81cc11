//! The narration state of one guild: its read channel and its playback
//! queue, which hands out one utterance at a time, oldest first.
//!
//! The queue is bounded. A request that arrives at a full queue is refused
//! and the caller is told so; nothing that was queued earlier is dropped.

use std::collections::VecDeque;
use vstd::prelude::*;
use crate::request::{NarrationRequest, RequestView, requests_view};

verus! {

/// The mathematical content of a [`GuildSession`].
pub struct SessionView {
    pub guild_id: u64,
    pub read_channel: Option<u64>,
    /// The requests that wait, oldest first.
    pub queue: Seq<RequestView>,
    /// Whether an utterance is being synthesized or played right now.
    pub playing: bool,
    /// How many requests may wait at once.
    pub capacity: nat,
}

/// The session of a guild that has just been activated.
pub open spec fn fresh_session(guild_id: u64, capacity: nat) -> SessionView {
    SessionView { guild_id, read_channel: None, queue: Seq::empty(), playing: false, capacity }
}

/// What became of a submitted request.
#[derive(Clone, Copy, Debug, PartialEq, Eq, Structural)]
pub enum Submission {
    /// It waits in the queue.
    Queued,
    /// It asks not to be spoken, so it was not queued.
    Silent,
    /// It belongs to another guild.
    WrongGuild,
    /// The queue is full; the request was refused.
    QueueFull,
    /// The guild has no session.
    NoSession,
}

/// How the utterance that was in flight ended.
#[derive(Clone, Copy, Debug, PartialEq, Eq, Structural)]
pub enum UtteranceOutcome {
    /// It was played to the end.
    Played,
    /// Its voice is not in the speaker catalog; nothing was sent out.
    UnknownSpeaker,
    /// The synthesis backend failed.
    SynthesisFailed,
    /// The audio could not be played.
    PlaybackFailed,
    /// The session went away meanwhile and the audio was thrown away.
    Discarded,
}

/// What a session answers to a request: the first of these that applies.
pub open spec fn submission_of(s: SessionView, r: RequestView) -> Submission {
    if r.guild_id != s.guild_id {
        Submission::WrongGuild
    } else if !r.read {
        Submission::Silent
    } else if s.queue.len() >= s.capacity {
        Submission::QueueFull
    } else {
        Submission::Queued
    }
}

/// The session after `r` was submitted.
pub open spec fn after_enqueue(s: SessionView, r: RequestView) -> SessionView {
    if submission_of(s, r) == Submission::Queued {
        SessionView { queue: s.queue.push(r), ..s }
    } else {
        s
    }
}

/// An utterance may start: none is in flight and one waits.
pub open spec fn can_begin(s: SessionView) -> bool {
    !s.playing && s.queue.len() > 0
}

/// The session after the worker asked for the next utterance.
pub open spec fn after_begin(s: SessionView) -> SessionView {
    if can_begin(s) {
        SessionView { queue: s.queue.drop_first(), playing: true, ..s }
    } else {
        s
    }
}

/// The session after the utterance in flight ended, however it ended.
pub open spec fn after_finish(s: SessionView) -> SessionView {
    SessionView { playing: false, ..s }
}

/// Whether the end of an utterance is written to the log: every end but a
/// successful playback is.
pub open spec fn is_logged(outcome: UtteranceOutcome) -> bool {
    outcome != UtteranceOutcome::Played
}

/// Something that happens to a session.
pub enum SessionOp {
    /// A producer submits a request.
    Enqueue(RequestView),
    /// The worker asks for the next utterance.
    Begin,
    /// The worker reports the end of the utterance in flight.
    Finish(UtteranceOutcome),
}

/// The session after one operation.
pub open spec fn step(s: SessionView, op: SessionOp) -> SessionView {
    match op {
        SessionOp::Enqueue(r) => after_enqueue(s, r),
        SessionOp::Begin => after_begin(s),
        SessionOp::Finish(_) => after_finish(s),
    }
}

/// The session after a series of operations, applied in order.
pub open spec fn run(s: SessionView, ops: Seq<SessionOp>) -> SessionView
    decreases ops.len(),
{
    if ops.len() == 0 {
        s
    } else {
        step(run(s, ops.drop_last()), ops.last())
    }
}

/// The requests that a series of operations put into the queue, in the
/// order in which they were accepted.
pub open spec fn accepted(s: SessionView, ops: Seq<SessionOp>) -> Seq<RequestView>
    decreases ops.len(),
{
    if ops.len() == 0 {
        Seq::empty()
    } else {
        let before = accepted(s, ops.drop_last());
        match ops.last() {
            SessionOp::Enqueue(r) => if submission_of(run(s, ops.drop_last()), r)
                == Submission::Queued {
                before.push(r)
            } else {
                before
            },
            _ => before,
        }
    }
}

/// The requests that a series of operations handed to the worker, in the
/// order in which they were handed out.
pub open spec fn started(s: SessionView, ops: Seq<SessionOp>) -> Seq<RequestView>
    decreases ops.len(),
{
    if ops.len() == 0 {
        Seq::empty()
    } else {
        let before = started(s, ops.drop_last());
        let state = run(s, ops.drop_last());
        match ops.last() {
            SessionOp::Begin => if can_begin(state) {
                before.push(state.queue[0])
            } else {
                before
            },
            _ => before,
        }
    }
}

/// How many utterances a series of operations brought to an end.
pub open spec fn ended(s: SessionView, ops: Seq<SessionOp>) -> nat
    decreases ops.len(),
{
    if ops.len() == 0 {
        0
    } else {
        let before = ended(s, ops.drop_last());
        match ops.last() {
            SessionOp::Finish(_) => if run(s, ops.drop_last()).playing {
                before + 1
            } else {
                before
            },
            _ => before,
        }
    }
}

/// How many utterances are in flight in a session: one or none.
pub open spec fn in_flight(s: SessionView) -> nat {
    if s.playing {
        1
    } else {
        0
    }
}

/// Utterances leave the queue in the order in which they entered it: what
/// waited at first followed by what was accepted since is, at any moment,
/// what has been handed to the worker followed by what still waits. This
/// holds however the submissions, the worker's requests and the ends of
/// utterances interleave.
pub proof fn lemma_arrival_order(s: SessionView, ops: Seq<SessionOp>)
    ensures
        s.queue + accepted(s, ops) == started(s, ops) + run(s, ops).queue,
        started(s, ops).is_prefix_of(s.queue + accepted(s, ops)),
    decreases ops.len(),
{
    if ops.len() == 0 {
        assert(s.queue + accepted(s, ops) =~= started(s, ops) + run(s, ops).queue);
    } else {
        let prev = ops.drop_last();
        lemma_arrival_order(s, prev);
        let state = run(s, prev);
        match ops.last() {
            SessionOp::Enqueue(r) => {
                if submission_of(state, r) == Submission::Queued {
                    assert(s.queue + accepted(s, prev).push(r) =~= (s.queue + accepted(
                        s,
                        prev,
                    )).push(r));
                    assert(started(s, prev) + state.queue.push(r) =~= (started(s, prev)
                        + state.queue).push(r));
                }
            },
            SessionOp::Begin => {
                if can_begin(state) {
                    assert(started(s, prev).push(state.queue[0]) + state.queue.drop_first()
                        =~= started(s, prev) + state.queue);
                }
            },
            SessionOp::Finish(_) => {},
        }
    }
}

/// At most one utterance is in flight at any moment: the utterances begun
/// exceed the utterances ended by one while the session plays and by none
/// while it does not, whatever operations arrive in whatever order.
pub proof fn lemma_single_flight(s: SessionView, ops: Seq<SessionOp>)
    ensures
        in_flight(s) + started(s, ops).len() == ended(s, ops) + in_flight(run(s, ops)),
        in_flight(run(s, ops)) <= 1,
    decreases ops.len(),
{
    if ops.len() > 0 {
        lemma_single_flight(s, ops.drop_last());
    }
}

/// While an utterance is in flight the worker is handed nothing, and the
/// queue is left as it is.
pub proof fn lemma_busy_session_starts_nothing(s: SessionView, ops: Seq<SessionOp>)
    requires
        run(s, ops).playing,
    ensures
        started(s, ops.push(SessionOp::Begin)) == started(s, ops),
        run(s, ops.push(SessionOp::Begin)) == run(s, ops),
{
    assert(ops.push(SessionOp::Begin).drop_last() == ops);
}

/// The queue never holds more than its capacity, unless it did at first.
pub proof fn lemma_queue_bounded(s: SessionView, ops: Seq<SessionOp>)
    requires
        s.queue.len() <= s.capacity,
    ensures
        run(s, ops).queue.len() <= s.capacity,
        run(s, ops).capacity == s.capacity,
        run(s, ops).guild_id == s.guild_id,
        run(s, ops).read_channel == s.read_channel,
    decreases ops.len(),
{
    if ops.len() > 0 {
        lemma_queue_bounded(s, ops.drop_last());
    }
}

/// The narration state of one guild.
#[derive(Debug)]
pub struct GuildSession {
    guild_id: u64,
    read_channel: Option<u64>,
    queue: VecDeque<NarrationRequest>,
    playing: bool,
    capacity: usize,
}

impl View for GuildSession {
    type V = SessionView;

    closed spec fn view(&self) -> SessionView {
        SessionView {
            guild_id: self.guild_id,
            read_channel: self.read_channel,
            queue: requests_view(self.queue@),
            playing: self.playing,
            capacity: self.capacity as nat,
        }
    }
}

impl GuildSession {
    /// The queue is within its bound.
    pub open spec fn wf(&self) -> bool {
        self@.queue.len() <= self@.capacity
    }

    /// The session of a guild that has just been activated, with room for
    /// `capacity` waiting requests.
    pub fn new(guild_id: u64, capacity: usize) -> (r: GuildSession)
        ensures
            r@ == fresh_session(guild_id, capacity as nat),
            r.wf(),
    {
        let r = GuildSession {
            guild_id,
            read_channel: None,
            queue: VecDeque::new(),
            playing: false,
            capacity,
        };
        assert(requests_view(r.queue@) =~= Seq::<RequestView>::empty());
        r
    }

    /// The guild of the session.
    pub fn guild_id(&self) -> (r: u64)
        ensures
            r == self@.guild_id,
    {
        self.guild_id
    }

    /// The text channel whose messages are narrated, if one is set.
    pub fn read_channel(&self) -> (r: Option<u64>)
        ensures
            r == self@.read_channel,
    {
        self.read_channel
    }

    /// Sets or clears the text channel whose messages are narrated.
    pub fn set_read_channel(&mut self, channel: Option<u64>)
        ensures
            final(self)@ == (SessionView { read_channel: channel, ..old(self)@ }),
            old(self).wf() ==> final(self).wf(),
    {
        self.read_channel = channel;
    }

    /// Whether an utterance is in flight.
    pub fn is_playing(&self) -> (r: bool)
        ensures
            r == self@.playing,
    {
        self.playing
    }

    /// How many requests wait.
    pub fn pending(&self) -> (r: usize)
        ensures
            r == self@.queue.len(),
    {
        self.queue.len()
    }

    /// How many requests may wait at once.
    pub fn capacity(&self) -> (r: usize)
        ensures
            r == self@.capacity,
    {
        self.capacity
    }

    /// Submits a request. It is queued behind all that wait, unless it is
    /// refused; the answer says which. Nothing blocks.
    pub fn enqueue(&mut self, request: NarrationRequest) -> (r: Submission)
        ensures
            r == submission_of(old(self)@, request@),
            final(self)@ == after_enqueue(old(self)@, request@),
            old(self).wf() ==> final(self).wf(),
    {
        if request.guild_id != self.guild_id {
            Submission::WrongGuild
        } else if !request.read {
            Submission::Silent
        } else if self.queue.len() >= self.capacity {
            Submission::QueueFull
        } else {
            self.queue.push_back(request);
            assert(requests_view(self.queue@) =~= requests_view(old(self).queue@).push(request@));
            Submission::Queued
        }
    }

    /// Hands the oldest waiting request to the worker and marks the session
    /// as playing. While an utterance is in flight, or when nothing waits,
    /// it hands out nothing and changes nothing.
    pub fn begin_next(&mut self) -> (r: Option<NarrationRequest>)
        ensures
            final(self)@ == after_begin(old(self)@),
            match r {
                Some(request) => can_begin(old(self)@) && request@ == old(self)@.queue[0],
                None => !can_begin(old(self)@),
            },
            old(self).wf() ==> final(self).wf(),
    {
        if self.playing {
            return None;
        }
        match self.queue.pop_front() {
            Some(request) => {
                self.playing = true;
                assert(requests_view(self.queue@) =~= requests_view(
                    old(self).queue@,
                ).drop_first());
                Some(request)
            },
            None => None,
        }
    }

    /// Records the end of the utterance in flight. Whether it was played or
    /// failed, the session is free for the next one and the queue is
    /// untouched. The result says whether the end is written to the log.
    pub fn finish(&mut self, outcome: UtteranceOutcome) -> (logged: bool)
        ensures
            final(self)@ == after_finish(old(self)@),
            logged == is_logged(outcome),
            old(self).wf() ==> final(self).wf(),
    {
        self.playing = false;
        match outcome {
            UtteranceOutcome::Played => false,
            _ => true,
        }
    }

    /// Records the end of the utterance in flight and hands out the next
    /// one in one step.
    pub fn advance(&mut self, outcome: UtteranceOutcome) -> (r: (bool, Option<NarrationRequest>))
        ensures
            final(self)@ == after_begin(after_finish(old(self)@)),
            r.0 == is_logged(outcome),
            match r.1 {
                Some(request) => old(self)@.queue.len() > 0 && request@ == old(self)@.queue[0],
                None => old(self)@.queue.len() == 0,
            },
            old(self).wf() ==> final(self).wf(),
    {
        let logged = self.finish(outcome);
        let next = self.begin_next();
        (logged, next)
    }

    /// Empties the queue without playing what waited, and returns what was
    /// thrown away. An utterance in flight is no longer counted.
    pub fn drain(&mut self) -> (discarded: Vec<NarrationRequest>)
        ensures
            final(self)@ == (SessionView {
                queue: Seq::empty(),
                playing: false,
                ..old(self)@
            }),
            requests_view(discarded@) == old(self)@.queue,
            final(self).wf(),
    {
        let mut discarded: Vec<NarrationRequest> = Vec::new();
        let ghost all = self.queue@;
        loop
            invariant
                self.guild_id == old(self).guild_id,
                self.read_channel == old(self).read_channel,
                self.capacity == old(self).capacity,
                all == old(self).queue@,
                discarded@ + self.queue@ == all,
            ensures
                self.queue@.len() == 0,
            decreases self.queue@.len(),
        {
            match self.queue.pop_front() {
                Some(request) => {
                    discarded.push(request);
                    assert(discarded@ + self.queue@ =~= all);
                },
                None => {
                    break ;
                },
            }
        }
        self.playing = false;
        assert(discarded@ =~= all);
        assert(requests_view(self.queue@) =~= Seq::<RequestView>::empty());
        discarded
    }
}

} // verus!
