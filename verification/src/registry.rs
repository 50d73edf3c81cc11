//! The registry of guild sessions: at most one session per guild, created
//! on activation and destroyed on leave.
//!
//! The registry is a plain value. A program that serves several event
//! sources at once keeps it behind a lock and holds the lock only for the
//! calls below, never while it synthesizes or plays.

use std::collections::HashMap;
use vstd::prelude::*;
use crate::request::{NarrationRequest, RequestView, requests_view};
use crate::session::{GuildSession, SessionView, Submission, UtteranceOutcome, after_begin,
    after_enqueue, after_finish, can_begin, fresh_session, is_logged, submission_of};

verus! {

broadcast use vstd::std_specs::hash::group_hash_axioms;

/// The sessions of a registry, by guild.
pub type RegistryView = Map<u64, SessionView>;

/// The registry after guild `g` was activated: a guild that has a session
/// keeps it, another gets a fresh one.
pub open spec fn after_activate(m: RegistryView, g: u64, capacity: nat) -> RegistryView {
    if m.contains_key(g) {
        m
    } else {
        m.insert(g, fresh_session(g, capacity))
    }
}

/// What the registry answers to a request.
pub open spec fn registry_submission(m: RegistryView, r: RequestView) -> Submission {
    if m.contains_key(r.guild_id) {
        submission_of(m[r.guild_id], r)
    } else {
        Submission::NoSession
    }
}

/// The registry after `r` was submitted.
pub open spec fn after_submit(m: RegistryView, r: RequestView) -> RegistryView {
    if m.contains_key(r.guild_id) {
        m.insert(r.guild_id, after_enqueue(m[r.guild_id], r))
    } else {
        m
    }
}

/// The registry after the worker of guild `g` asked for its next utterance.
pub open spec fn after_begin_in(m: RegistryView, g: u64) -> RegistryView {
    if m.contains_key(g) {
        m.insert(g, after_begin(m[g]))
    } else {
        m
    }
}

/// The registry after the utterance in flight in guild `g` ended.
pub open spec fn after_finish_in(m: RegistryView, g: u64) -> RegistryView {
    if m.contains_key(g) {
        m.insert(g, after_finish(m[g]))
    } else {
        m
    }
}

/// Whether audio synthesized for guild `g` may still be played: the guild
/// has a session and that session is waiting for this utterance.
pub open spec fn may_play(m: RegistryView, g: u64) -> bool {
    m.contains_key(g) && m[g].playing
}

/// Removing a guild twice is the same as removing it once.
pub proof fn lemma_remove_idempotent(m: RegistryView, g: u64)
    ensures
        m.remove(g).remove(g) == m.remove(g),
        !m.contains_key(g) ==> m.remove(g) == m,
{
    assert(m.remove(g).remove(g) =~= m.remove(g));
    if !m.contains_key(g) {
        assert(m.remove(g) =~= m);
    }
}

/// Once a guild is removed nothing of it is spoken: a request for it is
/// refused, its worker is handed nothing, and audio that was being made
/// for it may no longer be played.
pub proof fn lemma_removed_guild_is_silent(m: RegistryView, g: u64, r: RequestView)
    requires
        r.guild_id == g,
    ensures
        registry_submission(m.remove(g), r) == Submission::NoSession,
        after_submit(m.remove(g), r) == m.remove(g),
        after_begin_in(m.remove(g), g) == m.remove(g),
        !may_play(m.remove(g), g),
{
}

/// What happens in one guild leaves every other guild as it was.
pub proof fn lemma_guilds_are_independent(m: RegistryView, g: u64, h: u64, r: RequestView)
    requires
        g != h,
        r.guild_id == g,
        m.contains_key(h),
    ensures
        after_submit(m, r)[h] == m[h],
        after_begin_in(m, g)[h] == m[h],
        after_finish_in(m, g)[h] == m[h],
        m.remove(g)[h] == m[h],
        after_submit(m, r).contains_key(h),
        after_begin_in(m, g).contains_key(h),
        after_finish_in(m, g).contains_key(h),
        m.remove(g).contains_key(h),
{
}

/// The sessions of all guilds the bot is active in.
pub struct SessionRegistry {
    sessions: HashMap<u64, GuildSession>,
    capacity: usize,
}

impl View for SessionRegistry {
    type V = RegistryView;

    closed spec fn view(&self) -> RegistryView {
        self.sessions@.map_values(|s: GuildSession| s@)
    }
}

impl SessionRegistry {
    /// How many requests may wait in each session.
    pub closed spec fn spec_capacity(&self) -> nat {
        self.capacity as nat
    }

    /// Every session is filed under its own guild and is within its bound.
    pub closed spec fn wf(&self) -> bool {
        forall|g: u64| #[trigger]
            self.sessions@.contains_key(g) ==> self.sessions@[g]@.guild_id == g
                && self.sessions@[g].wf()
    }

    /// What well-formedness means for the sessions as seen from outside.
    pub proof fn lemma_wf(&self)
        requires
            self.wf(),
        ensures
            forall|g: u64| #[trigger]
                self@.contains_key(g) ==> self@[g].guild_id == g && self@[g].queue.len()
                    <= self@[g].capacity,
    {
    }

    /// A registry without sessions, whose sessions will have room for
    /// `capacity` waiting requests each.
    pub fn new(capacity: usize) -> (r: SessionRegistry)
        ensures
            r@ == Map::<u64, SessionView>::empty(),
            r.spec_capacity() == capacity,
            r.wf(),
    {
        let r = SessionRegistry { sessions: HashMap::new(), capacity };
        assert(r@ =~= Map::<u64, SessionView>::empty());
        r
    }

    /// Whether guild `g` has a session.
    pub fn contains(&self, g: u64) -> (r: bool)
        ensures
            r == self@.contains_key(g),
    {
        self.sessions.contains_key(&g)
    }

    /// The session of guild `g`, if it has one.
    pub fn get(&self, g: u64) -> (r: Option<&GuildSession>)
        ensures
            match r {
                Some(s) => self@.contains_key(g) && s@ == self@[g],
                None => !self@.contains_key(g),
            },
    {
        self.sessions.get(&g)
    }

    /// Activates guild `g`: its session is created if it has none.
    pub fn activate(&mut self, g: u64)
        requires
            old(self).wf(),
        ensures
            final(self)@ == after_activate(old(self)@, g, old(self).spec_capacity()),
            final(self).spec_capacity() == old(self).spec_capacity(),
            final(self).wf(),
    {
        if !self.sessions.contains_key(&g) {
            let s = GuildSession::new(g, self.capacity);
            self.sessions.insert(g, s);
            assert(self@ =~= after_activate(old(self)@, g, old(self).spec_capacity()));
        }
    }

    /// The session of guild `g`, created first if the guild has none.
    pub fn get_or_create(&mut self, g: u64) -> (r: &GuildSession)
        requires
            old(self).wf(),
        ensures
            final(self)@ == after_activate(old(self)@, g, old(self).spec_capacity()),
            final(self).spec_capacity() == old(self).spec_capacity(),
            final(self).wf(),
            r@ == final(self)@[g],
    {
        self.activate(g);
        assert(self@.contains_key(g));
        assert(self.sessions@.contains_key(g));
        self.sessions.get(&g).unwrap()
    }

    /// Removes the session of guild `g` and returns the requests that
    /// waited in it, unplayed. Removing a guild that has no session changes
    /// nothing and returns `None`.
    pub fn remove(&mut self, g: u64) -> (r: Option<Vec<NarrationRequest>>)
        requires
            old(self).wf(),
        ensures
            final(self)@ == old(self)@.remove(g),
            final(self).spec_capacity() == old(self).spec_capacity(),
            final(self).wf(),
            match r {
                Some(discarded) => old(self)@.contains_key(g) && requests_view(discarded@) == old(
                    self,
                )@[g].queue,
                None => !old(self)@.contains_key(g),
            },
    {
        match self.sessions.remove(&g) {
            Some(session) => {
                let mut session = session;
                let discarded = session.drain();
                assert(self@ =~= old(self)@.remove(g));
                Some(discarded)
            },
            None => {
                assert(self@ =~= old(self)@.remove(g));
                None
            },
        }
    }

    /// Sets or clears the read channel of guild `g`, activating the guild
    /// if it has no session yet.
    pub fn set_read_channel(&mut self, g: u64, channel: Option<u64>)
        requires
            old(self).wf(),
        ensures
            final(self)@ == after_activate(old(self)@, g, old(self).spec_capacity()).insert(
                g,
                SessionView {
                    read_channel: channel,
                    ..after_activate(old(self)@, g, old(self).spec_capacity())[g]
                },
            ),
            final(self).spec_capacity() == old(self).spec_capacity(),
            final(self).wf(),
    {
        let mut session = match self.sessions.remove(&g) {
            Some(session) => session,
            None => GuildSession::new(g, self.capacity),
        };
        session.set_read_channel(channel);
        self.sessions.insert(g, session);
        assert(self@ =~= after_activate(old(self)@, g, old(self).spec_capacity()).insert(
            g,
            SessionView {
                read_channel: channel,
                ..after_activate(old(self)@, g, old(self).spec_capacity())[g]
            },
        ));
    }

    /// The read channel of guild `g`; `None` when the guild has no session
    /// or no read channel.
    pub fn read_channel(&self, g: u64) -> (r: Option<u64>)
        ensures
            r == if self@.contains_key(g) {
                self@[g].read_channel
            } else {
                None
            },
    {
        match self.sessions.get(&g) {
            Some(s) => s.read_channel(),
            None => None,
        }
    }

    /// Submits a request to the session of its guild.
    pub fn submit(&mut self, request: NarrationRequest) -> (r: Submission)
        requires
            old(self).wf(),
        ensures
            r == registry_submission(old(self)@, request@),
            final(self)@ == after_submit(old(self)@, request@),
            final(self).spec_capacity() == old(self).spec_capacity(),
            final(self).wf(),
    {
        let g = request.guild_id;
        match self.sessions.remove(&g) {
            Some(session) => {
                let mut session = session;
                let r = session.enqueue(request);
                self.sessions.insert(g, session);
                assert(self@ =~= after_submit(old(self)@, request@));
                r
            },
            None => {
                assert(self@ =~= old(self)@);
                Submission::NoSession
            },
        }
    }

    /// Hands the oldest waiting request of guild `g` to its worker, if the
    /// guild has a session that is free and has something waiting.
    pub fn begin_next(&mut self, g: u64) -> (r: Option<NarrationRequest>)
        requires
            old(self).wf(),
        ensures
            final(self)@ == after_begin_in(old(self)@, g),
            final(self).spec_capacity() == old(self).spec_capacity(),
            final(self).wf(),
            match r {
                Some(request) => old(self)@.contains_key(g) && can_begin(old(self)@[g])
                    && request@ == old(self)@[g].queue[0],
                None => !(old(self)@.contains_key(g) && can_begin(old(self)@[g])),
            },
    {
        match self.sessions.remove(&g) {
            Some(session) => {
                let mut session = session;
                let r = session.begin_next();
                self.sessions.insert(g, session);
                assert(self@ =~= after_begin_in(old(self)@, g));
                r
            },
            None => {
                assert(self@ =~= old(self)@);
                None
            },
        }
    }

    /// Whether audio made for guild `g` may still be played.
    pub fn is_playing(&self, g: u64) -> (r: bool)
        ensures
            r == may_play(self@, g),
    {
        match self.sessions.get(&g) {
            Some(s) => s.is_playing(),
            None => false,
        }
    }

    /// Records the end of the utterance in flight in guild `g`. The result
    /// says whether the end is written to the log. A guild without a
    /// session is left without one.
    pub fn finish(&mut self, g: u64, outcome: UtteranceOutcome) -> (logged: bool)
        requires
            old(self).wf(),
        ensures
            final(self)@ == after_finish_in(old(self)@, g),
            final(self).spec_capacity() == old(self).spec_capacity(),
            final(self).wf(),
            logged == is_logged(outcome),
    {
        match self.sessions.remove(&g) {
            Some(session) => {
                let mut session = session;
                let logged = session.finish(outcome);
                self.sessions.insert(g, session);
                assert(self@ =~= after_finish_in(old(self)@, g));
                logged
            },
            None => {
                assert(self@ =~= old(self)@);
                match outcome {
                    UtteranceOutcome::Played => false,
                    _ => true,
                }
            },
        }
    }
}

} // verus!
