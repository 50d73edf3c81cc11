//! The presence rules: what the bot does when a member's voice state
//! changes while the bot sits in a voice channel.
//!
//! For each event the first of these rules that applies decides:
//!
//! - The bot's own events are ignored.
//! - A member who leaves the bot's channel is bidden farewell, unless the
//!   channel is then empty of members: in that case the bot leaves too and
//!   says nothing.
//! - A member who enters the bot's channel is greeted.
//! - Everything else is ignored.

use vstd::prelude::*;
use vstd::string::StringExecFns;
use crate::registry::{RegistryView, SessionRegistry};
use crate::request::{NarrationRequest, RequestView, plain_request, requests_view};
use crate::voice::{UserConfig, UserConfigView, spoken_name_of};

verus! {

/// A change of one member's voice state, as the event source reports it.
#[derive(Clone, Copy, Debug, PartialEq, Eq, Structural)]
pub struct VoiceEvent {
    /// The member whose state changed.
    pub user_id: u64,
    /// The bot's own user id.
    pub bot_id: u64,
    /// The voice channel the member was in before, if any.
    pub previous_channel: Option<u64>,
    /// The voice channel the member is in now, if any.
    pub new_channel: Option<u64>,
    /// The voice channel the bot is in, if any.
    pub bot_channel: Option<u64>,
    /// How many members other than the bot are in the bot's channel now.
    pub remaining: usize,
}

/// Which greeting is spoken.
#[derive(Clone, Copy, Debug, PartialEq, Eq, Structural)]
pub enum Greeting {
    Hello,
    Bye,
}

/// What the bot does about an event.
#[derive(Clone, Copy, Debug, PartialEq, Eq, Structural)]
pub enum PresenceAction {
    /// Nothing.
    Ignore,
    /// Speak the member's greeting.
    Greet(Greeting),
    /// Leave the voice channel and end the guild's session.
    AutoLeave,
}

/// The member was in the bot's channel and is there no more.
pub open spec fn left_bot_channel(e: VoiceEvent) -> bool {
    e.bot_channel is Some && e.previous_channel == e.bot_channel && e.new_channel != e.bot_channel
}

/// The member is in the bot's channel and was not there before.
pub open spec fn joined_bot_channel(e: VoiceEvent) -> bool {
    e.bot_channel is Some && e.new_channel == e.bot_channel && e.previous_channel != e.bot_channel
}

/// What the rules decide for an event.
pub open spec fn decision(e: VoiceEvent) -> PresenceAction {
    if e.user_id == e.bot_id {
        PresenceAction::Ignore
    } else if left_bot_channel(e) {
        if e.remaining == 0 {
            PresenceAction::AutoLeave
        } else {
            PresenceAction::Greet(Greeting::Bye)
        }
    } else if joined_bot_channel(e) {
        PresenceAction::Greet(Greeting::Hello)
    } else {
        PresenceAction::Ignore
    }
}

/// The event that reports the same change once more after it has taken
/// effect: the member is where the first report put them, before and after.
pub open spec fn repeated(e: VoiceEvent) -> VoiceEvent {
    VoiceEvent { previous_channel: e.new_channel, ..e }
}

/// What is put between the name and the greeting.
pub open spec fn honorific() -> Seq<char> {
    " さん、"@
}

/// The text that greets a member: the name they are read by, the honorific,
/// and their own hello or bye.
pub open spec fn greeting_text(
    kind: Greeting,
    config: UserConfigView,
    display_name: Seq<char>,
) -> Seq<char> {
    spoken_name_of(config, display_name) + honorific() + match kind {
        Greeting::Hello => config.hello,
        Greeting::Bye => config.bye,
    }
}

/// The registry after an event in guild `g` was acted on: an auto-leave
/// removes the guild's session, anything else leaves the registry alone.
pub open spec fn after_presence(m: RegistryView, g: u64, e: VoiceEvent) -> RegistryView {
    if decision(e) == PresenceAction::AutoLeave {
        m.remove(g)
    } else {
        m
    }
}

/// The greeting that an event gives rise to, if any.
pub open spec fn emitted(e: VoiceEvent) -> Option<Greeting> {
    match decision(e) {
        PresenceAction::Greet(kind) => Some(kind),
        _ => None,
    }
}

/// A change that keeps the member in the same channel, such as muting,
/// deafening or switching the camera, is no arrival and no departure.
pub proof fn lemma_same_channel_is_ignored(e: VoiceEvent)
    requires
        e.previous_channel == e.new_channel,
    ensures
        decision(e) == PresenceAction::Ignore,
{
}

/// While the bot is in no voice channel nothing is greeted and nothing is
/// left.
pub proof fn lemma_absent_bot_ignores(e: VoiceEvent)
    requires
        e.bot_channel is None,
    ensures
        decision(e) == PresenceAction::Ignore,
{
}

/// A leave that is reported for a member who is already out of the bot's
/// channel gives rise to nothing. In particular the repetition of any
/// departure is ignored and leaves the registry as it is.
pub proof fn lemma_duplicate_leave_is_ignored(e: VoiceEvent, m: RegistryView, g: u64)
    requires
        !(e.bot_channel is Some && e.previous_channel == e.bot_channel),
        !(e.bot_channel is Some && e.new_channel == e.bot_channel),
    ensures
        decision(e) == PresenceAction::Ignore,
        emitted(e) is None,
        after_presence(m, g, e) == m,
{
}

/// The repetition of a departure from the bot's channel is ignored.
pub proof fn lemma_repeated_departure_is_ignored(e: VoiceEvent, m: RegistryView, g: u64)
    requires
        left_bot_channel(e),
    ensures
        decision(repeated(e)) == PresenceAction::Ignore,
        emitted(repeated(e)) is None,
        after_presence(after_presence(m, g, e), g, repeated(e)) == after_presence(m, g, e),
{
}

/// When the last member leaves the bot's channel, the guild's session ends,
/// what waited in its queue is never handed to a worker, and no farewell is
/// emitted.
pub proof fn lemma_last_member_leaving(e: VoiceEvent, m: RegistryView, g: u64)
    requires
        e.user_id != e.bot_id,
        left_bot_channel(e),
        e.remaining == 0,
    ensures
        decision(e) == PresenceAction::AutoLeave,
        emitted(e) is None,
        !after_presence(m, g, e).contains_key(g),
        crate::registry::after_begin_in(after_presence(m, g, e), g) == after_presence(m, g, e),
        !crate::registry::may_play(after_presence(m, g, e), g),
{
}

/// Whether two optional channels are the same.
fn same_channel(a: Option<u64>, b: Option<u64>) -> (r: bool)
    ensures
        r == (a == b),
{
    match (a, b) {
        (Some(x), Some(y)) => x == y,
        (None, None) => true,
        _ => false,
    }
}

/// Decides what the bot does about an event.
pub fn decide(event: &VoiceEvent) -> (r: PresenceAction)
    ensures
        r == decision(*event),
{
    if event.user_id == event.bot_id {
        return PresenceAction::Ignore;
    }
    if event.bot_channel.is_none() {
        return PresenceAction::Ignore;
    }
    let was_here = same_channel(event.previous_channel, event.bot_channel);
    let is_here = same_channel(event.new_channel, event.bot_channel);
    if was_here && !is_here {
        if event.remaining == 0 {
            PresenceAction::AutoLeave
        } else {
            PresenceAction::Greet(Greeting::Bye)
        }
    } else if is_here && !was_here {
        PresenceAction::Greet(Greeting::Hello)
    } else {
        PresenceAction::Ignore
    }
}

/// What came of an event.
#[derive(Debug, PartialEq, Eq)]
pub enum PresenceOutcome {
    /// Nothing.
    Ignored,
    /// The member is to be greeted.
    Greet(Greeting),
    /// The bot leaves; these requests waited in the guild's queue and are
    /// thrown away. A guild that had no session yields none.
    Left(Vec<NarrationRequest>),
}

/// Acts on an event in guild `g`. An auto-leave removes the guild's session
/// at once, together with all that waited in its queue; the caller then
/// releases the voice connection. A greeting is only announced: the caller
/// looks up the member, builds the request with [`greeting_request`] and
/// submits it.
pub fn on_voice_event(registry: &mut SessionRegistry, g: u64, event: &VoiceEvent) -> (r:
    PresenceOutcome)
    requires
        old(registry).wf(),
    ensures
        final(registry).wf(),
        final(registry).spec_capacity() == old(registry).spec_capacity(),
        final(registry)@ == after_presence(old(registry)@, g, *event),
        match decision(*event) {
            PresenceAction::Ignore => r is Ignored,
            PresenceAction::Greet(kind) => r is Greet && r->Greet_0 == kind,
            PresenceAction::AutoLeave => r is Left && requests_view(r->Left_0@) == (if old(
                registry,
            )@.contains_key(g) {
                old(registry)@[g].queue
            } else {
                Seq::<RequestView>::empty()
            }),
        },
{
    match decide(event) {
        PresenceAction::Ignore => PresenceOutcome::Ignored,
        PresenceAction::Greet(kind) => PresenceOutcome::Greet(kind),
        PresenceAction::AutoLeave => {
            match registry.remove(g) {
                Some(discarded) => PresenceOutcome::Left(discarded),
                None => {
                    let none: Vec<NarrationRequest> = Vec::new();
                    assert(requests_view(none@) =~= Seq::<RequestView>::empty());
                    PresenceOutcome::Left(none)
                },
            }
        },
    }
}

/// Brings the registry in line with the voice transport. When the
/// transport reports that the bot is in no voice channel while the guild
/// still has a session, the session is removed and what waited in it is
/// returned; otherwise nothing changes.
pub fn reconcile(registry: &mut SessionRegistry, g: u64, bot_channel: Option<u64>) -> (r: Option<
    Vec<NarrationRequest>,
>)
    requires
        old(registry).wf(),
    ensures
        final(registry).wf(),
        final(registry).spec_capacity() == old(registry).spec_capacity(),
        final(registry)@ == if bot_channel is None {
            old(registry)@.remove(g)
        } else {
            old(registry)@
        },
        match r {
            Some(discarded) => bot_channel is None && old(registry)@.contains_key(g)
                && requests_view(discarded@) == old(registry)@[g].queue,
            None => bot_channel is Some || !old(registry)@.contains_key(g),
        },
{
    match bot_channel {
        Some(_) => None,
        None => registry.remove(g),
    }
}

/// The text that greets a member.
pub fn greeting(kind: Greeting, config: &UserConfig, display_name: &str) -> (r: String)
    ensures
        r@ == greeting_text(kind, config@, display_name@),
{
    let mut s = config.spoken_name(display_name);
    s.append(" さん、");
    match kind {
        Greeting::Hello => s.append(config.hello.as_str()),
        Greeting::Bye => s.append(config.bye.as_str()),
    }
    s
}

/// The request that greets a member in guild `g`: the greeting text, to be
/// normalized and spoken in the member's own voice.
pub fn greeting_request(kind: Greeting, config: &UserConfig, display_name: &str, g: u64) -> (r:
    NarrationRequest)
    ensures
        r@ == plain_request(greeting_text(kind, config@, display_name@), g, config@.user_id),
{
    let text = greeting(kind, config, display_name);
    NarrationRequest::plain(text.as_str(), g, config.user_id)
}

} // verus!
