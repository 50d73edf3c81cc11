use narrator::presence::{
    decide, greeting, greeting_request, on_voice_event, reconcile, Greeting, PresenceAction, PresenceOutcome,
    VoiceEvent,
};
use narrator::registry::SessionRegistry;
use narrator::request::NarrationRequest;
use narrator::session::Submission;
use narrator::voice::UserConfig;

const BOT: u64 = 1;
const USER: u64 = 2;
const HERE: u64 = 100;
const ELSEWHERE: u64 = 200;

fn event(user: u64, previous: Option<u64>, new: Option<u64>, bot_channel: Option<u64>, remaining: usize) -> VoiceEvent {
    VoiceEvent { user_id: user, bot_id: BOT, previous_channel: previous, new_channel: new, bot_channel, remaining }
}

#[test]
fn the_bots_own_events_are_ignored() {
    assert_eq!(decide(&event(BOT, None, Some(HERE), Some(HERE), 3)), PresenceAction::Ignore);
    assert_eq!(decide(&event(BOT, Some(HERE), None, Some(HERE), 0)), PresenceAction::Ignore);
    assert_eq!(decide(&event(BOT, Some(HERE), Some(ELSEWHERE), Some(HERE), 2)), PresenceAction::Ignore);
}

#[test]
fn a_member_who_leaves_is_bidden_farewell() {
    assert_eq!(decide(&event(USER, Some(HERE), None, Some(HERE), 1)), PresenceAction::Greet(Greeting::Bye));
    assert_eq!(
        decide(&event(USER, Some(HERE), Some(ELSEWHERE), Some(HERE), 4)),
        PresenceAction::Greet(Greeting::Bye)
    );
}

#[test]
fn the_bot_leaves_with_the_last_member() {
    assert_eq!(decide(&event(USER, Some(HERE), None, Some(HERE), 0)), PresenceAction::AutoLeave);
    assert_eq!(decide(&event(USER, Some(HERE), Some(ELSEWHERE), Some(HERE), 0)), PresenceAction::AutoLeave);
}

#[test]
fn a_member_who_arrives_is_greeted() {
    assert_eq!(decide(&event(USER, None, Some(HERE), Some(HERE), 1)), PresenceAction::Greet(Greeting::Hello));
    assert_eq!(
        decide(&event(USER, Some(ELSEWHERE), Some(HERE), Some(HERE), 2)),
        PresenceAction::Greet(Greeting::Hello)
    );
}

#[test]
fn changes_within_a_channel_are_ignored() {
    // Muting, deafening and the camera leave the channel as it is.
    assert_eq!(decide(&event(USER, Some(HERE), Some(HERE), Some(HERE), 1)), PresenceAction::Ignore);
    assert_eq!(decide(&event(USER, Some(ELSEWHERE), Some(ELSEWHERE), Some(HERE), 0)), PresenceAction::Ignore);
    assert_eq!(decide(&event(USER, None, None, Some(HERE), 0)), PresenceAction::Ignore);
}

#[test]
fn what_happens_in_other_channels_is_ignored() {
    assert_eq!(decide(&event(USER, None, Some(ELSEWHERE), Some(HERE), 0)), PresenceAction::Ignore);
    assert_eq!(decide(&event(USER, Some(ELSEWHERE), None, Some(HERE), 0)), PresenceAction::Ignore);
    assert_eq!(decide(&event(USER, Some(ELSEWHERE), Some(300), Some(HERE), 1)), PresenceAction::Ignore);
}

#[test]
fn an_absent_bot_ignores_everything() {
    assert_eq!(decide(&event(USER, None, Some(HERE), None, 0)), PresenceAction::Ignore);
    assert_eq!(decide(&event(USER, Some(HERE), None, None, 0)), PresenceAction::Ignore);
    assert_eq!(decide(&event(USER, None, None, None, 0)), PresenceAction::Ignore);
}

#[test]
fn a_duplicate_leave_emits_nothing() {
    let leave = event(USER, Some(HERE), None, Some(HERE), 2);
    assert_eq!(decide(&leave), PresenceAction::Greet(Greeting::Bye));
    // The member is already out of the bot's channel when the leave is reported again.
    let again = VoiceEvent { previous_channel: leave.new_channel, ..leave };
    assert_eq!(decide(&again), PresenceAction::Ignore);
    let moved = event(USER, Some(HERE), Some(ELSEWHERE), Some(HERE), 2);
    let again = VoiceEvent { previous_channel: moved.new_channel, ..moved };
    assert_eq!(decide(&again), PresenceAction::Ignore);
    let mut registry = SessionRegistry::new(4);
    registry.activate(9);
    registry.submit(NarrationRequest::plain("x", 9, USER));
    assert_eq!(on_voice_event(&mut registry, 9, &again), PresenceOutcome::Ignored);
    assert_eq!(registry.get(9).map(|s| s.pending()), Some(1));
}

#[test]
fn auto_leave_ends_the_session_and_discards_the_queue() {
    let mut registry = SessionRegistry::new(4);
    registry.activate(9);
    registry.submit(NarrationRequest::plain("R1", 9, USER));
    registry.submit(NarrationRequest::plain("R2", 9, USER));
    registry.submit(NarrationRequest::plain("R3", 9, USER));
    assert!(registry.begin_next(9).is_some());
    let last_leaves = event(USER, Some(HERE), None, Some(HERE), 0);
    let outcome = on_voice_event(&mut registry, 9, &last_leaves);
    assert_eq!(
        outcome,
        PresenceOutcome::Left(vec![NarrationRequest::plain("R2", 9, USER), NarrationRequest::plain("R3", 9, USER)])
    );
    assert!(!registry.contains(9));
    assert_eq!(registry.begin_next(9), None);
    assert!(!registry.is_playing(9));
    assert_eq!(registry.submit(NarrationRequest::plain("bye", 9, USER)), Submission::NoSession);
}

#[test]
fn auto_leave_without_a_session_discards_nothing() {
    let mut registry = SessionRegistry::new(4);
    registry.activate(8);
    let outcome = on_voice_event(&mut registry, 9, &event(USER, Some(HERE), None, Some(HERE), 0));
    assert_eq!(outcome, PresenceOutcome::Left(vec![]));
    assert!(registry.contains(8));
}

#[test]
fn a_greeting_leaves_the_registry_alone() {
    let mut registry = SessionRegistry::new(4);
    registry.activate(9);
    registry.submit(NarrationRequest::plain("R1", 9, USER));
    let outcome = on_voice_event(&mut registry, 9, &event(USER, None, Some(HERE), Some(HERE), 1));
    assert_eq!(outcome, PresenceOutcome::Greet(Greeting::Hello));
    let outcome = on_voice_event(&mut registry, 9, &event(USER, Some(HERE), None, Some(HERE), 1));
    assert_eq!(outcome, PresenceOutcome::Greet(Greeting::Bye));
    assert_eq!(registry.get(9).map(|s| s.pending()), Some(1));
}

#[test]
fn hello_scenario() {
    let mut a = UserConfig::with_defaults(USER);
    a.set_hello("こんにちは");
    let mut registry = SessionRegistry::new(4);
    registry.activate(9);
    let joins = event(USER, None, Some(HERE), Some(HERE), 1);
    assert_eq!(on_voice_event(&mut registry, 9, &joins), PresenceOutcome::Greet(Greeting::Hello));
    let request = greeting_request(Greeting::Hello, &a, "A", 9);
    assert_eq!(request.text, "A さん、こんにちは");
    assert_eq!(request, NarrationRequest::plain("A さん、こんにちは", 9, USER));
    assert_eq!(registry.submit(request), Submission::Queued);
    assert_eq!(registry.begin_next(9).map(|r| r.text), Some("A さん、こんにちは".to_string()));
}

#[test]
fn greeting_uses_the_nickname_and_the_users_own_words() {
    let mut c = UserConfig::with_defaults(USER);
    c.set_hello("やあ");
    c.set_bye("またね");
    assert_eq!(greeting(Greeting::Hello, &c, "Alice"), "Alice さん、やあ");
    assert_eq!(greeting(Greeting::Bye, &c, "Alice"), "Alice さん、またね");
    c.set_nickname(Some("ありす"));
    assert_eq!(greeting(Greeting::Hello, &c, "Alice"), "ありす さん、やあ");
    assert_eq!(greeting(Greeting::Bye, &c, "Alice"), "ありす さん、またね");
}

#[test]
fn reconcile_removes_a_session_that_the_transport_does_not_know() {
    let mut registry = SessionRegistry::new(4);
    registry.activate(9);
    registry.submit(NarrationRequest::plain("R1", 9, USER));
    assert_eq!(reconcile(&mut registry, 9, Some(HERE)), None);
    assert!(registry.contains(9));
    assert_eq!(reconcile(&mut registry, 9, None), Some(vec![NarrationRequest::plain("R1", 9, USER)]));
    assert!(!registry.contains(9));
    assert_eq!(reconcile(&mut registry, 9, None), None);
    // The guild may be activated again on the next join.
    registry.activate(9);
    assert_eq!(registry.get(9).map(|s| s.pending()), Some(0));
}
