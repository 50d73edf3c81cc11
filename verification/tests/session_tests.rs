use narrator::registry::SessionRegistry;
use narrator::request::NarrationRequest;
use narrator::session::{GuildSession, Submission, UtteranceOutcome};

fn req(text: &str, guild: u64) -> NarrationRequest {
    NarrationRequest::plain(text, guild, 1)
}

#[test]
fn a_fresh_session_is_idle_and_empty() {
    let s = GuildSession::new(7, 3);
    assert_eq!(s.guild_id(), 7);
    assert_eq!(s.read_channel(), None);
    assert_eq!(s.pending(), 0);
    assert_eq!(s.capacity(), 3);
    assert!(!s.is_playing());
}

#[test]
fn requests_are_played_in_the_order_they_were_enqueued() {
    let mut s = GuildSession::new(7, 8);
    assert_eq!(s.enqueue(req("R1", 7)), Submission::Queued);
    assert_eq!(s.enqueue(req("R2", 7)), Submission::Queued);
    assert_eq!(s.enqueue(req("R3", 7)), Submission::Queued);
    assert_eq!(s.begin_next(), Some(req("R1", 7)));
    s.finish(UtteranceOutcome::Played);
    assert_eq!(s.begin_next(), Some(req("R2", 7)));
    s.finish(UtteranceOutcome::Played);
    assert_eq!(s.begin_next(), Some(req("R3", 7)));
    s.finish(UtteranceOutcome::Played);
    assert_eq!(s.begin_next(), None);
}

#[test]
fn order_is_kept_when_requests_arrive_while_one_plays() {
    let mut s = GuildSession::new(7, 8);
    s.enqueue(req("R1", 7));
    assert_eq!(s.begin_next(), Some(req("R1", 7)));
    s.enqueue(req("R2", 7));
    s.enqueue(req("R3", 7));
    assert_eq!(s.begin_next(), None);
    s.finish(UtteranceOutcome::Played);
    s.enqueue(req("R4", 7));
    assert_eq!(s.begin_next(), Some(req("R2", 7)));
    assert_eq!(s.advance(UtteranceOutcome::Played), (false, Some(req("R3", 7))));
    assert_eq!(s.advance(UtteranceOutcome::Played), (false, Some(req("R4", 7))));
    assert_eq!(s.advance(UtteranceOutcome::Played), (false, None));
    assert!(!s.is_playing());
}

#[test]
fn at_most_one_utterance_is_in_flight() {
    let mut s = GuildSession::new(7, 100);
    let mut in_flight = 0;
    let mut started = Vec::new();
    // A fixed, irregular interleaving of producers and the worker.
    for step in 0u32..200 {
        match (step * 7 + step / 3) % 5 {
            0 | 1 => {
                s.enqueue(req(&format!("m{}", step), 7));
            }
            2 | 3 => {
                if let Some(r) = s.begin_next() {
                    in_flight += 1;
                    started.push(r.text);
                }
            }
            _ => {
                if s.is_playing() {
                    in_flight -= 1;
                }
                s.finish(UtteranceOutcome::Played);
            }
        }
        assert!(in_flight == 0 || in_flight == 1);
        assert_eq!(s.is_playing(), in_flight == 1);
    }
    let mut sorted = started.clone();
    sorted.sort_by_key(|t| t[1..].parse::<u32>().unwrap());
    assert_eq!(started, sorted);
    assert!(!started.is_empty());
}

#[test]
fn a_busy_session_hands_out_nothing() {
    let mut s = GuildSession::new(7, 8);
    s.enqueue(req("R1", 7));
    s.enqueue(req("R2", 7));
    assert!(s.begin_next().is_some());
    assert!(s.is_playing());
    assert_eq!(s.begin_next(), None);
    assert_eq!(s.pending(), 1);
}

#[test]
fn a_full_queue_refuses_and_keeps_what_waits() {
    let mut s = GuildSession::new(7, 2);
    assert_eq!(s.enqueue(req("R1", 7)), Submission::Queued);
    assert_eq!(s.enqueue(req("R2", 7)), Submission::Queued);
    assert_eq!(s.enqueue(req("R3", 7)), Submission::QueueFull);
    assert_eq!(s.pending(), 2);
    assert_eq!(s.begin_next(), Some(req("R1", 7)));
    // One left the queue, so there is room for one more.
    assert_eq!(s.enqueue(req("R4", 7)), Submission::Queued);
    assert_eq!(s.enqueue(req("R5", 7)), Submission::QueueFull);
    s.finish(UtteranceOutcome::Played);
    assert_eq!(s.begin_next(), Some(req("R2", 7)));
    s.finish(UtteranceOutcome::Played);
    assert_eq!(s.begin_next(), Some(req("R4", 7)));
}

#[test]
fn a_queue_without_room_refuses_everything() {
    let mut s = GuildSession::new(7, 0);
    assert_eq!(s.enqueue(req("R1", 7)), Submission::QueueFull);
    assert_eq!(s.begin_next(), None);
}

#[test]
fn a_request_that_is_not_read_is_not_queued() {
    let mut s = GuildSession::new(7, 2);
    let mut r = req("text only", 7);
    r.read = false;
    assert_eq!(s.enqueue(r), Submission::Silent);
    assert_eq!(s.pending(), 0);
}

#[test]
fn a_request_of_another_guild_is_not_queued() {
    let mut s = GuildSession::new(7, 2);
    assert_eq!(s.enqueue(req("x", 8)), Submission::WrongGuild);
    assert_eq!(s.pending(), 0);
}

#[test]
fn a_failed_utterance_does_not_stall_the_queue() {
    let mut s = GuildSession::new(7, 8);
    s.enqueue(req("item1", 7));
    s.enqueue(req("item2", 7));
    s.enqueue(req("item3", 7));
    let mut played = Vec::new();
    let mut logged = Vec::new();
    while let Some(r) = s.begin_next() {
        let outcome = if r.text == "item2" { UtteranceOutcome::SynthesisFailed } else { UtteranceOutcome::Played };
        if outcome == UtteranceOutcome::Played {
            played.push(r.text.clone());
        }
        if s.finish(outcome) {
            logged.push(r.text);
        }
    }
    assert_eq!(played, vec!["item1".to_string(), "item3".to_string()]);
    assert_eq!(logged, vec!["item2".to_string()]);
    assert!(!s.is_playing());
}

#[test]
fn every_end_but_a_playback_is_logged() {
    let mut s = GuildSession::new(7, 8);
    assert!(!s.finish(UtteranceOutcome::Played));
    assert!(s.finish(UtteranceOutcome::UnknownSpeaker));
    assert!(s.finish(UtteranceOutcome::SynthesisFailed));
    assert!(s.finish(UtteranceOutcome::PlaybackFailed));
    assert!(s.finish(UtteranceOutcome::Discarded));
}

#[test]
fn drain_returns_what_waited_and_frees_the_session() {
    let mut s = GuildSession::new(7, 8);
    s.set_read_channel(Some(4));
    s.enqueue(req("R1", 7));
    s.enqueue(req("R2", 7));
    s.enqueue(req("R3", 7));
    s.begin_next();
    assert_eq!(s.drain(), vec![req("R2", 7), req("R3", 7)]);
    assert_eq!(s.pending(), 0);
    assert!(!s.is_playing());
    assert_eq!(s.read_channel(), Some(4));
    assert_eq!(s.begin_next(), None);
    assert_eq!(s.drain(), vec![]);
}

#[test]
fn registry_starts_empty() {
    let r = SessionRegistry::new(4);
    assert!(!r.contains(1));
    assert!(r.get(1).is_none());
    assert_eq!(r.read_channel(1), None);
    assert!(!r.is_playing(1));
}

#[test]
fn get_or_create_creates_once() {
    let mut r = SessionRegistry::new(4);
    {
        let s = r.get_or_create(1);
        assert_eq!(s.guild_id(), 1);
        assert_eq!(s.capacity(), 4);
        assert_eq!(s.pending(), 0);
    }
    assert_eq!(r.submit(req("R1", 1)), Submission::Queued);
    assert_eq!(r.get_or_create(1).pending(), 1);
    r.activate(1);
    assert_eq!(r.get(1).map(|s| s.pending()), Some(1));
}

#[test]
fn set_read_channel_activates_and_sets() {
    let mut r = SessionRegistry::new(4);
    r.set_read_channel(1, Some(55));
    assert!(r.contains(1));
    assert_eq!(r.read_channel(1), Some(55));
    r.submit(req("R1", 1));
    r.set_read_channel(1, None);
    assert_eq!(r.read_channel(1), None);
    assert_eq!(r.get(1).map(|s| s.pending()), Some(1));
    r.set_read_channel(1, Some(56));
    assert_eq!(r.read_channel(1), Some(56));
}

#[test]
fn remove_drains_and_is_idempotent() {
    let mut r = SessionRegistry::new(4);
    r.activate(1);
    r.submit(req("R1", 1));
    r.submit(req("R2", 1));
    assert_eq!(r.begin_next(1), Some(req("R1", 1)));
    assert_eq!(r.remove(1), Some(vec![req("R2", 1)]));
    assert!(!r.contains(1));
    assert_eq!(r.remove(1), None);
    assert!(!r.contains(1));
    assert_eq!(r.remove(99), None);
}

#[test]
fn a_removed_guild_is_silent() {
    let mut r = SessionRegistry::new(4);
    r.activate(1);
    r.submit(req("R1", 1));
    r.submit(req("R2", 1));
    r.begin_next(1);
    assert!(r.is_playing(1));
    r.remove(1);
    // Audio that was being made for the guild is thrown away.
    assert!(!r.is_playing(1));
    assert!(r.finish(1, UtteranceOutcome::Discarded));
    assert!(!r.contains(1));
    assert_eq!(r.begin_next(1), None);
    assert_eq!(r.submit(req("R3", 1)), Submission::NoSession);
    // A later join starts from nothing.
    r.activate(1);
    assert_eq!(r.begin_next(1), None);
}

#[test]
fn guilds_do_not_stall_each_other() {
    let mut r = SessionRegistry::new(1);
    r.activate(1);
    r.activate(2);
    assert_eq!(r.submit(req("a1", 1)), Submission::Queued);
    assert_eq!(r.submit(req("a2", 1)), Submission::QueueFull);
    assert_eq!(r.submit(req("b1", 2)), Submission::Queued);
    assert_eq!(r.begin_next(1), Some(req("a1", 1)));
    // Guild 1 is busy; guild 2 starts all the same.
    assert_eq!(r.begin_next(2), Some(req("b1", 2)));
    assert!(r.is_playing(1));
    assert!(r.is_playing(2));
    assert!(!r.finish(2, UtteranceOutcome::Played));
    assert!(r.is_playing(1));
    assert!(!r.is_playing(2));
    r.remove(1);
    assert!(r.contains(2));
}

#[test]
fn registry_finish_frees_the_session() {
    let mut r = SessionRegistry::new(4);
    r.activate(1);
    r.submit(req("R1", 1));
    r.submit(req("R2", 1));
    assert_eq!(r.begin_next(1), Some(req("R1", 1)));
    assert_eq!(r.begin_next(1), None);
    assert!(r.finish(1, UtteranceOutcome::PlaybackFailed));
    assert_eq!(r.begin_next(1), Some(req("R2", 1)));
    assert!(!r.finish(1, UtteranceOutcome::Played));
    assert!(!r.finish(5, UtteranceOutcome::Played));
    assert!(!r.contains(5));
}
