//! The voice-channel commands: what each one does to the voice connection in
//! a given state, and what it tells the user afterwards.

use vstd::prelude::*;
use vstd::string::StringExecFns;
use crate::text::{chars_of, occurs_at, occurs_at_exec};

verus! {

/// A fixed message to the user.
#[derive(Clone, Copy, Debug, PartialEq, Eq, Structural)]
pub enum Notice {
    NotInVoiceChannel,
    LeftVoiceChannel,
    AlreadyMuted,
    NowMuted,
    Unmuted,
    NotInVoiceChannelToUnmute,
    PlayingSong,
    SourceError,
    NotInVoiceChannelToPlay,
    MissingUrl,
    InvalidUrl,
}

impl Notice {
    /// The wording of the message.
    pub open spec fn spec_text(self) -> Seq<char> {
        match self {
            Notice::NotInVoiceChannel => "Not in a voice channel"@,
            Notice::LeftVoiceChannel => "Left voice channel"@,
            Notice::AlreadyMuted => "Already muted"@,
            Notice::NowMuted => "Now muted"@,
            Notice::Unmuted => "Unmuted"@,
            Notice::NotInVoiceChannelToUnmute => "Not in a voice channel to unmute in"@,
            Notice::PlayingSong => "Playing song"@,
            Notice::SourceError => "Error sourcing ffmpeg"@,
            Notice::NotInVoiceChannelToPlay => "Not in a voice channel to play in"@,
            Notice::MissingUrl => "Must provide a URL to a video or audio"@,
            Notice::InvalidUrl => "Must provide a valid URL"@,
        }
    }

    /// The wording of the message.
    pub fn text(self) -> (r: &'static str)
        ensures
            r@ == self.spec_text(),
    {
        match self {
            Notice::NotInVoiceChannel => "Not in a voice channel",
            Notice::LeftVoiceChannel => "Left voice channel",
            Notice::AlreadyMuted => "Already muted",
            Notice::NowMuted => "Now muted",
            Notice::Unmuted => "Unmuted",
            Notice::NotInVoiceChannelToUnmute => "Not in a voice channel to unmute in",
            Notice::PlayingSong => "Playing song",
            Notice::SourceError => "Error sourcing ffmpeg",
            Notice::NotInVoiceChannelToPlay => "Not in a voice channel to play in",
            Notice::MissingUrl => "Must provide a URL to a video or audio",
            Notice::InvalidUrl => "Must provide a valid URL",
        }
    }
}

/// What a command does next.
#[derive(Clone, Copy, Debug, PartialEq, Eq, Structural)]
pub enum Step {
    /// Tell the user something and stop.
    Reply(Notice),
    /// Connect to the voice channel, deafened.
    Connect(u64),
    /// Drop the voice connection of the guild.
    Disconnect,
    /// Mute or unmute the bot.
    SetMute(bool),
    /// Fetch the audio source and play it.
    PlaySource,
}

/// The message that reports a failed voice operation, given the text that
/// describes the failure.
pub open spec fn failure_text(detail: Seq<char>) -> Seq<char> {
    "Failed: "@ + detail
}

/// The message that reports a failed voice operation.
pub fn failure_message(detail: &str) -> (r: String)
    ensures
        r@ == failure_text(detail@),
{
    let mut s = String::from_str("Failed: ");
    s.append(detail);
    s
}

/// `join`: the bot follows the author into their voice channel; an author
/// who is in none is told so.
pub fn join_step(author_channel: Option<u64>) -> (r: Step)
    ensures
        r == match author_channel {
            Some(c) => Step::Connect(c),
            None => Step::Reply(Notice::NotInVoiceChannel),
        },
{
    match author_channel {
        Some(c) => Step::Connect(c),
        None => Step::Reply(Notice::NotInVoiceChannel),
    }
}

/// `leave`: a connected bot disconnects; otherwise the user is told that
/// there is nothing to leave.
pub fn leave_step(connected: bool) -> (r: Step)
    ensures
        r == if connected {
            Step::Disconnect
        } else {
            Step::Reply(Notice::NotInVoiceChannel)
        },
{
    if connected {
        Step::Disconnect
    } else {
        Step::Reply(Notice::NotInVoiceChannel)
    }
}

/// What `leave` says after it tried to disconnect: the failure, if there was
/// one, and in either case that the bot left.
pub open spec fn leave_messages(failure: Option<Seq<char>>) -> Seq<Seq<char>> {
    match failure {
        Some(detail) => seq![failure_text(detail), Notice::LeftVoiceChannel.spec_text()],
        None => seq![Notice::LeftVoiceChannel.spec_text()],
    }
}

/// What `leave` says after it tried to disconnect.
pub fn leave_report(failure: Option<&str>) -> (r: Vec<String>)
    ensures
        r@.map_values(|m: String| m@) == leave_messages(
            match failure {
                Some(d) => Some(d@),
                None => None,
            },
        ),
{
    let mut out: Vec<String> = Vec::new();
    match failure {
        Some(detail) => {
            out.push(failure_message(detail));
        },
        None => {},
    }
    out.push(Notice::LeftVoiceChannel.text().to_owned());
    assert(out@.map_values(|m: String| m@) =~= leave_messages(
        match failure {
            Some(d) => Some(d@),
            None => None,
        },
    ));
    out
}

/// `mute`: a bot that is not connected or is muted already says so;
/// otherwise it mutes itself.
pub fn mute_step(connected: bool, muted: bool) -> (r: Step)
    ensures
        r == if !connected {
            Step::Reply(Notice::NotInVoiceChannel)
        } else if muted {
            Step::Reply(Notice::AlreadyMuted)
        } else {
            Step::SetMute(true)
        },
{
    if !connected {
        Step::Reply(Notice::NotInVoiceChannel)
    } else if muted {
        Step::Reply(Notice::AlreadyMuted)
    } else {
        Step::SetMute(true)
    }
}

/// `unmute`: a connected bot unmutes itself; otherwise it says that it is
/// in no voice channel.
pub fn unmute_step(connected: bool) -> (r: Step)
    ensures
        r == if connected {
            Step::SetMute(false)
        } else {
            Step::Reply(Notice::NotInVoiceChannelToUnmute)
        },
{
    if connected {
        Step::SetMute(false)
    } else {
        Step::Reply(Notice::NotInVoiceChannelToUnmute)
    }
}

/// What `mute` (with `mute` set) or `unmute` says after the attempt.
pub open spec fn mute_message(mute: bool, failure: Option<Seq<char>>) -> Seq<char> {
    match failure {
        Some(detail) => failure_text(detail),
        None => if mute {
            Notice::NowMuted.spec_text()
        } else {
            Notice::Unmuted.spec_text()
        },
    }
}

/// What `mute` or `unmute` says after the attempt.
pub fn mute_report(mute: bool, failure: Option<&str>) -> (r: String)
    ensures
        r@ == mute_message(
            mute,
            match failure {
                Some(d) => Some(d@),
                None => None,
            },
        ),
{
    match failure {
        Some(detail) => failure_message(detail),
        None => if mute {
            Notice::NowMuted.text().to_owned()
        } else {
            Notice::Unmuted.text().to_owned()
        },
    }
}

/// What is wrong with the argument of `play`, if anything: it is missing, or
/// it does not begin with `http`.
pub open spec fn play_argument_fault(url: Option<Seq<char>>) -> Option<Notice> {
    match url {
        None => Some(Notice::MissingUrl),
        Some(u) => if occurs_at(u, 0, "http"@) {
            None
        } else {
            Some(Notice::InvalidUrl)
        },
    }
}

/// `play`: checks the argument, then plays if the bot is connected.
pub fn play_step(url: Option<&str>, connected: bool) -> (r: Step)
    ensures
        r == match play_argument_fault(
            match url {
                Some(u) => Some(u@),
                None => None,
            },
        ) {
            Some(fault) => Step::Reply(fault),
            None => if connected {
                Step::PlaySource
            } else {
                Step::Reply(Notice::NotInVoiceChannelToPlay)
            },
        },
{
    match url {
        None => Step::Reply(Notice::MissingUrl),
        Some(u) => {
            let text = chars_of(u);
            let prefix = chars_of("http");
            if !occurs_at_exec(&text, 0, &prefix) {
                Step::Reply(Notice::InvalidUrl)
            } else if connected {
                Step::PlaySource
            } else {
                Step::Reply(Notice::NotInVoiceChannelToPlay)
            }
        },
    }
}

/// What `play` says after it tried to fetch the audio source.
pub fn play_report(sourced: bool) -> (r: Notice)
    ensures
        r == if sourced {
            Notice::PlayingSong
        } else {
            Notice::SourceError
        },
{
    if sourced {
        Notice::PlayingSong
    } else {
        Notice::SourceError
    }
}

} // verus!
