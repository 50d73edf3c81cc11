//! The last step before the backend is called: a queued request becomes a
//! synthesis job, or is refused because its voice is unknown.

use vstd::prelude::*;
use crate::dictionary::{DictView, Dictionary};
use crate::normalizer::{NormalizerConfig, normalize, normalized};
use crate::request::{NarrationRequest, RequestView};
use crate::session::UtteranceOutcome;
use crate::voice::{SpeakerCatalogEntry, UserConfig, UserConfigView, VoiceSelection,
    catalog_offers, catalog_view, find_speaker, resolve, resolved_voice};

verus! {

/// Why nothing was synthesized.
#[derive(Clone, Copy, Debug, PartialEq, Eq, Structural)]
pub enum SynthesisError {
    /// The speaker catalog has no such style for the backend.
    UnknownSpeaker,
    /// The backend was called and failed.
    Backend,
}

/// What is sent to a backend: the text to speak and the voice to speak it
/// with.
#[derive(Debug, PartialEq, Eq)]
pub struct SynthesisJob {
    pub text: String,
    pub voice: VoiceSelection,
}

/// The text that is spoken for a request: normalized if the request asks
/// for it, else as written.
pub open spec fn spoken_text(
    request: RequestView,
    d: DictView,
    max_len: nat,
    marker: Seq<char>,
) -> Seq<char> {
    if request.format {
        normalized(request.text, d, max_len, marker)
    } else {
        request.text
    }
}

/// The voice that a request is spoken with.
pub open spec fn voice_of(request: RequestView, config: Option<UserConfigView>) -> VoiceSelection {
    resolved_voice(request.voice_override, request.generator_override, config)
}

/// Checks that the catalog knows the voice, so that an unknown one never
/// reaches a backend.
pub fn validate_voice(voice: VoiceSelection, catalog: &Vec<SpeakerCatalogEntry>) -> (r: Result<
    (),
    SynthesisError,
>)
    ensures
        r == if catalog_offers(catalog_view(catalog@), voice) {
            Ok::<(), SynthesisError>(())
        } else {
            Err(SynthesisError::UnknownSpeaker)
        },
{
    match find_speaker(catalog, voice) {
        Some(i) => {
            assert(crate::voice::offers(catalog_view(catalog@)[i as int], voice));
            Ok(())
        },
        None => Err(SynthesisError::UnknownSpeaker),
    }
}

/// Turns a request that left the queue into a synthesis job: its text is
/// normalized if it asks for that, its voice is resolved, and the voice is
/// checked against the speaker catalog. A voice that the catalog does not
/// know is refused here.
pub fn prepare(
    request: &NarrationRequest,
    dict: &Dictionary,
    normalizer: &NormalizerConfig,
    config: Option<&UserConfig>,
    catalog: &Vec<SpeakerCatalogEntry>,
) -> (r: Result<SynthesisJob, SynthesisError>)
    ensures
        ({
            let voice = voice_of(
                request@,
                match config {
                    Some(c) => Some(c@),
                    None => None,
                },
            );
            if catalog_offers(catalog_view(catalog@), voice) {
                r is Ok && r->Ok_0.voice == voice && r->Ok_0.text@ == spoken_text(
                    request@,
                    dict@,
                    normalizer.max_len as nat,
                    normalizer.marker@,
                )
            } else {
                r == Err::<SynthesisJob, SynthesisError>(SynthesisError::UnknownSpeaker)
            }
        }),
{
    let voice = resolve(request.voice_override, request.generator_override, config);
    match validate_voice(voice, catalog) {
        Err(e) => Err(e),
        Ok(_) => {
            let text = if request.format {
                normalize(request.text.as_str(), dict, normalizer)
            } else {
                request.text.clone()
            };
            Ok(SynthesisJob { text, voice })
        },
    }
}

/// How an utterance ended, given what became of its synthesis and, where
/// audio was made, of its playback.
pub open spec fn outcome_of(
    synthesis: Result<(), SynthesisError>,
    still_wanted: bool,
    played: bool,
) -> UtteranceOutcome {
    match synthesis {
        Err(SynthesisError::UnknownSpeaker) => UtteranceOutcome::UnknownSpeaker,
        Err(SynthesisError::Backend) => UtteranceOutcome::SynthesisFailed,
        Ok(_) => if !still_wanted {
            UtteranceOutcome::Discarded
        } else if played {
            UtteranceOutcome::Played
        } else {
            UtteranceOutcome::PlaybackFailed
        },
    }
}

/// Whether audio that was made is handed to the voice transport: only
/// where synthesis succeeded and the guild's session still waits for it.
pub open spec fn is_played(synthesis: Result<(), SynthesisError>, still_wanted: bool) -> bool {
    synthesis is Ok && still_wanted
}

/// Decides whether audio that came back from the backend is played.
pub fn should_play(synthesis: &Result<(), SynthesisError>, still_wanted: bool) -> (r: bool)
    ensures
        r == is_played(*synthesis, still_wanted),
{
    match synthesis {
        Ok(_) => still_wanted,
        Err(_) => false,
    }
}

/// Names the end of an utterance. A single attempt is made: a failure of
/// the backend or of the playback ends the utterance, it is not tried
/// again.
pub fn conclude(synthesis: &Result<(), SynthesisError>, still_wanted: bool, played: bool) -> (r:
    UtteranceOutcome)
    ensures
        r == outcome_of(*synthesis, still_wanted, played),
{
    match synthesis {
        Err(SynthesisError::UnknownSpeaker) => UtteranceOutcome::UnknownSpeaker,
        Err(SynthesisError::Backend) => UtteranceOutcome::SynthesisFailed,
        Ok(_) => if !still_wanted {
            UtteranceOutcome::Discarded
        } else if played {
            UtteranceOutcome::Played
        } else {
            UtteranceOutcome::PlaybackFailed
        },
    }
}

} // verus!
