//! The unit of work of the narration pipeline.

use vstd::prelude::*;
use crate::generator::Generators;

verus! {

/// A text waiting to be spoken in a guild.
#[derive(Debug, PartialEq, Eq)]
pub struct NarrationRequest {
    /// The raw text.
    pub text: String,
    /// The guild in whose voice channel the text is spoken.
    pub guild_id: u64,
    /// The user on whose behalf the text is spoken.
    pub user_id: u64,
    /// A speaker style that overrides the user's own.
    pub voice_override: Option<u32>,
    /// A backend that overrides the user's own.
    pub generator_override: Option<Generators>,
    /// Whether the text is normalized before it is spoken.
    pub format: bool,
    /// Whether the text is spoken at all.
    pub read: bool,
}

/// The mathematical content of a [`NarrationRequest`].
pub struct RequestView {
    pub text: Seq<char>,
    pub guild_id: u64,
    pub user_id: u64,
    pub voice_override: Option<u32>,
    pub generator_override: Option<Generators>,
    pub format: bool,
    pub read: bool,
}

impl View for NarrationRequest {
    type V = RequestView;

    open spec fn view(&self) -> RequestView {
        RequestView {
            text: self.text@,
            guild_id: self.guild_id,
            user_id: self.user_id,
            voice_override: self.voice_override,
            generator_override: self.generator_override,
            format: self.format,
            read: self.read,
        }
    }
}

/// The contents of a sequence of requests, one by one.
pub open spec fn requests_view(requests: Seq<NarrationRequest>) -> Seq<RequestView> {
    requests.map_values(|r: NarrationRequest| r@)
}

/// A request with no override that is normalized and spoken.
pub open spec fn plain_request(text: Seq<char>, guild_id: u64, user_id: u64) -> RequestView {
    RequestView {
        text,
        guild_id,
        user_id,
        voice_override: None,
        generator_override: None,
        format: true,
        read: true,
    }
}

impl Clone for NarrationRequest {
    fn clone(&self) -> (r: Self)
        ensures
            r == *self,
    {
        NarrationRequest {
            text: self.text.clone(),
            guild_id: self.guild_id,
            user_id: self.user_id,
            voice_override: self.voice_override,
            generator_override: self.generator_override,
            format: self.format,
            read: self.read,
        }
    }
}

impl NarrationRequest {
    /// A request to normalize and speak `text` in the user's own voice.
    pub fn plain(text: &str, guild_id: u64, user_id: u64) -> (r: NarrationRequest)
        ensures
            r@ == plain_request(text@, guild_id, user_id),
    {
        NarrationRequest {
            text: text.to_owned(),
            guild_id,
            user_id,
            voice_override: None,
            generator_override: None,
            format: true,
            read: true,
        }
    }
}

} // verus!
