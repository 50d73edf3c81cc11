//! Per-user voice settings, the speaker catalog, and the rule that picks the
//! voice an utterance is read with.

use vstd::prelude::*;
use crate::generator::Generators;

verus! {

/// The characters of an optional string.
pub open spec fn opt_text(o: Option<String>) -> Option<Seq<char>> {
    match o {
        Some(s) => Some(s@),
        None => None,
    }
}

/// The greeting a user gets on arrival until they set their own.
pub open spec fn default_hello() -> Seq<char> {
    "こんにちは"@
}

/// The farewell a user gets on departure until they set their own.
pub open spec fn default_bye() -> Seq<char> {
    "ばいばい"@
}

/// A voice: a backend and one of its speaker styles.
#[derive(Clone, Copy, Debug, PartialEq, Eq, Structural)]
pub struct VoiceSelection {
    pub voice_type: u32,
    pub generator_type: Generators,
}

/// The voice used when neither the request nor the user names one.
pub open spec fn default_voice() -> VoiceSelection {
    VoiceSelection { voice_type: 0, generator_type: Generators::COEIROINK }
}

/// What the bot remembers about one user.
#[derive(Debug, PartialEq, Eq)]
pub struct UserConfig {
    pub user_id: u64,
    pub hello: String,
    pub bye: String,
    pub read_nickname: Option<String>,
    pub voice_type: u32,
    pub generator_type: Generators,
}

/// The mathematical content of a [`UserConfig`].
pub struct UserConfigView {
    pub user_id: u64,
    pub hello: Seq<char>,
    pub bye: Seq<char>,
    pub read_nickname: Option<Seq<char>>,
    pub voice_type: u32,
    pub generator_type: Generators,
}

impl View for UserConfig {
    type V = UserConfigView;

    open spec fn view(&self) -> UserConfigView {
        UserConfigView {
            user_id: self.user_id,
            hello: self.hello@,
            bye: self.bye@,
            read_nickname: opt_text(self.read_nickname),
            voice_type: self.voice_type,
            generator_type: self.generator_type,
        }
    }
}

/// Why a stored record is no valid [`UserConfig`].
#[derive(Clone, Copy, Debug, PartialEq, Eq, Structural)]
pub enum ConfigError {
    /// The stored voice type does not fit a speaker style number.
    VoiceTypeOutOfRange,
    /// The stored generator tag names no backend.
    UnknownGenerator,
}

/// The settings of a user who has never configured anything.
pub open spec fn default_config(user_id: u64) -> UserConfigView {
    UserConfigView {
        user_id,
        hello: default_hello(),
        bye: default_bye(),
        read_nickname: None,
        voice_type: default_voice().voice_type,
        generator_type: default_voice().generator_type,
    }
}

/// What is wrong with a stored pair of voice type and generator tag, if
/// anything. The voice type is looked at first.
pub open spec fn record_error(voice_type: i64, generator_type: i64) -> Option<ConfigError> {
    if voice_type < 0 || voice_type > u32::MAX {
        Some(ConfigError::VoiceTypeOutOfRange)
    } else if crate::generator::generator_of_tag(generator_type as int) is None {
        Some(ConfigError::UnknownGenerator)
    } else {
        None
    }
}

/// The voice an utterance is read with: each part of an explicit override
/// wins, then the user's stored setting, then the system default.
pub open spec fn resolved_voice(
    voice_override: Option<u32>,
    generator_override: Option<Generators>,
    config: Option<UserConfigView>,
) -> VoiceSelection {
    VoiceSelection {
        voice_type: match voice_override {
            Some(v) => v,
            None => match config {
                Some(c) => c.voice_type,
                None => default_voice().voice_type,
            },
        },
        generator_type: match generator_override {
            Some(g) => g,
            None => match config {
                Some(c) => c.generator_type,
                None => default_voice().generator_type,
            },
        },
    }
}

/// The system default voice.
pub fn system_default_voice() -> (r: VoiceSelection)
    ensures
        r == default_voice(),
{
    VoiceSelection { voice_type: 0, generator_type: Generators::COEIROINK }
}

impl UserConfig {
    /// The settings a user has before they configure anything.
    pub fn with_defaults(user_id: u64) -> (r: UserConfig)
        ensures
            r@ == default_config(user_id),
    {
        let d = system_default_voice();
        UserConfig {
            user_id,
            hello: "こんにちは".to_owned(),
            bye: "ばいばい".to_owned(),
            read_nickname: None,
            voice_type: d.voice_type,
            generator_type: d.generator_type,
        }
    }

    /// Builds the settings from a stored record, whose voice type and
    /// generator tag are wide integers. A value out of range is an error.
    pub fn from_record(
        user_id: u64,
        hello: String,
        bye: String,
        read_nickname: Option<String>,
        voice_type: i64,
        generator_type: i64,
    ) -> (r: Result<UserConfig, ConfigError>)
        ensures
            match record_error(voice_type, generator_type) {
                Some(e) => r == Err::<UserConfig, ConfigError>(e),
                None => r is Ok && r->Ok_0@ == (UserConfigView {
                    user_id,
                    hello: hello@,
                    bye: bye@,
                    read_nickname: opt_text(read_nickname),
                    voice_type: voice_type as u32,
                    generator_type: crate::generator::generator_of_tag(generator_type as int)->0,
                }),
            },
    {
        if voice_type < 0 || voice_type > 0xffff_ffff {
            return Err(ConfigError::VoiceTypeOutOfRange);
        }
        if generator_type < 0 || generator_type > 255 {
            return Err(ConfigError::UnknownGenerator);
        }
        match Generators::from_tag(generator_type as u8) {
            Ok(g) => Ok(
                UserConfig {
                    user_id,
                    hello,
                    bye,
                    read_nickname,
                    voice_type: voice_type as u32,
                    generator_type: g,
                },
            ),
            Err(_) => Err(ConfigError::UnknownGenerator),
        }
    }

    /// The name the user is called by when greeted: their chosen reading, or
    /// else the name they show in the guild.
    pub fn spoken_name(&self, display_name: &str) -> (r: String)
        ensures
            r@ == spoken_name_of(self@, display_name@),
    {
        match &self.read_nickname {
            Some(n) => n.clone(),
            None => display_name.to_owned(),
        }
    }

    /// The user's own voice.
    pub fn voice(&self) -> (r: VoiceSelection)
        ensures
            r == (VoiceSelection {
                voice_type: self@.voice_type,
                generator_type: self@.generator_type,
            }),
    {
        VoiceSelection { voice_type: self.voice_type, generator_type: self.generator_type }
    }

    /// Sets the greeting that is spoken when the user arrives.
    pub fn set_hello(&mut self, text: &str)
        ensures
            final(self)@ == (UserConfigView { hello: text@, ..old(self)@ }),
    {
        self.hello = text.to_owned();
    }

    /// Sets the farewell that is spoken when the user leaves.
    pub fn set_bye(&mut self, text: &str)
        ensures
            final(self)@ == (UserConfigView { bye: text@, ..old(self)@ }),
    {
        self.bye = text.to_owned();
    }

    /// Sets or clears the name the user is read by.
    pub fn set_nickname(&mut self, name: Option<&str>)
        ensures
            final(self)@ == (UserConfigView {
                read_nickname: match name {
                    Some(n) => Some(n@),
                    None => None,
                },
                ..old(self)@
            }),
    {
        self.read_nickname = match name {
            Some(n) => Some(n.to_owned()),
            None => None,
        };
    }

    /// Stores the voice of a chosen speaker as the user's voice.
    pub fn set_voice(&mut self, voice: VoiceSelection)
        ensures
            final(self)@ == (UserConfigView {
                voice_type: voice.voice_type,
                generator_type: voice.generator_type,
                ..old(self)@
            }),
    {
        self.voice_type = voice.voice_type;
        self.generator_type = voice.generator_type;
    }
}

/// The name a user is called by.
pub open spec fn spoken_name_of(config: UserConfigView, display_name: Seq<char>) -> Seq<char> {
    match config.read_nickname {
        Some(n) => n,
        None => display_name,
    }
}

/// Picks the voice for one utterance. It always yields a voice.
pub fn resolve(
    voice_override: Option<u32>,
    generator_override: Option<Generators>,
    config: Option<&UserConfig>,
) -> (r: VoiceSelection)
    ensures
        r == resolved_voice(
            voice_override,
            generator_override,
            match config {
                Some(c) => Some(c@),
                None => None,
            },
        ),
{
    let base = match config {
        Some(c) => c.voice(),
        None => system_default_voice(),
    };
    VoiceSelection {
        voice_type: match voice_override {
            Some(v) => v,
            None => base.voice_type,
        },
        generator_type: match generator_override {
            Some(g) => g,
            None => base.generator_type,
        },
    }
}

/// One speaker style that a backend offers.
#[derive(Debug, PartialEq, Eq)]
pub struct SpeakerCatalogEntry {
    pub id: u64,
    pub generator_type: Generators,
    pub style_id: u32,
    pub name: String,
    pub style_name: String,
}

/// The mathematical content of a [`SpeakerCatalogEntry`].
pub struct SpeakerView {
    pub id: u64,
    pub generator_type: Generators,
    pub style_id: u32,
    pub name: Seq<char>,
    pub style_name: Seq<char>,
}

impl View for SpeakerCatalogEntry {
    type V = SpeakerView;

    open spec fn view(&self) -> SpeakerView {
        SpeakerView {
            id: self.id,
            generator_type: self.generator_type,
            style_id: self.style_id,
            name: self.name@,
            style_name: self.style_name@,
        }
    }
}

/// The contents of a catalog, entry by entry.
pub open spec fn catalog_view(catalog: Seq<SpeakerCatalogEntry>) -> Seq<SpeakerView> {
    catalog.map_values(|e: SpeakerCatalogEntry| e@)
}

/// The entry offers exactly this voice.
pub open spec fn offers(entry: SpeakerView, voice: VoiceSelection) -> bool {
    entry.generator_type == voice.generator_type && entry.style_id == voice.voice_type
}

/// Some entry of the catalog offers the voice.
pub open spec fn catalog_offers(catalog: Seq<SpeakerView>, voice: VoiceSelection) -> bool {
    exists|i: int| 0 <= i < catalog.len() && offers(#[trigger] catalog[i], voice)
}

/// `i` is the first entry of the catalog that offers the voice.
pub open spec fn is_first_offer(catalog: Seq<SpeakerView>, voice: VoiceSelection, i: int) -> bool {
    &&& 0 <= i < catalog.len()
    &&& offers(catalog[i], voice)
    &&& forall|j: int| 0 <= j < i ==> !offers(#[trigger] catalog[j], voice)
}

/// What a speaker is called in a menu: its name, a space, its style.
pub open spec fn speaker_label(entry: SpeakerView) -> Seq<char> {
    entry.name + seq![' '] + entry.style_name
}

impl SpeakerCatalogEntry {
    /// The voice this entry offers.
    pub fn voice(&self) -> (r: VoiceSelection)
        ensures
            offers(self@, r),
    {
        VoiceSelection { voice_type: self.style_id, generator_type: self.generator_type }
    }

    /// What the speaker is called in a menu.
    pub fn label(&self) -> (r: String)
        ensures
            r@ == speaker_label(self@),
    {
        let mut s = self.name.clone();
        s.push(' ');
        let t = self.style_name.as_str();
        vstd::string::StringExecFns::append(&mut s, t);
        assert(s@ =~= speaker_label(self@));
        s
    }
}

/// The position of the first catalog entry that offers `voice`, or `None`
/// when the catalog does not know the voice.
pub fn find_speaker(catalog: &Vec<SpeakerCatalogEntry>, voice: VoiceSelection) -> (r: Option<usize>)
    ensures
        match r {
            Some(i) => is_first_offer(catalog_view(catalog@), voice, i as int),
            None => !catalog_offers(catalog_view(catalog@), voice),
        },
{
    let mut i: usize = 0;
    while i < catalog.len()
        invariant
            i <= catalog.len(),
            forall|j: int| 0 <= j < i ==> !offers(#[trigger] catalog_view(catalog@)[j], voice),
        decreases catalog.len() - i,
    {
        let e = &catalog[i];
        if e.generator_type == voice.generator_type && e.style_id == voice.voice_type {
            assert(catalog_view(catalog@)[i as int] == e@);
            return Some(i);
        }
        assert(catalog_view(catalog@)[i as int] == e@);
        i += 1;
    }
    None
}

} // verus!
