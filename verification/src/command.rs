//! Interactive commands: what a command answers, whether the answer is
//! spoken, and how the speaker menus are laid out.

use vstd::prelude::*;
use vstd::string::StringExecFns;
use crate::generator::{Generators, generator_of_tag};
use crate::request::{NarrationRequest, RequestView};
use crate::text::text_eq;
use crate::voice::{SpeakerCatalogEntry, SpeakerView, UserConfig, UserConfigView, catalog_view,
    speaker_label, spoken_name_of};

verus! {

/// The answer of a command: a text, whether it is spoken, whether it is
/// normalized first, and the voice it asks for, if any.
#[derive(Debug, PartialEq, Eq)]
pub struct SlashCommandTextResult {
    msg: String,
    read: bool,
    format: bool,
    voice_type: Option<u32>,
    generator_type: Option<u8>,
}

/// The mathematical content of a [`SlashCommandTextResult`].
pub struct TextResultView {
    pub msg: Seq<char>,
    pub read: bool,
    pub format: bool,
    pub voice_type: Option<u32>,
    pub generator_type: Option<u8>,
}

impl View for SlashCommandTextResult {
    type V = TextResultView;

    closed spec fn view(&self) -> TextResultView {
        TextResultView {
            msg: self.msg@,
            read: self.read,
            format: self.format,
            voice_type: self.voice_type,
            generator_type: self.generator_type,
        }
    }
}

impl Clone for SlashCommandTextResult {
    fn clone(&self) -> (r: Self)
        ensures
            r@ == self@,
    {
        SlashCommandTextResult {
            msg: self.msg.clone(),
            read: self.read,
            format: self.format,
            voice_type: self.voice_type,
            generator_type: self.generator_type,
        }
    }
}

impl SlashCommandTextResult {
    /// An answer that is normalized and spoken in the user's own voice.
    pub fn from_str(text: &str) -> (r: Self)
        ensures
            r@ == (TextResultView {
                msg: text@,
                read: true,
                format: true,
                voice_type: None,
                generator_type: None,
            }),
    {
        SlashCommandTextResult {
            msg: text.to_owned(),
            read: true,
            format: true,
            voice_type: None,
            generator_type: None,
        }
    }

    /// An answer with the given flags, in the user's own voice.
    pub fn from_str_and_flags(text: &str, read: bool, format: bool) -> (r: Self)
        ensures
            r@ == (TextResultView {
                msg: text@,
                read,
                format,
                voice_type: None,
                generator_type: None,
            }),
    {
        SlashCommandTextResult {
            msg: text.to_owned(),
            read,
            format,
            voice_type: None,
            generator_type: None,
        }
    }

    /// The same answer, asking for a speaker style and a backend tag of its
    /// own.
    pub fn with_voice(self, voice_type: Option<u32>, generator_type: Option<u8>) -> (r: Self)
        ensures
            r@ == (TextResultView { voice_type, generator_type, ..self@ }),
    {
        SlashCommandTextResult {
            msg: self.msg,
            read: self.read,
            format: self.format,
            voice_type,
            generator_type,
        }
    }

    /// The text of the answer.
    pub fn msg(&self) -> (r: &str)
        ensures
            r@ == self@.msg,
    {
        self.msg.as_str()
    }

    /// Whether the answer is spoken.
    pub fn read(&self) -> (r: bool)
        ensures
            r == self@.read,
    {
        self.read
    }

    /// Whether the answer is normalized before it is spoken.
    pub fn format(&self) -> (r: bool)
        ensures
            r == self@.format,
    {
        self.format
    }

    /// The speaker style the answer asks for.
    pub fn voice_type(&self) -> (r: Option<u32>)
        ensures
            r == self@.voice_type,
    {
        self.voice_type
    }

    /// The backend tag the answer asks for.
    pub fn generator_type(&self) -> (r: Option<u8>)
        ensures
            r == self@.generator_type,
    {
        self.generator_type
    }
}

/// The value of one command argument. A fractional number has no payload
/// here, since no command reads one.
#[derive(Debug, PartialEq, Eq)]
pub enum ArgumentValue {
    String(String),
    Integer(i64),
    Boolean(bool),
    User(u64),
    Channel(u64),
    Role(u64),
    Number,
}

/// One argument slot of a command, resolved or not.
#[derive(Debug, PartialEq, Eq)]
pub struct CommandOption {
    pub name: String,
    pub resolved: Option<ArgumentValue>,
}

/// An interactive command as it arrives.
#[derive(Debug, PartialEq, Eq)]
pub struct Command {
    pub name: String,
    pub guild_id: Option<u64>,
    pub user_id: u64,
    pub options: Vec<CommandOption>,
}

/// Why an argument cannot be had.
#[derive(Clone, Copy, Debug, PartialEq, Eq, Structural)]
pub enum ArgumentError {
    /// The command has no argument at that position.
    IndexOutOfRange,
    /// The argument is there but was not resolved to a value.
    CouldNotParse,
}

impl ArgumentError {
    /// The text of the error.
    pub open spec fn spec_message(self) -> Seq<char> {
        match self {
            ArgumentError::IndexOutOfRange => "index out of range"@,
            ArgumentError::CouldNotParse => "could not parse"@,
        }
    }

    /// The text of the error.
    pub fn message(&self) -> (r: String)
        ensures
            r@ == self.spec_message(),
    {
        match self {
            ArgumentError::IndexOutOfRange => "index out of range".to_owned(),
            ArgumentError::CouldNotParse => "could not parse".to_owned(),
        }
    }
}

/// The argument at `index`, or the reason it is missing.
pub open spec fn argument_at(options: Seq<CommandOption>, index: int) -> Result<
    ArgumentValue,
    ArgumentError,
> {
    if !(0 <= index < options.len()) {
        Err(ArgumentError::IndexOutOfRange)
    } else {
        match options[index].resolved {
            Some(v) => Ok(v),
            None => Err(ArgumentError::CouldNotParse),
        }
    }
}

/// The resolved value of the argument at position `index`.
pub fn get_argument(command: &Command, index: usize) -> (r: Result<&ArgumentValue, ArgumentError>)
    ensures
        match argument_at(command.options@, index as int) {
            Ok(v) => r is Ok && *r->Ok_0 == v,
            Err(e) => r == Err::<&ArgumentValue, ArgumentError>(e),
        },
{
    if index >= command.options.len() {
        return Err(ArgumentError::IndexOutOfRange);
    }
    match &command.options[index].resolved {
        Some(v) => Ok(v),
        None => Err(ArgumentError::CouldNotParse),
    }
}

/// How a command is answered.
#[derive(Clone, Copy, Debug, PartialEq, Eq, Structural)]
pub enum CommandKind {
    /// Answered at once with a text, which may then be spoken.
    TextReply,
    /// Answered with the user's settings.
    Info,
    /// Answered with the speaker menus.
    SetVoiceType,
    /// Answered with a computed picture.
    Walpha,
    /// Answered with the help text.
    Help,
    /// Not a command of this bot.
    Unknown,
}

/// `name` is one of the commands that are answered with a text.
pub open spec fn is_text_command(name: Seq<char>) -> bool {
    ||| name == "add"@
    ||| name == "rem"@
    ||| name == "hello"@
    ||| name == "bye"@
    ||| name == "join"@
    ||| name == "leave"@
    ||| name == "mute"@
    ||| name == "unmute"@
    ||| name == "rand_member"@
    ||| name == "set_nickname"@
}

/// How the command called `name` is answered.
pub open spec fn kind_of(name: Seq<char>) -> CommandKind {
    if is_text_command(name) {
        CommandKind::TextReply
    } else if name == "info"@ {
        CommandKind::Info
    } else if name == "set_voice_type"@ {
        CommandKind::SetVoiceType
    } else if name == "walpha"@ {
        CommandKind::Walpha
    } else if name == "help"@ {
        CommandKind::Help
    } else {
        CommandKind::Unknown
    }
}

/// How the command called `name` is answered.
pub fn command_kind(name: &str) -> (r: CommandKind)
    ensures
        r == kind_of(name@),
{
    if text_eq(name, "add") || text_eq(name, "rem") || text_eq(name, "hello") || text_eq(
        name,
        "bye",
    ) || text_eq(name, "join") || text_eq(name, "leave") || text_eq(name, "mute") || text_eq(
        name,
        "unmute",
    ) || text_eq(name, "rand_member") || text_eq(name, "set_nickname") {
        CommandKind::TextReply
    } else if text_eq(name, "info") {
        CommandKind::Info
    } else if text_eq(name, "set_voice_type") {
        CommandKind::SetVoiceType
    } else if text_eq(name, "walpha") {
        CommandKind::Walpha
    } else if text_eq(name, "help") {
        CommandKind::Help
    } else {
        CommandKind::Unknown
    }
}

/// What is written back to the user: the text of the answer, or the text of
/// the failure.
pub open spec fn reply_text(outcome: Result<TextResultView, Seq<char>>) -> Seq<char> {
    match outcome {
        Ok(content) => content.msg,
        Err(error) => error,
    }
}

/// What is written back to the user for the outcome of a text command.
pub fn reply_content(outcome: &Result<SlashCommandTextResult, String>) -> (r: String)
    ensures
        r@ == reply_text(
            match *outcome {
                Ok(c) => Ok(c@),
                Err(e) => Err(e@),
            },
        ),
{
    match outcome {
        Ok(content) => content.msg.clone(),
        Err(error) => error.clone(),
    }
}

/// Why an answer is not spoken although it asks to be.
#[derive(Clone, Copy, Debug, PartialEq, Eq, Structural)]
pub enum FollowUpError {
    /// The answer names a backend tag that stands for no backend.
    UnknownGenerator,
}

/// What follows the written answer of a text command.
#[derive(Debug, PartialEq, Eq)]
pub enum FollowUp {
    /// Nothing is spoken.
    Silent,
    /// The request is handed to the guild's playback queue.
    Speak(NarrationRequest),
}

/// The request that speaks the answer `content` of a command given by
/// `user_id` in `guild_id`.
pub open spec fn spoken_answer(content: TextResultView, guild_id: u64, user_id: u64) -> RequestView {
    RequestView {
        text: content.msg,
        guild_id,
        user_id,
        voice_override: content.voice_type,
        generator_override: match content.generator_type {
            Some(t) => generator_of_tag(t as int),
            None => None,
        },
        format: content.format,
        read: true,
    }
}

/// Whether the answer is spoken: the written answer reached the user, the
/// command succeeded, and its answer asks to be read.
pub open spec fn answer_is_spoken(delivered: bool, outcome: Result<TextResultView, Seq<char>>) -> bool {
    delivered && outcome is Ok && outcome->Ok_0.read
}

/// Decides what follows the written answer of a text command. An answer that
/// carries an unknown backend tag is refused before anything is queued.
pub fn follow_up(
    delivered: bool,
    outcome: &Result<SlashCommandTextResult, String>,
    guild_id: u64,
    user_id: u64,
) -> (r: Result<FollowUp, FollowUpError>)
    ensures
        ({
            let o: Result<TextResultView, Seq<char>> = match *outcome {
                Ok(c) => Ok(c@),
                Err(e) => Err(e@),
            };
            if !answer_is_spoken(delivered, o) {
                r is Ok && r->Ok_0 is Silent
            } else if o->Ok_0.generator_type is Some && generator_of_tag(
                o->Ok_0.generator_type->0 as int,
            ) is None {
                r == Err::<FollowUp, FollowUpError>(FollowUpError::UnknownGenerator)
            } else {
                r is Ok && r->Ok_0 is Speak && r->Ok_0->Speak_0@ == spoken_answer(
                    o->Ok_0,
                    guild_id,
                    user_id,
                )
            }
        }),
{
    if !delivered {
        return Ok(FollowUp::Silent);
    }
    match outcome {
        Err(_) => Ok(FollowUp::Silent),
        Ok(content) => {
            if !content.read {
                return Ok(FollowUp::Silent);
            }
            let generator_override = match content.generator_type {
                None => None,
                Some(tag) => match Generators::from_tag(tag) {
                    Ok(g) => Some(g),
                    Err(_) => {
                        return Err(FollowUpError::UnknownGenerator);
                    },
                },
            };
            Ok(
                FollowUp::Speak(
                    NarrationRequest {
                        text: content.msg.clone(),
                        guild_id,
                        user_id,
                        voice_override: content.voice_type,
                        generator_override,
                        format: content.format,
                        read: true,
                    },
                ),
            )
        },
    }
}

/// One choice of a speaker menu.
#[derive(Debug, PartialEq, Eq)]
pub struct MenuOption {
    pub label: String,
    pub value: u64,
}

/// The menu of the speakers of one backend.
#[derive(Debug, PartialEq, Eq)]
pub struct SpeakerMenu {
    pub generator_type: Generators,
    pub options: Vec<MenuOption>,
}

/// The mathematical content of a [`MenuOption`].
pub struct MenuOptionView {
    pub label: Seq<char>,
    pub value: u64,
}

/// The mathematical content of a [`SpeakerMenu`].
pub struct SpeakerMenuView {
    pub generator_type: Generators,
    pub options: Seq<MenuOptionView>,
}

impl View for MenuOption {
    type V = MenuOptionView;

    open spec fn view(&self) -> MenuOptionView {
        MenuOptionView { label: self.label@, value: self.value }
    }
}

impl View for SpeakerMenu {
    type V = SpeakerMenuView;

    open spec fn view(&self) -> SpeakerMenuView {
        SpeakerMenuView {
            generator_type: self.generator_type,
            options: self.options@.map_values(|o: MenuOption| o@),
        }
    }
}

/// The menu choice that stands for a speaker: its label, and its catalog id
/// as the value.
pub open spec fn option_of(entry: SpeakerView) -> MenuOptionView {
    MenuOptionView { label: speaker_label(entry), value: entry.id }
}

/// The choices of the menu of backend `g`: the catalog's speakers of that
/// backend, in catalog order.
pub open spec fn options_of(catalog: Seq<SpeakerView>, g: Generators) -> Seq<MenuOptionView> {
    catalog.filter_map(
        |e: SpeakerView|
            if e.generator_type == g {
                Some(option_of(e))
            } else {
                None
            },
    )
}

/// The menu of backend `g`, if the catalog has a speaker of it.
pub open spec fn menu_of(catalog: Seq<SpeakerView>, g: Generators) -> Seq<SpeakerMenuView> {
    if options_of(catalog, g).len() > 0 {
        seq![SpeakerMenuView { generator_type: g, options: options_of(catalog, g) }]
    } else {
        Seq::empty()
    }
}

/// The speaker menus: one per backend that has speakers, the backends in
/// their fixed order.
pub open spec fn menus_of(catalog: Seq<SpeakerView>) -> Seq<SpeakerMenuView> {
    menu_of(catalog, Generators::COEIROINK) + menu_of(catalog, Generators::VOICEVOX)
}

/// The menu choices for the speakers of backend `g`.
pub fn menu_options(catalog: &Vec<SpeakerCatalogEntry>, g: Generators) -> (r: Vec<MenuOption>)
    ensures
        r@.map_values(|o: MenuOption| o@) == options_of(catalog_view(catalog@), g),
{
    let ghost f = |e: SpeakerView|
        if e.generator_type == g {
            Some(option_of(e))
        } else {
            None
        };
    let ghost cat = catalog_view(catalog@);
    let mut out: Vec<MenuOption> = Vec::new();
    let mut i: usize = 0;
    assert(cat.take(0).filter_map(f) =~= Seq::<MenuOptionView>::empty());
    while i < catalog.len()
        invariant
            i <= catalog.len(),
            cat == catalog_view(catalog@),
            f == (|e: SpeakerView|
                if e.generator_type == g {
                    Some(option_of(e))
                } else {
                    None
                }),
            out@.map_values(|o: MenuOption| o@) == cat.take(i as int).filter_map(f),
        decreases catalog.len() - i,
    {
        let e = &catalog[i];
        proof {
            cat.lemma_filter_map_take_succ(f, i as int);
            assert(cat[i as int] == e@);
        }
        if e.generator_type == g {
            let o = MenuOption { label: e.label(), value: e.id };
            assert(o@ == option_of(e@));
            let ghost before = out@;
            out.push(o);
            assert(out@.map_values(|o: MenuOption| o@) =~= before.map_values(|o: MenuOption| o@)
                + seq![o@]);
        }
        i += 1;
    }
    assert(cat.take(catalog.len() as int) == cat);
    out
}

/// The speaker menus offered to a user who wants to change voice.
pub fn speaker_menus(catalog: &Vec<SpeakerCatalogEntry>) -> (r: Vec<SpeakerMenu>)
    ensures
        r@.map_values(|m: SpeakerMenu| m@) == menus_of(catalog_view(catalog@)),
{
    let mut out: Vec<SpeakerMenu> = Vec::new();
    let a = menu_options(catalog, Generators::COEIROINK);
    if a.len() > 0 {
        out.push(SpeakerMenu { generator_type: Generators::COEIROINK, options: a });
    }
    assert(out@.map_values(|m: SpeakerMenu| m@) =~= menu_of(
        catalog_view(catalog@),
        Generators::COEIROINK,
    ));
    let ghost first = out@;
    let b = menu_options(catalog, Generators::VOICEVOX);
    if b.len() > 0 {
        out.push(SpeakerMenu { generator_type: Generators::VOICEVOX, options: b });
    }
    assert(out@.map_values(|m: SpeakerMenu| m@) =~= first.map_values(|m: SpeakerMenu| m@)
        + menu_of(catalog_view(catalog@), Generators::VOICEVOX));
    out
}

/// Why a menu choice selects no speaker.
#[derive(Clone, Copy, Debug, PartialEq, Eq, Structural)]
pub enum SelectionError {
    /// The component event carries no value.
    NoValue,
    /// The first value is no decimal catalog id.
    NotAnId,
}

/// The catalog id that a menu event selects: its first value, read as a
/// decimal number.
pub open spec fn selected_id(values: Seq<Seq<char>>) -> Result<u64, SelectionError> {
    if values.len() == 0 {
        Err(SelectionError::NoValue)
    } else {
        match crate::text::parsed_decimal(values[0]) {
            Some(id) => Ok(id),
            None => Err(SelectionError::NotAnId),
        }
    }
}

/// The catalog id that a menu event with these values selects.
pub fn selected_speaker_id(values: &Vec<String>) -> (r: Result<u64, SelectionError>)
    ensures
        r == selected_id(values@.map_values(|v: String| v@)),
{
    if values.len() == 0 {
        return Err(SelectionError::NoValue);
    }
    match crate::text::parse_decimal(values[0].as_str()) {
        Some(id) => Ok(id),
        None => Err(SelectionError::NotAnId),
    }
}

/// The user's settings after they chose `speaker` from a menu: the voice is
/// the speaker's, the rest is untouched.
pub fn apply_speaker_choice(config: &mut UserConfig, speaker: &SpeakerCatalogEntry)
    ensures
        final(config)@ == (UserConfigView {
            voice_type: speaker@.style_id,
            generator_type: speaker@.generator_type,
            ..old(config)@
        }),
{
    config.set_voice(speaker.voice());
}

/// The fields of the settings card, in display order.
pub open spec fn info_card(
    config: UserConfigView,
    display_name: Seq<char>,
    voice_name: Seq<char>,
) -> Seq<(Seq<char>, Seq<char>)> {
    seq![
        ("nickname"@, spoken_name_of(config, display_name)),
        ("voice"@, voice_name),
        ("hello"@, config.hello),
        ("bye"@, config.bye),
    ]
}

/// The fields of the card that shows a user their settings: the name they
/// are read by, the name of their voice, their greeting and their farewell.
pub fn info_fields(config: &UserConfig, display_name: &str, voice_name: &str) -> (r: Vec<
    (String, String),
>)
    ensures
        r@.map_values(|f: (String, String)| (f.0@, f.1@)) == info_card(
            config@,
            display_name@,
            voice_name@,
        ),
{
    let mut out: Vec<(String, String)> = Vec::new();
    out.push(("nickname".to_owned(), config.spoken_name(display_name)));
    out.push(("voice".to_owned(), voice_name.to_owned()));
    out.push(("hello".to_owned(), config.hello.clone()));
    out.push(("bye".to_owned(), config.bye.clone()));
    assert(out@.map_values(|f: (String, String)| (f.0@, f.1@)) =~= info_card(
        config@,
        display_name@,
        voice_name@,
    ));
    out
}

/// The announcement that a formula is being computed.
pub fn walpha_notice(input: &str) -> (r: String)
    ensures
        r@ == input@ + " を計算するよ！"@,
{
    let mut s = String::from_str(input);
    s.append(" を計算するよ！");
    s
}

/// Whether a chat message is narrated: it was written in the guild's read
/// channel, the bot sits in a voice channel, and the bot did not write it.
pub open spec fn is_narrated(
    read_channel: Option<u64>,
    text_channel: u64,
    bot_channel: Option<u64>,
    author: u64,
    bot: u64,
) -> bool {
    read_channel == Some(text_channel) && bot_channel is Some && author != bot
}

/// Whether a chat message is narrated.
pub fn should_narrate(
    read_channel: Option<u64>,
    text_channel: u64,
    bot_channel: Option<u64>,
    author: u64,
    bot: u64,
) -> (r: bool)
    ensures
        r == is_narrated(read_channel, text_channel, bot_channel, author, bot),
{
    let in_read_channel = match read_channel {
        Some(c) => c == text_channel,
        None => false,
    };
    in_read_channel && bot_channel.is_some() && author != bot
}

} // verus!
