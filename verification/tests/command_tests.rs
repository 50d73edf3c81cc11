use narrator::command::{
    apply_speaker_choice, command_kind, follow_up, get_argument, info_fields, menu_options, reply_content,
    selected_speaker_id, should_narrate, speaker_menus, walpha_notice, ArgumentError, ArgumentValue, Command,
    CommandKind, CommandOption, FollowUp, FollowUpError, MenuOption, SelectionError, SlashCommandTextResult,
    SpeakerMenu,
};
use narrator::generator::Generators;
use narrator::request::NarrationRequest;
use narrator::voice::{SpeakerCatalogEntry, UserConfig};

fn speaker(id: u64, g: Generators, style: u32, name: &str, style_name: &str) -> SpeakerCatalogEntry {
    SpeakerCatalogEntry {
        id,
        generator_type: g,
        style_id: style,
        name: name.to_string(),
        style_name: style_name.to_string(),
    }
}

fn command(options: Vec<CommandOption>) -> Command {
    Command { name: "walpha".to_string(), guild_id: Some(1), user_id: 2, options }
}

#[test]
fn from_str_is_read_and_formatted() {
    let r = SlashCommandTextResult::from_str("hello");
    assert_eq!(r.msg(), "hello");
    assert!(r.read());
    assert!(r.format());
    assert_eq!(r.voice_type(), None);
    assert_eq!(r.generator_type(), None);
}

#[test]
fn from_str_and_flags_keeps_the_flags() {
    for read in [false, true] {
        for format in [false, true] {
            let r = SlashCommandTextResult::from_str_and_flags("x", read, format);
            assert_eq!(r.msg(), "x");
            assert_eq!(r.read(), read);
            assert_eq!(r.format(), format);
            assert_eq!(r.voice_type(), None);
            assert_eq!(r.generator_type(), None);
        }
    }
}

#[test]
fn from_str_equals_from_str_and_flags_with_both_set() {
    assert_eq!(
        SlashCommandTextResult::from_str("abc"),
        SlashCommandTextResult::from_str_and_flags("abc", true, true)
    );
}

#[test]
fn with_voice_sets_the_voice_only() {
    let r = SlashCommandTextResult::from_str_and_flags("x", true, false).with_voice(Some(4), Some(1));
    assert_eq!(r.msg(), "x");
    assert!(r.read());
    assert!(!r.format());
    assert_eq!(r.voice_type(), Some(4));
    assert_eq!(r.generator_type(), Some(1));
    assert_eq!(r.clone(), r);
}

#[test]
fn get_argument_gives_the_resolved_value() {
    let c = command(vec![
        CommandOption { name: "a".to_string(), resolved: Some(ArgumentValue::String("1+1".to_string())) },
        CommandOption { name: "b".to_string(), resolved: Some(ArgumentValue::Integer(-3)) },
    ]);
    assert_eq!(get_argument(&c, 0), Ok(&ArgumentValue::String("1+1".to_string())));
    assert_eq!(get_argument(&c, 1), Ok(&ArgumentValue::Integer(-3)));
}

#[test]
fn get_argument_index_out_of_range() {
    let c = command(vec![CommandOption { name: "a".to_string(), resolved: Some(ArgumentValue::Boolean(true)) }]);
    assert_eq!(get_argument(&c, 1), Err(ArgumentError::IndexOutOfRange));
    assert_eq!(get_argument(&c, usize::MAX), Err(ArgumentError::IndexOutOfRange));
    assert_eq!(get_argument(&command(vec![]), 0), Err(ArgumentError::IndexOutOfRange));
}

#[test]
fn get_argument_could_not_parse() {
    let c = command(vec![CommandOption { name: "a".to_string(), resolved: None }]);
    assert_eq!(get_argument(&c, 0), Err(ArgumentError::CouldNotParse));
}

#[test]
fn argument_error_messages() {
    assert_eq!(ArgumentError::IndexOutOfRange.message(), "index out of range");
    assert_eq!(ArgumentError::CouldNotParse.message(), "could not parse");
}

#[test]
fn commands_are_sorted_by_how_they_are_answered() {
    for name in ["add", "rem", "hello", "bye", "join", "leave", "mute", "unmute", "rand_member", "set_nickname"] {
        assert_eq!(command_kind(name), CommandKind::TextReply);
    }
    assert_eq!(command_kind("info"), CommandKind::Info);
    assert_eq!(command_kind("set_voice_type"), CommandKind::SetVoiceType);
    assert_eq!(command_kind("walpha"), CommandKind::Walpha);
    assert_eq!(command_kind("help"), CommandKind::Help);
    assert_eq!(command_kind("play"), CommandKind::Unknown);
    assert_eq!(command_kind(""), CommandKind::Unknown);
    assert_eq!(command_kind("ADD"), CommandKind::Unknown);
    assert_eq!(command_kind("add "), CommandKind::Unknown);
}

#[test]
fn reply_is_the_answer_or_the_failure() {
    assert_eq!(reply_content(&Ok(SlashCommandTextResult::from_str("done"))), "done");
    assert_eq!(reply_content(&Err("storage is down".to_string())), "storage is down");
}

#[test]
fn a_read_answer_is_spoken() {
    let content = SlashCommandTextResult::from_str_and_flags("done", true, false).with_voice(Some(3), Some(1));
    assert_eq!(
        follow_up(true, &Ok(content), 10, 20),
        Ok(FollowUp::Speak(NarrationRequest {
            text: "done".to_string(),
            guild_id: 10,
            user_id: 20,
            voice_override: Some(3),
            generator_override: Some(Generators::VOICEVOX),
            format: false,
            read: true,
        }))
    );
    assert_eq!(
        follow_up(true, &Ok(SlashCommandTextResult::from_str("hi")), 1, 2),
        Ok(FollowUp::Speak(NarrationRequest::plain("hi", 1, 2)))
    );
}

#[test]
fn nothing_is_spoken_for_a_silent_failed_or_undelivered_answer() {
    let silent = SlashCommandTextResult::from_str_and_flags("done", false, true);
    assert_eq!(follow_up(true, &Ok(silent), 1, 2), Ok(FollowUp::Silent));
    assert_eq!(follow_up(true, &Err("no".to_string()), 1, 2), Ok(FollowUp::Silent));
    assert_eq!(follow_up(false, &Ok(SlashCommandTextResult::from_str("hi")), 1, 2), Ok(FollowUp::Silent));
    // An unknown backend tag does not matter where nothing is spoken.
    let odd = SlashCommandTextResult::from_str_and_flags("x", false, true).with_voice(None, Some(9));
    assert_eq!(follow_up(true, &Ok(odd), 1, 2), Ok(FollowUp::Silent));
}

#[test]
fn an_unknown_backend_tag_is_refused() {
    let content = SlashCommandTextResult::from_str("done").with_voice(None, Some(2));
    assert_eq!(follow_up(true, &Ok(content), 1, 2), Err(FollowUpError::UnknownGenerator));
}

#[test]
fn menus_list_the_speakers_of_each_backend_in_catalog_order() {
    let catalog = vec![
        speaker(1, Generators::VOICEVOX, 0, "B", "normal"),
        speaker(2, Generators::COEIROINK, 0, "A", "normal"),
        speaker(3, Generators::VOICEVOX, 1, "B", "happy"),
    ];
    assert_eq!(
        speaker_menus(&catalog),
        vec![
            SpeakerMenu {
                generator_type: Generators::COEIROINK,
                options: vec![MenuOption { label: "A normal".to_string(), value: 2 }],
            },
            SpeakerMenu {
                generator_type: Generators::VOICEVOX,
                options: vec![
                    MenuOption { label: "B normal".to_string(), value: 1 },
                    MenuOption { label: "B happy".to_string(), value: 3 },
                ],
            },
        ]
    );
    assert_eq!(menu_options(&catalog, Generators::COEIROINK).len(), 1);
}

#[test]
fn a_backend_without_speakers_gets_no_menu() {
    let catalog = vec![speaker(1, Generators::VOICEVOX, 0, "B", "normal")];
    let menus = speaker_menus(&catalog);
    assert_eq!(menus.len(), 1);
    assert_eq!(menus[0].generator_type, Generators::VOICEVOX);
    assert_eq!(speaker_menus(&vec![]), vec![]);
}

#[test]
fn the_first_value_of_a_menu_event_selects_the_speaker() {
    assert_eq!(selected_speaker_id(&vec!["12".to_string(), "13".to_string()]), Ok(12));
    assert_eq!(selected_speaker_id(&vec![]), Err(SelectionError::NoValue));
    assert_eq!(selected_speaker_id(&vec!["x".to_string()]), Err(SelectionError::NotAnId));
    assert_eq!(selected_speaker_id(&vec!["-1".to_string()]), Err(SelectionError::NotAnId));
    assert_eq!(selected_speaker_id(&vec!["".to_string()]), Err(SelectionError::NotAnId));
}

#[test]
fn choosing_a_speaker_changes_the_voice_only() {
    let mut c = UserConfig::with_defaults(5);
    c.set_hello("やあ");
    apply_speaker_choice(&mut c, &speaker(9, Generators::VOICEVOX, 8, "B", "happy"));
    assert_eq!(c.voice_type, 8);
    assert_eq!(c.generator_type, Generators::VOICEVOX);
    assert_eq!(c.hello, "やあ");
    assert_eq!(c.bye, "ばいばい");
    assert_eq!(c.user_id, 5);
    assert_eq!(c.read_nickname, None);
}

#[test]
fn info_card_has_four_fields() {
    let mut c = UserConfig::with_defaults(5);
    let f = |a: &str, b: &str| (a.to_string(), b.to_string());
    assert_eq!(
        info_fields(&c, "Alice", "B happy"),
        vec![f("nickname", "Alice"), f("voice", "B happy"), f("hello", "こんにちは"), f("bye", "ばいばい")]
    );
    c.set_nickname(Some("ありす"));
    assert_eq!(info_fields(&c, "Alice", "v")[0], f("nickname", "ありす"));
}

#[test]
fn walpha_notice_names_the_formula() {
    assert_eq!(walpha_notice("1+1"), "1+1 を計算するよ！");
}

#[test]
fn a_message_is_narrated_in_the_read_channel_only() {
    assert!(should_narrate(Some(5), 5, Some(9), 1, 2));
    assert!(!should_narrate(Some(5), 6, Some(9), 1, 2));
    assert!(!should_narrate(None, 5, Some(9), 1, 2));
}

#[test]
fn a_message_is_not_narrated_without_voice_channel_or_from_the_bot() {
    assert!(!should_narrate(Some(5), 5, None, 1, 2));
    assert!(!should_narrate(Some(5), 5, Some(9), 2, 2));
}
