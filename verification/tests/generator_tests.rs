use narrator::generator::{Generators, UnknownGenerator};

#[test]
fn tags_stand_for_backends() {
    assert_eq!(Generators::from_tag(0), Ok(Generators::COEIROINK));
    assert_eq!(Generators::from_tag(1), Ok(Generators::VOICEVOX));
    assert_eq!(Generators::COEIROINK.tag(), 0);
    assert_eq!(Generators::VOICEVOX.tag(), 1);
}

#[test]
fn unknown_tag_is_an_error() {
    assert_eq!(Generators::from_tag(2), Err(UnknownGenerator));
    assert_eq!(Generators::from_tag(255), Err(UnknownGenerator));
}

#[test]
fn names_stand_for_backends() {
    assert_eq!(Generators::from_name("COEIROINK"), Ok(Generators::COEIROINK));
    assert_eq!(Generators::from_name("VOICEVOX"), Ok(Generators::VOICEVOX));
    assert_eq!(Generators::COEIROINK.name(), "COEIROINK");
    assert_eq!(Generators::VOICEVOX.name(), "VOICEVOX");
}

#[test]
fn unknown_name_is_an_error() {
    assert_eq!(Generators::from_name("voicevox"), Err(UnknownGenerator));
    assert_eq!(Generators::from_name(""), Err(UnknownGenerator));
    assert_eq!(Generators::from_name("VOICEVOX "), Err(UnknownGenerator));
}

#[test]
fn try_from_and_into_agree_with_the_named_functions() {
    assert_eq!(Generators::try_from(1u8), Ok(Generators::VOICEVOX));
    assert_eq!(Generators::try_from(7u8), Err(UnknownGenerator));
    assert_eq!(Generators::try_from("COEIROINK"), Ok(Generators::COEIROINK));
    assert_eq!(Generators::try_from("nothing"), Err(UnknownGenerator));
    let name: &str = Generators::VOICEVOX.into();
    assert_eq!(name, "VOICEVOX");
    let name: &str = Generators::COEIROINK.into();
    assert_eq!(name, "COEIROINK");
}

#[test]
fn a_backend_is_found_again_by_tag_and_by_name() {
    for g in [Generators::COEIROINK, Generators::VOICEVOX] {
        assert_eq!(Generators::from_tag(g.tag()), Ok(g));
        assert_eq!(Generators::from_name(g.name()), Ok(g));
    }
}

#[test]
fn unknown_generator_message() {
    assert_eq!(UnknownGenerator.message(), "no such generator_type");
}
