//! The closed set of speech-synthesis backends.

use vstd::prelude::*;
use crate::text::text_eq;

verus! {

/// A speech-synthesis backend.
#[derive(Clone, Copy, Debug, PartialEq, Eq, Hash, Structural)]
pub enum Generators {
    COEIROINK,
    VOICEVOX,
}

/// A tag or a name that stands for no backend.
#[derive(Clone, Copy, Debug, PartialEq, Eq, Structural)]
pub struct UnknownGenerator;

/// The backend that the numeric tag `tag` stands for, if any.
pub open spec fn generator_of_tag(tag: int) -> Option<Generators> {
    if tag == 0 {
        Some(Generators::COEIROINK)
    } else if tag == 1 {
        Some(Generators::VOICEVOX)
    } else {
        None
    }
}

/// The backend that is called `name`, if any.
pub open spec fn generator_of_name(name: Seq<char>) -> Option<Generators> {
    if name == "COEIROINK"@ {
        Some(Generators::COEIROINK)
    } else if name == "VOICEVOX"@ {
        Some(Generators::VOICEVOX)
    } else {
        None
    }
}

impl UnknownGenerator {
    /// The text shown to the user who asked for the unknown backend.
    pub fn message(&self) -> (r: String)
        ensures
            r@ == "no such generator_type"@,
    {
        "no such generator_type".to_owned()
    }
}

impl Generators {
    /// The numeric tag under which the backend is stored.
    pub open spec fn spec_tag(self) -> u8 {
        match self {
            Generators::COEIROINK => 0,
            Generators::VOICEVOX => 1,
        }
    }

    /// The name of the backend.
    pub open spec fn spec_name(self) -> Seq<char> {
        match self {
            Generators::COEIROINK => "COEIROINK"@,
            Generators::VOICEVOX => "VOICEVOX"@,
        }
    }

    /// The numeric tag under which the backend is stored.
    #[verifier::when_used_as_spec(spec_tag)]
    pub fn tag(self) -> (r: u8)
        ensures
            r == self.spec_tag(),
    {
        match self {
            Generators::COEIROINK => 0,
            Generators::VOICEVOX => 1,
        }
    }

    /// The name of the backend.
    pub fn name(self) -> (r: &'static str)
        ensures
            r@ == self.spec_name(),
    {
        match self {
            Generators::COEIROINK => "COEIROINK",
            Generators::VOICEVOX => "VOICEVOX",
        }
    }

    /// The backend stored under `tag`; an unknown tag is an error, never a
    /// panic.
    pub fn from_tag(tag: u8) -> (r: Result<Generators, UnknownGenerator>)
        ensures
            r == match generator_of_tag(tag as int) {
                Some(g) => Ok::<Generators, UnknownGenerator>(g),
                None => Err(UnknownGenerator),
            },
    {
        if tag == 0 {
            Ok(Generators::COEIROINK)
        } else if tag == 1 {
            Ok(Generators::VOICEVOX)
        } else {
            Err(UnknownGenerator)
        }
    }

    /// The backend called `name`; an unknown name is an error.
    pub fn from_name(name: &str) -> (r: Result<Generators, UnknownGenerator>)
        ensures
            r == match generator_of_name(name@) {
                Some(g) => Ok::<Generators, UnknownGenerator>(g),
                None => Err(UnknownGenerator),
            },
    {
        if text_eq(name, "COEIROINK") {
            Ok(Generators::COEIROINK)
        } else if text_eq(name, "VOICEVOX") {
            Ok(Generators::VOICEVOX)
        } else {
            Err(UnknownGenerator)
        }
    }
}

impl TryFrom<u8> for Generators {
    type Error = UnknownGenerator;

    fn try_from(value: u8) -> (r: Result<Self, Self::Error>) {
        Generators::from_tag(value)
    }
}

impl vstd::std_specs::convert::TryFromSpecImpl<u8> for Generators {
    open spec fn obeys_try_from_spec() -> bool {
        true
    }

    open spec fn try_from_spec(value: u8) -> Result<Self, Self::Error> {
        match generator_of_tag(value as int) {
            Some(g) => Ok(g),
            None => Err(UnknownGenerator),
        }
    }
}

impl<'a> TryFrom<&'a str> for Generators {
    type Error = UnknownGenerator;

    fn try_from(value: &'a str) -> (r: Result<Self, Self::Error>) {
        Generators::from_name(value)
    }
}

impl<'a> vstd::std_specs::convert::TryFromSpecImpl<&'a str> for Generators {
    open spec fn obeys_try_from_spec() -> bool {
        true
    }

    open spec fn try_from_spec(value: &'a str) -> Result<Self, Self::Error> {
        match generator_of_name(value@) {
            Some(g) => Ok(g),
            None => Err(UnknownGenerator),
        }
    }
}

impl From<Generators> for &'static str {
    fn from(value: Generators) -> (r: Self) {
        match value {
            Generators::COEIROINK => "COEIROINK",
            Generators::VOICEVOX => "VOICEVOX",
        }
    }
}

impl vstd::std_specs::convert::FromSpecImpl<Generators> for &'static str {
    open spec fn obeys_from_spec() -> bool {
        true
    }

    open spec fn from_spec(value: Generators) -> Self {
        match value {
            Generators::COEIROINK => "COEIROINK",
            Generators::VOICEVOX => "VOICEVOX",
        }
    }
}

/// The two names are different texts, and a backend is found again by its
/// name and by its tag.
pub proof fn lemma_generator_round_trip(g: Generators)
    ensures
        generator_of_tag(g.spec_tag() as int) == Some(g),
        generator_of_name(g.spec_name()) == Some(g),
{
    reveal_strlit("COEIROINK");
    reveal_strlit("VOICEVOX");
    assert("COEIROINK"@.len() == 9);
    assert("VOICEVOX"@.len() == 8);
}

} // verus!
