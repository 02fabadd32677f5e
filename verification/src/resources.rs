//! The closed set of game-data localisations and their textual tags.

use vstd::prelude::*;
use crate::text::same_text;

verus! {

/// The localisation of the vanilla game's data files.
#[derive(Debug, PartialEq, Eq, Structural, Copy, Clone)]
#[allow(non_camel_case_types)]
pub enum ResourceVersion {
    DUTCH,
    ENGLISH,
    FRENCH,
    GERMAN,
    ITALIAN,
    POLISH,
    RUSSIAN,
    RUSSIAN_GOLD,
}

impl std::str::FromStr for ResourceVersion {
    type Err = String;

    /// Reads a tag, as [`ResourceVersion::from_str`] does: any text but the
    /// eight tags is an error that names the offending text.
    fn from_str(s: &str) -> (r: Result<ResourceVersion, String>)
        ensures
            match ResourceVersion::named_by(s@) {
                Some(v) => r == Ok::<ResourceVersion, String>(v),
                None => r is Err && r->Err_0@ == unknown_version_message(s@),
            },
    {
        ResourceVersion::from_str(s)
    }
}

/// The text that an unknown tag is rejected with.
pub open spec fn unknown_version_message(s: Seq<char>) -> Seq<char> {
    "Resource version "@ + s + " is unknown"@
}

/// The text that a settings file's unknown tag is rejected with: it names
/// the offending text and all eight tags.
pub open spec fn unknown_variant_message(s: Seq<char>) -> Seq<char> {
    "unknown variant `"@ + s
        + "`, expected one of `DUTCH`, `ENGLISH`, `FRENCH`, `GERMAN`, `ITALIAN`, `POLISH`, `RUSSIAN`, `RUSSIAN_GOLD`"@
}

impl ResourceVersion {
    /// The tag a version is written as.
    pub open spec fn tag(self) -> Seq<char> {
        match self {
            ResourceVersion::DUTCH => "DUTCH"@,
            ResourceVersion::ENGLISH => "ENGLISH"@,
            ResourceVersion::FRENCH => "FRENCH"@,
            ResourceVersion::GERMAN => "GERMAN"@,
            ResourceVersion::ITALIAN => "ITALIAN"@,
            ResourceVersion::POLISH => "POLISH"@,
            ResourceVersion::RUSSIAN => "RUSSIAN"@,
            ResourceVersion::RUSSIAN_GOLD => "RUSSIAN_GOLD"@,
        }
    }

    /// The version a text names, if it is one of the eight tags. The match is
    /// exact and case-sensitive.
    pub open spec fn named_by(s: Seq<char>) -> Option<ResourceVersion> {
        if s == "DUTCH"@ {
            Some(ResourceVersion::DUTCH)
        } else if s == "ENGLISH"@ {
            Some(ResourceVersion::ENGLISH)
        } else if s == "FRENCH"@ {
            Some(ResourceVersion::FRENCH)
        } else if s == "GERMAN"@ {
            Some(ResourceVersion::GERMAN)
        } else if s == "ITALIAN"@ {
            Some(ResourceVersion::ITALIAN)
        } else if s == "POLISH"@ {
            Some(ResourceVersion::POLISH)
        } else if s == "RUSSIAN"@ {
            Some(ResourceVersion::RUSSIAN)
        } else if s == "RUSSIAN_GOLD"@ {
            Some(ResourceVersion::RUSSIAN_GOLD)
        } else {
            None
        }
    }

    /// Reads a tag. Any text but the eight tags is an error that names the
    /// offending text.
    pub fn from_str(s: &str) -> (r: Result<ResourceVersion, String>)
        ensures
            match Self::named_by(s@) {
                Some(v) => r == Ok::<ResourceVersion, String>(v),
                None => r is Err && r->Err_0@ == unknown_version_message(s@),
            },
    {
        if same_text(s, "DUTCH") {
            Ok(ResourceVersion::DUTCH)
        } else if same_text(s, "ENGLISH") {
            Ok(ResourceVersion::ENGLISH)
        } else if same_text(s, "FRENCH") {
            Ok(ResourceVersion::FRENCH)
        } else if same_text(s, "GERMAN") {
            Ok(ResourceVersion::GERMAN)
        } else if same_text(s, "ITALIAN") {
            Ok(ResourceVersion::ITALIAN)
        } else if same_text(s, "POLISH") {
            Ok(ResourceVersion::POLISH)
        } else if same_text(s, "RUSSIAN") {
            Ok(ResourceVersion::RUSSIAN)
        } else if same_text(s, "RUSSIAN_GOLD") {
            Ok(ResourceVersion::RUSSIAN_GOLD)
        } else {
            let message = String::from_str("Resource version ").concat(s).concat(" is unknown");
            Err(message)
        }
    }

    /// Reads the tag that a settings file holds. Any text but the eight tags
    /// is an error that names the offending text and every tag there is.
    pub fn from_variant(s: &str) -> (r: Result<ResourceVersion, String>)
        ensures
            match Self::named_by(s@) {
                Some(v) => r == Ok::<ResourceVersion, String>(v),
                None => r is Err && r->Err_0@ == unknown_variant_message(s@),
            },
    {
        match ResourceVersion::from_str(s) {
            Ok(v) => Ok(v),
            Err(_) => Err(
                String::from_str("unknown variant `").concat(s).concat(
                    "`, expected one of `DUTCH`, `ENGLISH`, `FRENCH`, `GERMAN`, `ITALIAN`, `POLISH`, `RUSSIAN`, `RUSSIAN_GOLD`",
                ),
            ),
        }
    }

    /// The tag as a borrowed string.
    pub fn as_str(&self) -> (r: &'static str)
        ensures
            r@ == self.tag(),
    {
        match self {
            ResourceVersion::DUTCH => "DUTCH",
            ResourceVersion::ENGLISH => "ENGLISH",
            ResourceVersion::FRENCH => "FRENCH",
            ResourceVersion::GERMAN => "GERMAN",
            ResourceVersion::ITALIAN => "ITALIAN",
            ResourceVersion::POLISH => "POLISH",
            ResourceVersion::RUSSIAN => "RUSSIAN",
            ResourceVersion::RUSSIAN_GOLD => "RUSSIAN_GOLD",
        }
    }

    /// The tag as an owned string.
    pub fn to_string(&self) -> (r: String)
        ensures
            r@ == self.tag(),
    {
        String::from_str(self.as_str())
    }

    /// Writing a version as its tag and reading the tag back gives the
    /// version again.
    pub proof fn lemma_tag_names_version(self)
        ensures
            Self::named_by(self.tag()) == Some(self),
    {
        reveal_strlit("DUTCH");
        reveal_strlit("ENGLISH");
        reveal_strlit("FRENCH");
        reveal_strlit("GERMAN");
        reveal_strlit("ITALIAN");
        reveal_strlit("POLISH");
        reveal_strlit("RUSSIAN");
        reveal_strlit("RUSSIAN_GOLD");
        assert("DUTCH"@[0] == 'D');
        assert("ENGLISH"@[0] == 'E');
        assert("FRENCH"@[0] == 'F');
        assert("GERMAN"@[0] == 'G');
        assert("ITALIAN"@[0] == 'I');
        assert("POLISH"@[0] == 'P');
        assert("RUSSIAN"@.len() == 7);
        assert("RUSSIAN_GOLD"@.len() == 12);
    }

    /// A text that names a version is that version's tag: reading a tag and
    /// writing the version back gives the text again.
    pub proof fn lemma_named_version_has_tag(s: Seq<char>)
        requires
            Self::named_by(s) is Some,
        ensures
            Self::named_by(s)->Some_0.tag() == s,
    {
    }
}

} // verus!
