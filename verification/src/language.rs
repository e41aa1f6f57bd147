//! Languages and networks.

use vstd::prelude::*;
use crate::text::str_equal;

verus! {

/// A language of the user interface.
#[derive(Clone, Copy, PartialEq, Eq, Structural, Debug)]
pub enum Language {
    English,
    French,
    German,
    Hungarian,
    Spanish,
}

impl Default for Language {
    fn default() -> (r: Self)
        ensures
            r == Language::English,
    {
        Language::English
    }
}

/// A Stellar network.
#[derive(Clone, Copy, PartialEq, Eq, Structural, Debug)]
pub enum NetworkEnvironment {
    Production,
    Test,
}


/// The code that the language selector uses for `lang`.
pub open spec fn language_code_of(lang: Language) -> Seq<char> {
    match lang {
        Language::English => "en"@,
        Language::Hungarian => "hu"@,
        Language::French => "fr"@,
        Language::German => "de"@,
        Language::Spanish => "es"@,
    }
}

/// The language that the selector code `code` stands for; an unknown code means English.
pub open spec fn language_for_code(code: Seq<char>) -> Language {
    if code == "hu"@ {
        Language::Hungarian
    } else if code == "fr"@ {
        Language::French
    } else if code == "de"@ {
        Language::German
    } else if code == "es"@ {
        Language::Spanish
    } else {
        Language::English
    }
}

/// The selector code of `lang`.
pub fn language_code(lang: Language) -> (r: &'static str)
    ensures
        r@ == language_code_of(lang),
{
    match lang {
        Language::English => "en",
        Language::Hungarian => "hu",
        Language::French => "fr",
        Language::German => "de",
        Language::Spanish => "es",
    }
}

/// The language of selector code `code`; unknown codes select English.
pub fn language_from_code(code: &str) -> (r: Language)
    ensures
        r == language_for_code(code@),
{
    if str_equal(code, "hu") {
        Language::Hungarian
    } else if str_equal(code, "fr") {
        Language::French
    } else if str_equal(code, "de") {
        Language::German
    } else if str_equal(code, "es") {
        Language::Spanish
    } else {
        Language::English
    }
}

/// Choosing a language in the selector selects that language: the code the
/// selector shows for a language leads back to the same language.
pub proof fn lemma_language_code_roundtrip(lang: Language)
    ensures
        language_for_code(language_code_of(lang)) == lang,
{
    reveal_strlit("en");
    reveal_strlit("hu");
    reveal_strlit("fr");
    reveal_strlit("de");
    reveal_strlit("es");
    assert("en"@[0] != "hu"@[0] && "en"@[0] != "fr"@[0] && "en"@[0] != "de"@[0]);
    assert("en"@[1] != "es"@[1]);
    assert("fr"@[0] != "hu"@[0]);
    assert("de"@[0] != "hu"@[0] && "de"@[0] != "fr"@[0]);
    assert("es"@[0] != "hu"@[0] && "es"@[0] != "fr"@[0] && "es"@[0] != "de"@[0]);
}

/// The network that a network switch leads to from `net`.
pub open spec fn other_network(net: NetworkEnvironment) -> NetworkEnvironment {
    match net {
        NetworkEnvironment::Production => NetworkEnvironment::Test,
        NetworkEnvironment::Test => NetworkEnvironment::Production,
    }
}

impl NetworkEnvironment {
    /// The other network.
    pub fn other(self) -> (r: NetworkEnvironment)
        ensures
            r == other_network(self),
    {
        match self {
            NetworkEnvironment::Production => NetworkEnvironment::Test,
            NetworkEnvironment::Test => NetworkEnvironment::Production,
        }
    }
}

/// Switching networks twice returns to the network one started from, and a switch
/// always changes the network.
pub proof fn lemma_network_switch_involution(net: NetworkEnvironment)
    ensures
        other_network(other_network(net)) == net,
        other_network(net) != net,
{
}

} // verus!
