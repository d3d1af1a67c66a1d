//! The selector of the journal's pruning algorithm.

use vstd::prelude::*;
use std::str::FromStr;
use crate::text::{prefixed, str_eq};
use crate::user_defaults::UserDefaults;

verus! {

/// How the state journal keeps or discards old entries.
#[derive(Debug, Clone, Copy, PartialEq, Eq, Structural)]
pub enum Algorithm {
    /// Keeps every entry.
    Archive,
    /// Merges entries early.
    EarlyMerge,
    /// Keeps an overlay of the recent entries.
    OverlayRecent,
    /// Counts references to entries.
    RefCounted,
}

impl Algorithm {
    /// The algorithm that a token names, if it names one.
    pub open spec fn parse_spec(token: Seq<char>) -> Option<Algorithm> {
        if token == "archive"@ {
            Some(Algorithm::Archive)
        } else if token == "light"@ {
            Some(Algorithm::EarlyMerge)
        } else if token == "fast"@ {
            Some(Algorithm::OverlayRecent)
        } else if token == "basic"@ {
            Some(Algorithm::RefCounted)
        } else {
            None
        }
    }

    /// The token that names this algorithm.
    pub open spec fn token(self) -> Seq<char> {
        match self {
            Algorithm::Archive => "archive"@,
            Algorithm::EarlyMerge => "light"@,
            Algorithm::OverlayRecent => "fast"@,
            Algorithm::RefCounted => "basic"@,
        }
    }

    /// The words that reject a token which names no algorithm.
    pub open spec fn invalid_message(token: Seq<char>) -> Seq<char> {
        "Invalid algorithm: "@ + token
    }
}

impl Default for Algorithm {
    fn default() -> (algorithm: Self)
        ensures
            algorithm == Algorithm::OverlayRecent,
    {
        Algorithm::OverlayRecent
    }
}

impl FromStr for Algorithm {
    type Err = String;

    /// Reads the name of an algorithm. A token that names none is rejected
    /// with a message that repeats it.
    fn from_str(s: &str) -> (parsed: Result<Self, String>)
        ensures
            Algorithm::parse_spec(s@) is Some ==> parsed == Ok::<Algorithm, String>(
                Algorithm::parse_spec(s@)->Some_0,
            ),
            Algorithm::parse_spec(s@) is None ==> parsed is Err && parsed->Err_0@
                == Algorithm::invalid_message(s@),
    {
        if str_eq(s, "archive") {
            Ok(Algorithm::Archive)
        } else if str_eq(s, "light") {
            Ok(Algorithm::EarlyMerge)
        } else if str_eq(s, "fast") {
            Ok(Algorithm::OverlayRecent)
        } else if str_eq(s, "basic") {
            Ok(Algorithm::RefCounted)
        } else {
            Err(prefixed("Invalid algorithm: ", s))
        }
    }
}

/// The pruning that was asked for: a given algorithm, or whichever an earlier
/// run settled on.
#[derive(Debug, Clone, Copy, PartialEq, Eq, Structural)]
pub enum Pruning {
    /// This algorithm, whatever was chosen before.
    Specific(Algorithm),
    /// The algorithm that the persisted defaults name.
    Auto,
}

impl Pruning {
    /// The selector that a token stands for: `auto`, or the name of an
    /// algorithm.
    pub open spec fn parse_spec(token: Seq<char>) -> Option<Pruning> {
        if token == "auto"@ {
            Some(Pruning::Auto)
        } else {
            match Algorithm::parse_spec(token) {
                Some(algorithm) => Some(Pruning::Specific(algorithm)),
                None => None,
            }
        }
    }

    /// The algorithm that the selector comes to, given the persisted choice.
    pub open spec fn resolve(self, persisted: Algorithm) -> Algorithm {
        match self {
            Pruning::Specific(algorithm) => algorithm,
            Pruning::Auto => persisted,
        }
    }

    /// The algorithm to run with: the one asked for, or for `Auto` the one
    /// that the persisted defaults hold. There is always one.
    pub fn to_algorithm(&self, user_defaults: &UserDefaults) -> (algorithm: Algorithm)
        ensures
            algorithm == self.resolve(user_defaults.pruning),
    {
        match *self {
            Pruning::Specific(algo) => algo,
            Pruning::Auto => user_defaults.pruning,
        }
    }
}

impl Default for Pruning {
    fn default() -> (pruning: Self)
        ensures
            pruning == Pruning::Auto,
    {
        Pruning::Auto
    }
}

impl FromStr for Pruning {
    type Err = String;

    /// Reads a pruning selector. What is neither `auto` nor the name of an
    /// algorithm is rejected as the reading of algorithm names rejects it.
    fn from_str(s: &str) -> (parsed: Result<Self, String>)
        ensures
            Pruning::parse_spec(s@) is Some ==> parsed == Ok::<Pruning, String>(
                Pruning::parse_spec(s@)->Some_0,
            ),
            Pruning::parse_spec(s@) is None ==> parsed is Err && parsed->Err_0@
                == Algorithm::invalid_message(s@),
    {
        if str_eq(s, "auto") {
            Ok(Pruning::Auto)
        } else {
            match Algorithm::from_str(s) {
                Ok(algorithm) => Ok(Pruning::Specific(algorithm)),
                Err(message) => Err(message),
            }
        }
    }
}

/// The length and the first character of each token.
proof fn lemma_token_shapes()
    ensures
        "auto"@.len() == 4 && "auto"@[0] == 'a',
        "fast"@.len() == 4 && "fast"@[0] == 'f',
        "light"@.len() == 5 && "light"@[0] == 'l',
        "basic"@.len() == 5 && "basic"@[0] == 'b',
        "archive"@.len() == 7,
{
    reveal_strlit("auto");
    reveal_strlit("fast");
    reveal_strlit("light");
    reveal_strlit("basic");
    reveal_strlit("archive");
}

/// Each algorithm is read from its own token, no two tokens name the same
/// algorithm, and nothing but the four tokens names one.
pub proof fn lemma_algorithm_tokens(algorithm: Algorithm, token: Seq<char>)
    ensures
        Algorithm::parse_spec(algorithm.token()) == Some(algorithm),
        Algorithm::parse_spec(token) == Some(algorithm) <==> token == algorithm.token(),
        Algorithm::parse_spec("archive"@) == Some(Algorithm::Archive),
        Algorithm::parse_spec("light"@) == Some(Algorithm::EarlyMerge),
        Algorithm::parse_spec("fast"@) == Some(Algorithm::OverlayRecent),
        Algorithm::parse_spec("basic"@) == Some(Algorithm::RefCounted),
{
    lemma_token_shapes();
}

/// `auto` is read as the automatic choice, a token that names an algorithm as
/// that algorithm, and any other token is rejected.
pub proof fn lemma_pruning_tokens(token: Seq<char>)
    ensures
        Pruning::parse_spec("auto"@) == Some(Pruning::Auto),
        Pruning::parse_spec(token) == Some(Pruning::Auto) <==> token == "auto"@,
        forall|algorithm: Algorithm|
            Pruning::parse_spec(token) == Some(Pruning::Specific(algorithm)) <==> token
                == #[trigger] algorithm.token(),
        Pruning::parse_spec(token) is None <==> token != "auto"@ && forall|algorithm: Algorithm|
            token != #[trigger] algorithm.token(),
{
    lemma_token_shapes();
    assert forall|algorithm: Algorithm|
        Pruning::parse_spec(token) == Some(Pruning::Specific(algorithm)) <==> token
            == #[trigger] algorithm.token() by {
        lemma_algorithm_tokens(algorithm, token);
    }
    if Pruning::parse_spec(token) is None {
        assert forall|algorithm: Algorithm| token != #[trigger] algorithm.token() by {
            lemma_algorithm_tokens(algorithm, token);
        }
    } else if token != "auto"@ {
        let algorithm = Algorithm::parse_spec(token)->Some_0;
        lemma_algorithm_tokens(algorithm, token);
        assert(token == algorithm.token());
    }
}

} // verus!
