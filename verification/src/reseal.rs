//! When the miner reseals the block it is working on.

use vstd::prelude::*;
use crate::text::{prefixed, str_eq};

verus! {

/// Which newly arrived transactions make the miner reseal the pending block.
#[derive(Debug, Clone, Copy, PartialEq, Eq, Structural)]
pub struct ResealPolicy {
    /// Reseal on transactions of the node's own accounts.
    pub own: bool,
    /// Reseal on transactions that come from the network.
    pub external: bool,
}

impl ResealPolicy {
    /// The policy that a token stands for, if it is one of `none`, `own`,
    /// `ext`, `all`.
    pub open spec fn parse_spec(token: Seq<char>) -> Option<ResealPolicy> {
        if token == "none"@ {
            Some(ResealPolicy { own: false, external: false })
        } else if token == "own"@ {
            Some(ResealPolicy { own: true, external: false })
        } else if token == "ext"@ {
            Some(ResealPolicy { own: false, external: true })
        } else if token == "all"@ {
            Some(ResealPolicy { own: true, external: true })
        } else {
            None
        }
    }

    /// The token that stands for this policy.
    pub open spec fn token(self) -> Seq<char> {
        if self.own {
            if self.external {
                "all"@
            } else {
                "own"@
            }
        } else {
            if self.external {
                "ext"@
            } else {
                "none"@
            }
        }
    }

    /// The policy of a miner that was given none: reseal on every
    /// transaction.
    pub open spec fn spec_default() -> ResealPolicy {
        ResealPolicy { own: true, external: true }
    }

    /// The words that reject a token which stands for no policy.
    pub open spec fn invalid_message(token: Seq<char>) -> Seq<char> {
        "Invalid reseal value: "@ + token
    }
}

impl Default for ResealPolicy {
    /// Reseal on every transaction.
    fn default() -> (policy: Self)
        ensures
            policy == ResealPolicy::spec_default(),
    {
        ResealPolicy { own: true, external: true }
    }
}

impl std::str::FromStr for ResealPolicy {
    type Err = String;

    /// Reads a reseal policy. A token other than the four is rejected with a
    /// message that repeats it.
    fn from_str(s: &str) -> (parsed: Result<Self, String>)
        ensures
            ResealPolicy::parse_spec(s@) is Some ==> parsed == Ok::<ResealPolicy, String>(
                ResealPolicy::parse_spec(s@)->Some_0,
            ),
            ResealPolicy::parse_spec(s@) is None ==> parsed is Err && parsed->Err_0@
                == ResealPolicy::invalid_message(s@),
    {
        let (own, external) = if str_eq(s, "none") {
            (false, false)
        } else if str_eq(s, "own") {
            (true, false)
        } else if str_eq(s, "ext") {
            (false, true)
        } else if str_eq(s, "all") {
            (true, true)
        } else {
            return Err(prefixed("Invalid reseal value: ", s));
        };

        let reseal = ResealPolicy { own: own, external: external };

        Ok(reseal)
    }
}

/// The length and the first character of each token.
proof fn lemma_token_shapes()
    ensures
        "own"@.len() == 3 && "own"@[0] == 'o',
        "ext"@.len() == 3 && "ext"@[0] == 'e',
        "all"@.len() == 3 && "all"@[0] == 'a',
        "none"@.len() == 4,
{
    reveal_strlit("own");
    reveal_strlit("ext");
    reveal_strlit("all");
    reveal_strlit("none");
}

/// The four tokens and the four pairs of flags stand for each other, one for
/// one; every other token is rejected; and the default policy is what `all`
/// is read as.
pub proof fn lemma_reseal_tokens(policy: ResealPolicy, token: Seq<char>)
    ensures
        ResealPolicy::parse_spec("none"@) == Some(ResealPolicy { own: false, external: false }),
        ResealPolicy::parse_spec("own"@) == Some(ResealPolicy { own: true, external: false }),
        ResealPolicy::parse_spec("ext"@) == Some(ResealPolicy { own: false, external: true }),
        ResealPolicy::parse_spec("all"@) == Some(ResealPolicy { own: true, external: true }),
        ResealPolicy::parse_spec("all"@) == Some(ResealPolicy::spec_default()),
        ResealPolicy::parse_spec(policy.token()) == Some(policy),
        ResealPolicy::parse_spec(token) == Some(policy) <==> token == policy.token(),
        ResealPolicy::parse_spec(token) is None <==> token != "none"@ && token != "own"@ && token
            != "ext"@ && token != "all"@,
{
    lemma_token_shapes();
}

} // verus!
