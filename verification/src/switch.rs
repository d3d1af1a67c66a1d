//! A three-valued switch.

use vstd::prelude::*;
use crate::text::{prefixed, str_eq};

verus! {

/// A feature switch that is explicitly on, explicitly off, or left to what an
/// earlier run settled on.
#[derive(Debug, Clone, Copy, PartialEq, Eq, Structural)]
pub enum Switch {
    /// Explicitly enabled.
    On,
    /// Explicitly disabled.
    Off,
    /// Left to the persisted choice.
    Auto,
}

impl Switch {
    /// The switch that a token stands for, if it is one of `on`, `off`,
    /// `auto`.
    pub open spec fn parse_spec(token: Seq<char>) -> Option<Switch> {
        if token == "on"@ {
            Some(Switch::On)
        } else if token == "off"@ {
            Some(Switch::Off)
        } else if token == "auto"@ {
            Some(Switch::Auto)
        } else {
            None
        }
    }

    /// The token that stands for this switch.
    pub open spec fn token(self) -> Seq<char> {
        match self {
            Switch::On => "on"@,
            Switch::Off => "off"@,
            Switch::Auto => "auto"@,
        }
    }

    /// The words that reject a token which stands for no switch.
    pub open spec fn invalid_message(token: Seq<char>) -> Seq<char> {
        "Invalid switch value: "@ + token
    }
}

impl Default for Switch {
    fn default() -> (switch: Self)
        ensures
            switch == Switch::Auto,
    {
        Switch::Auto
    }
}

impl std::str::FromStr for Switch {
    type Err = String;

    /// Reads a switch. A token other than the three is rejected with a
    /// message that repeats it.
    fn from_str(s: &str) -> (parsed: Result<Self, String>)
        ensures
            Switch::parse_spec(s@) is Some ==> parsed == Ok::<Switch, String>(
                Switch::parse_spec(s@)->Some_0,
            ),
            Switch::parse_spec(s@) is None ==> parsed is Err && parsed->Err_0@
                == Switch::invalid_message(s@),
    {
        if str_eq(s, "on") {
            Ok(Switch::On)
        } else if str_eq(s, "off") {
            Ok(Switch::Off)
        } else if str_eq(s, "auto") {
            Ok(Switch::Auto)
        } else {
            Err(prefixed("Invalid switch value: ", s))
        }
    }
}

/// Each switch is read from its own token, and nothing but the three tokens
/// is read as a switch.
pub proof fn lemma_switch_tokens(switch: Switch, token: Seq<char>)
    ensures
        Switch::parse_spec(switch.token()) == Some(switch),
        Switch::parse_spec(token) == Some(switch) <==> token == switch.token(),
        Switch::parse_spec(token) is None <==> token != "on"@ && token != "off"@ && token
            != "auto"@,
{
    reveal_strlit("on");
    reveal_strlit("off");
    reveal_strlit("auto");
    assert("on"@.len() == 2 && "off"@.len() == 3 && "auto"@.len() == 4);
}

} // verus!
