//! The selector of the network whose specification the node loads.

use vstd::prelude::*;
use crate::text::str_eq;

verus! {

/// Which network specification to load: one of the well-known networks, or a
/// specification file named by its path.
#[derive(Debug, PartialEq, Eq)]
pub enum SpecType {
    Foundation,
    Morden,
    Ropsten,
    Kovan,
    Olympic,
    Classic,
    Expanse,
    Dev,
    /// A specification file. The path is kept as written and is not looked at
    /// until the specification is loaded.
    Custom(String),
}

/// The mathematical value of a [`SpecType`]: the same variants, with the path
/// of a custom specification as a sequence of characters.
pub enum SpecTypeView {
    Foundation,
    Morden,
    Ropsten,
    Kovan,
    Olympic,
    Classic,
    Expanse,
    Dev,
    Custom(Seq<char>),
}

impl View for SpecType {
    type V = SpecTypeView;

    open spec fn view(&self) -> SpecTypeView {
        match *self {
            SpecType::Foundation => SpecTypeView::Foundation,
            SpecType::Morden => SpecTypeView::Morden,
            SpecType::Ropsten => SpecTypeView::Ropsten,
            SpecType::Kovan => SpecTypeView::Kovan,
            SpecType::Olympic => SpecTypeView::Olympic,
            SpecType::Classic => SpecTypeView::Classic,
            SpecType::Expanse => SpecTypeView::Expanse,
            SpecType::Dev => SpecTypeView::Dev,
            SpecType::Custom(path) => SpecTypeView::Custom(path@),
        }
    }
}

impl SpecTypeView {
    /// Whether this is one of the well-known networks.
    pub open spec fn is_builtin(self) -> bool {
        !(self is Custom)
    }

    /// Whether `token` is one of the written forms of this well-known network.
    /// A custom specification has no alias.
    pub open spec fn has_alias(self, token: Seq<char>) -> bool {
        match self {
            SpecTypeView::Foundation => {
                token == "foundation"@ || token == "frontier"@ || token == "homestead"@ || token
                    == "mainnet"@
            },
            SpecTypeView::Classic => {
                token == "frontier-dogmatic"@ || token == "homestead-dogmatic"@ || token
                    == "classic"@
            },
            SpecTypeView::Morden => token == "morden"@ || token == "classic-testnet"@,
            SpecTypeView::Ropsten => token == "ropsten"@,
            SpecTypeView::Kovan => token == "kovan"@ || token == "testnet"@,
            SpecTypeView::Olympic => token == "olympic"@,
            SpecTypeView::Expanse => token == "expanse"@,
            SpecTypeView::Dev => token == "dev"@,
            SpecTypeView::Custom(_) => false,
        }
    }

    /// The written form of this selector: the canonical name of a well-known
    /// network, the path of a custom specification.
    pub open spec fn name(self) -> Seq<char> {
        match self {
            SpecTypeView::Foundation => "foundation"@,
            SpecTypeView::Morden => "morden"@,
            SpecTypeView::Ropsten => "ropsten"@,
            SpecTypeView::Kovan => "kovan"@,
            SpecTypeView::Olympic => "olympic"@,
            SpecTypeView::Classic => "classic"@,
            SpecTypeView::Expanse => "expanse"@,
            SpecTypeView::Dev => "dev"@,
            SpecTypeView::Custom(path) => path,
        }
    }

    /// The historical name under which the two forked networks are known.
    pub open spec fn legacy_fork_name(self) -> Option<Seq<char>> {
        match self {
            SpecTypeView::Classic => Some("classic"@),
            SpecTypeView::Expanse => Some("expanse"@),
            _ => None,
        }
    }

    /// The path of the specification file, for a custom specification.
    pub open spec fn file(self) -> Option<Seq<char>> {
        match self {
            SpecTypeView::Custom(path) => Some(path),
            _ => None,
        }
    }
}

/// Whether `token` is a written form of some well-known network.
pub open spec fn is_known_alias(token: Seq<char>) -> bool {
    exists|network: SpecTypeView| #[trigger] network.has_alias(token)
}

impl SpecType {
    /// The selector that a token stands for: the well-known network that has
    /// it as an alias, and otherwise the custom specification at that path.
    pub open spec fn parse_spec(token: Seq<char>) -> SpecTypeView {
        if SpecTypeView::Foundation.has_alias(token) {
            SpecTypeView::Foundation
        } else if SpecTypeView::Classic.has_alias(token) {
            SpecTypeView::Classic
        } else if SpecTypeView::Morden.has_alias(token) {
            SpecTypeView::Morden
        } else if SpecTypeView::Ropsten.has_alias(token) {
            SpecTypeView::Ropsten
        } else if SpecTypeView::Kovan.has_alias(token) {
            SpecTypeView::Kovan
        } else if SpecTypeView::Olympic.has_alias(token) {
            SpecTypeView::Olympic
        } else if SpecTypeView::Expanse.has_alias(token) {
            SpecTypeView::Expanse
        } else if SpecTypeView::Dev.has_alias(token) {
            SpecTypeView::Dev
        } else {
            SpecTypeView::Custom(token)
        }
    }
}

/// The length of each alias, and the first character of those that share a
/// length: enough to tell any two of them apart.
pub proof fn lemma_alias_shapes()
    ensures
        "dev"@.len() == 3,
        "kovan"@.len() == 5,
        "morden"@.len() == 6,
        "mainnet"@.len() == 7 && "mainnet"@[0] == 'm',
        "classic"@.len() == 7 && "classic"@[0] == 'c',
        "ropsten"@.len() == 7 && "ropsten"@[0] == 'r',
        "testnet"@.len() == 7 && "testnet"@[0] == 't',
        "olympic"@.len() == 7 && "olympic"@[0] == 'o',
        "expanse"@.len() == 7 && "expanse"@[0] == 'e',
        "frontier"@.len() == 8,
        "homestead"@.len() == 9,
        "foundation"@.len() == 10,
        "classic-testnet"@.len() == 15,
        "frontier-dogmatic"@.len() == 17,
        "homestead-dogmatic"@.len() == 18,
{
    reveal_strlit("foundation");
    reveal_strlit("frontier");
    reveal_strlit("homestead");
    reveal_strlit("mainnet");
    reveal_strlit("frontier-dogmatic");
    reveal_strlit("homestead-dogmatic");
    reveal_strlit("classic");
    reveal_strlit("morden");
    reveal_strlit("classic-testnet");
    reveal_strlit("ropsten");
    reveal_strlit("kovan");
    reveal_strlit("testnet");
    reveal_strlit("olympic");
    reveal_strlit("expanse");
    reveal_strlit("dev");
}

/// Every written form of a well-known network is read as that network, so any
/// two aliases of one network are read alike.
pub proof fn lemma_aliases_read_alike(network: SpecTypeView, first: Seq<char>, second: Seq<char>)
    requires
        network.has_alias(first),
        network.has_alias(second),
    ensures
        SpecType::parse_spec(first) == network,
        SpecType::parse_spec(second) == network,
{
    lemma_alias_shapes();
}

/// Reading never fails, and a token that is no alias of a well-known network
/// is read as the custom specification that carries the token unchanged. Only
/// such tokens are read as custom specifications.
pub proof fn lemma_unknown_token_is_custom(token: Seq<char>)
    ensures
        !is_known_alias(token) ==> SpecType::parse_spec(token) == SpecTypeView::Custom(token),
        is_known_alias(token) ==> SpecType::parse_spec(token).is_builtin() && SpecType::parse_spec(
            token,
        ).has_alias(token),
{
    if is_known_alias(token) {
        let network = choose|network: SpecTypeView| #[trigger] network.has_alias(token);
        lemma_aliases_read_alike(network, token, token);
    }
}

/// The name of a well-known network is one of its own aliases, and is read
/// back as that network.
pub proof fn lemma_name_is_alias(network: SpecTypeView)
    requires
        network.is_builtin(),
    ensures
        network.has_alias(network.name()),
        SpecType::parse_spec(network.name()) == network,
{
    lemma_aliases_read_alike(network, network.name(), network.name());
}

/// Writing a selector that was read and reading it again gives the same
/// selector, whatever alias the first reading started from.
pub proof fn lemma_read_write_read(token: Seq<char>)
    ensures
        SpecType::parse_spec(SpecType::parse_spec(token).name()) == SpecType::parse_spec(token),
{
    let selector = SpecType::parse_spec(token);
    lemma_unknown_token_is_custom(token);
    if selector.is_builtin() {
        lemma_name_is_alias(selector);
    }
}

impl Default for SpecType {
    fn default() -> (selector: Self)
        ensures
            selector == SpecType::Foundation,
    {
        SpecType::Foundation
    }
}

impl std::str::FromStr for SpecType {
    type Err = String;

    /// Reads a selector. Every token is accepted: one that names no well-known
    /// network is taken as the path of a specification file.
    fn from_str(s: &str) -> (parsed: Result<Self, String>)
        ensures
            parsed is Ok,
            parsed->Ok_0@ == SpecType::parse_spec(s@),
    {
        let selector = if str_eq(s, "foundation") || str_eq(s, "frontier") || str_eq(s, "homestead")
            || str_eq(s, "mainnet") {
            SpecType::Foundation
        } else if str_eq(s, "frontier-dogmatic") || str_eq(s, "homestead-dogmatic") || str_eq(
            s,
            "classic",
        ) {
            SpecType::Classic
        } else if str_eq(s, "morden") || str_eq(s, "classic-testnet") {
            SpecType::Morden
        } else if str_eq(s, "ropsten") {
            SpecType::Ropsten
        } else if str_eq(s, "kovan") || str_eq(s, "testnet") {
            SpecType::Kovan
        } else if str_eq(s, "olympic") {
            SpecType::Olympic
        } else if str_eq(s, "expanse") {
            SpecType::Expanse
        } else if str_eq(s, "dev") {
            SpecType::Dev
        } else {
            SpecType::Custom(s.to_owned())
        };
        Ok(selector)
    }
}

impl SpecType {
    /// The written form of the selector: the canonical name of a well-known
    /// network, or the path of a custom specification as it was given.
    pub fn to_string(&self) -> (text: String)
        ensures
            text@ == self@.name(),
    {
        match self {
            SpecType::Foundation => "foundation".to_owned(),
            SpecType::Morden => "morden".to_owned(),
            SpecType::Ropsten => "ropsten".to_owned(),
            SpecType::Olympic => "olympic".to_owned(),
            SpecType::Classic => "classic".to_owned(),
            SpecType::Expanse => "expanse".to_owned(),
            SpecType::Kovan => "kovan".to_owned(),
            SpecType::Dev => "dev".to_owned(),
            SpecType::Custom(custom) => custom.clone(),
        }
    }

    /// The historical fork name, which only the two forked networks have.
    pub fn legacy_fork_name(&self) -> (name: Option<String>)
        ensures
            name is Some <==> self@.legacy_fork_name() is Some,
            name is Some ==> name->Some_0@ == self@.legacy_fork_name()->Some_0,
    {
        match self {
            SpecType::Classic => Some("classic".to_owned()),
            SpecType::Expanse => Some("expanse".to_owned()),
            _ => None,
        }
    }

    /// The path of the file that holds the specification, where the selector
    /// names one. The well-known networks have none: their specifications are
    /// built in.
    pub fn spec_file(&self) -> (path: Option<String>)
        ensures
            path is Some <==> self@.file() is Some,
            path is Some ==> path->Some_0@ == self@.file()->Some_0,
    {
        match self {
            SpecType::Custom(filename) => Some(filename.clone()),
            _ => None,
        }
    }
}

/// What loading a specification file comes to. `opened` is `None` where the
/// file could not be opened, and otherwise holds what reading its contents
/// gave. A file that cannot be opened is reported in fixed words, whatever the
/// cause was; the outcome of reading is handed on as it is.
pub fn loaded_spec<S>(opened: Option<Result<S, String>>) -> (loaded: Result<S, String>)
    ensures
        opened is Some ==> loaded == opened->Some_0,
        opened is None ==> loaded is Err && loaded->Err_0@
            == "Could not load specification file."@,
{
    match opened {
        Some(read) => read,
        None => Err("Could not load specification file.".to_owned()),
    }
}

} // verus!
