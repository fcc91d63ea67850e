use vstd::prelude::*;
use vstd::string::StringExecFns;
use crate::kind::{EntryType, token_kind};
use crate::pattern::{Pattern, regex_compiles, sources};

verus! {

/// Why a command line does not resolve to a configuration.
#[derive(Debug)]
pub enum ConfigError {
    /// A `--name` value that is not a valid regular expression.
    InvalidName(String),
    /// A `--type` value other than `d`, `f` or `l`.
    InvalidType(String),
}

/// The text of each string in a sequence.
pub open spec fn texts(v: Seq<String>) -> Seq<Seq<char>> {
    v.map_values(|s: String| s@)
}

/// Every pattern text compiles.
pub open spec fn all_compile(names: Seq<Seq<char>>) -> bool {
    forall|i: int| 0 <= i < names.len() ==> #[trigger] regex_compiles(names[i])
}

/// Every token names a kind.
pub open spec fn all_tokens_valid(types: Seq<Seq<char>>) -> bool {
    forall|i: int| 0 <= i < types.len() ==> #[trigger] token_kind(types[i]) is Some
}

/// The diagnostic text of a configuration error.
pub open spec fn error_text(e: ConfigError) -> Seq<char> {
    match e {
        ConfigError::InvalidName(n) => "Invalid --name \""@ + n@ + "\""@,
        ConfigError::InvalidType(t) => "Invalid --type \""@ + t@ + "\""@,
    }
}

impl ConfigError {
    /// The diagnostic that names the offending value.
    pub fn message(&self) -> (r: String)
        ensures
            r@ == error_text(*self),
    {
        let (mut r, value) = match self {
            ConfigError::InvalidName(n) => (String::from_str("Invalid --name \""), n),
            ConfigError::InvalidType(t) => (String::from_str("Invalid --type \""), t),
        };
        r.append(value.as_str());
        r.append("\"");
        r
    }
}

/// What a configuration holds: root paths, name pattern texts and kinds.
pub struct ConfigView {
    pub paths: Seq<Seq<char>>,
    pub names: Seq<Seq<char>>,
    pub entry_types: Seq<EntryType>,
}

/// A validated search configuration: the roots to walk, the name patterns
/// (empty: every name), and the kinds to keep (empty: every kind).
#[derive(Debug)]
pub struct Config {
    paths: Vec<String>,
    names: Vec<Pattern>,
    entry_types: Vec<EntryType>,
}

impl View for Config {
    type V = ConfigView;

    closed spec fn view(&self) -> ConfigView {
        ConfigView {
            paths: texts(self.paths@),
            names: sources(self.names@),
            entry_types: self.entry_types@,
        }
    }
}

/// The roots a configuration walks: those given, or the current directory.
pub open spec fn resolved_paths(paths: Seq<Seq<char>>) -> Seq<Seq<char>> {
    if paths.len() == 0 {
        seq![seq!['.']]
    } else {
        paths
    }
}

/// `i` is the first index whose pattern does not compile.
pub open spec fn first_bad_name(names: Seq<Seq<char>>, i: int) -> bool {
    0 <= i < names.len() && !regex_compiles(names[i]) && all_compile(names.take(i))
}

/// `i` is the first index whose token names no kind.
pub open spec fn first_bad_type(types: Seq<Seq<char>>, i: int) -> bool {
    0 <= i < types.len() && token_kind(types[i]) is None && all_tokens_valid(types.take(i))
}

impl Config {
    /// Resolves command-line values into a configuration. Type tokens are
    /// checked first, then each name pattern is compiled; the first value that
    /// fails is reported and no configuration is returned.
    pub fn new(paths: Vec<String>, names: Vec<String>, types: Vec<String>) -> (r: Result<
        Config,
        ConfigError,
    >)
        ensures
            r is Ok <==> all_tokens_valid(texts(types@)) && all_compile(texts(names@)),
            r matches Ok(c) ==> c@.paths == resolved_paths(texts(paths@)) && c@.names == texts(
                names@,
            ) && c@.entry_types.len() == types@.len() && (forall|i: int|
                0 <= i < types@.len() ==> token_kind(types@[i]@) == Some(
                    #[trigger] c@.entry_types[i],
                )),
            r matches Err(ConfigError::InvalidType(t)) <==> !all_tokens_valid(texts(types@)),
            r matches Err(ConfigError::InvalidType(t)) ==> exists|i: int|
                first_bad_type(texts(types@), i) && t@ == types@[i]@,
            r matches Err(ConfigError::InvalidName(n)) ==> exists|i: int|
                first_bad_name(texts(names@), i) && n@ == names@[i]@,
    {
        let mut entry_types: Vec<EntryType> = Vec::new();
        let mut i: usize = 0;
        while i < types.len()
            invariant
                0 <= i <= types@.len(),
                entry_types@.len() == i,
                all_tokens_valid(texts(types@).take(i as int)),
                forall|j: int|
                    0 <= j < i ==> token_kind(types@[j]@) == Some(#[trigger] entry_types@[j]),
            decreases types@.len() - i,
        {
            assert(texts(types@)[i as int] == types@[i as int]@);
            match EntryType::from_token(types[i].as_str()) {
                Some(k) => entry_types.push(k),
                None => {
                    assert(first_bad_type(texts(types@), i as int));
                    return Err(ConfigError::InvalidType(types[i].clone()));
                },
            }
            assert(texts(types@).take(i + 1) =~= texts(types@).take(i as int).push(
                texts(types@)[i as int],
            ));
            i += 1;
        }
        assert(texts(types@).take(i as int) =~= texts(types@));
        let mut patterns: Vec<Pattern> = Vec::new();
        let mut i: usize = 0;
        while i < names.len()
            invariant
                0 <= i <= names@.len(),
                sources(patterns@) =~= texts(names@).take(i as int),
                all_compile(texts(names@).take(i as int)),
                all_tokens_valid(texts(types@)),
            decreases names@.len() - i,
        {
            assert(texts(names@)[i as int] == names@[i as int]@);
            match Pattern::new(names[i].as_str()) {
                Ok(p) => patterns.push(p),
                Err(e) => {
                    assert(first_bad_name(texts(names@), i as int));
                    return Err(e);
                },
            }
            assert(texts(names@).take(i + 1) =~= texts(names@).take(i as int).push(
                texts(names@)[i as int],
            ));
            assert(sources(patterns@) =~= texts(names@).take(i + 1));
            i += 1;
        }
        assert(texts(names@).take(i as int) =~= texts(names@));
        let paths = if paths.len() == 0 {
            let mut v: Vec<String> = Vec::new();
            v.push(String::from_str("."));
            proof {
                reveal_strlit(".");
                assert("."@ =~= seq!['.']);
                assert(texts(v@)[0] == v@[0]@);
                assert(texts(v@) =~= seq![seq!['.']]);
            }
            v
        } else {
            paths
        };
        Ok(Config { paths, names: patterns, entry_types })
    }

    /// The roots to walk, in the order given.
    pub fn paths(&self) -> (r: &Vec<String>)
        ensures
            texts(r@) == self@.paths,
    {
        &self.paths
    }

    /// The name patterns.
    pub fn names(&self) -> (r: &Vec<Pattern>)
        ensures
            sources(r@) == self@.names,
    {
        &self.names
    }

    /// The kinds to keep.
    pub fn entry_types(&self) -> (r: &Vec<EntryType>)
        ensures
            r@ == self@.entry_types,
    {
        &self.entry_types
    }
}

} // verus!
