use vstd::prelude::*;
use vstd::string::StringExecFns;
use crate::config::ConfigError;

verus! {

#[verifier::external_type_specification]
#[verifier::external_body]
pub struct ExRegex(regex::Regex);

#[verifier::external_type_specification]
#[verifier::external_body]
pub struct ExRegexError(regex::Error);

/// Whether the regex crate accepts `pattern` as a regular expression.
pub uninterp spec fn regex_compiles(pattern: Seq<char>) -> bool;

/// Whether the regular expression `pattern` matches somewhere in `text`.
pub uninterp spec fn regex_finds(pattern: Seq<char>, text: Seq<char>) -> bool;

/// Relies on `regex::Regex::new`: it returns `Ok` exactly for the patterns it
/// accepts, a property of the pattern text alone.
#[verifier::external_body]
fn compile_regex(source: &str) -> (r: Result<regex::Regex, regex::Error>)
    ensures
        r is Ok <==> regex_compiles(source@),
{
    regex::Regex::new(source)
}

/// A name pattern: a regular expression together with its source text.
#[derive(Debug)]
pub struct Pattern {
    source: String,
    regex: regex::Regex,
}

impl View for Pattern {
    type V = Seq<char>;

    closed spec fn view(&self) -> Seq<char> {
        self.source@
    }
}

/// The source texts of a sequence of patterns.
pub open spec fn sources(ps: Seq<Pattern>) -> Seq<Seq<char>> {
    ps.map_values(|p: Pattern| p@)
}

/// A base name passes the name filter when the filter is empty or when at least
/// one of its patterns matches the name.
pub open spec fn name_allowed(patterns: Seq<Seq<char>>, name: Seq<char>) -> bool {
    patterns.len() == 0 || exists|i: int|
        0 <= i < patterns.len() && #[trigger] regex_finds(patterns[i], name)
}

impl Pattern {
    /// Compiles `source`; fails, naming it, exactly when it is not a valid
    /// regular expression.
    pub fn new(source: &str) -> (r: Result<Pattern, ConfigError>)
        ensures
            r is Ok <==> regex_compiles(source@),
            r matches Ok(p) ==> p@ == source@,
            r matches Err(e) ==> e matches ConfigError::InvalidName(n) && n@ == source@,
    {
        match compile_regex(source) {
            Ok(regex) => Ok(Pattern { source: String::from_str(source), regex }),
            Err(_) => Err(ConfigError::InvalidName(String::from_str(source))),
        }
    }

    /// The pattern's source text.
    pub fn as_str(&self) -> (r: &str)
        ensures
            r@ == self@,
    {
        self.source.as_str()
    }

    /// Relies on `regex::Regex::is_match` on the regex that `new` compiled from
    /// `self.source`: whether it matches anywhere in `text`.
    #[verifier::external_body]
    fn finds_in(&self, text: &str) -> (r: bool)
        ensures
            r == regex_finds(self@, text@),
    {
        self.regex.is_match(text)
    }
}

/// Tests a base name against the name filter: true when `patterns` is empty or
/// when one of them matches.
pub fn name_passes(patterns: &Vec<Pattern>, name: &str) -> (r: bool)
    ensures
        r == name_allowed(sources(patterns@), name@),
{
    if patterns.len() == 0 {
        return true;
    }
    let mut i: usize = 0;
    while i < patterns.len()
        invariant
            0 <= i <= patterns@.len(),
            forall|j: int| 0 <= j < i ==> !regex_finds(#[trigger] sources(patterns@)[j], name@),
        decreases patterns@.len() - i,
    {
        if patterns[i].finds_in(name) {
            assert(sources(patterns@)[i as int] == patterns@[i as int]@);
            return true;
        }
        assert(sources(patterns@)[i as int] == patterns@[i as int]@);
        i += 1;
    }
    false
}

} // verus!
