use vstd::prelude::*;
use vstd::string::StrSliceExecFns;

verus! {

/// The kind of a filesystem entry that the filters know.
#[derive(Clone, Copy, Debug, PartialEq, Eq, Structural)]
pub enum EntryType {
    Dir,
    File,
    Link,
}

/// The kind that a `--type` token names: `d`, `f` or `l`.
pub open spec fn token_kind(t: Seq<char>) -> Option<EntryType> {
    if t == seq!['d'] {
        Some(EntryType::Dir)
    } else if t == seq!['f'] {
        Some(EntryType::File)
    } else if t == seq!['l'] {
        Some(EntryType::Link)
    } else {
        None
    }
}

/// An entry of kind `kind` passes the filter `kinds`. An empty filter passes
/// every entry of the three known kinds; an entry of another kind never passes.
pub open spec fn kind_allowed(kinds: Seq<EntryType>, kind: Option<EntryType>) -> bool {
    match kind {
        Some(k) => kinds.len() == 0 || kinds.contains(k),
        None => false,
    }
}

impl EntryType {
    /// Reads a `--type` token.
    pub fn from_token(t: &str) -> (r: Option<EntryType>)
        ensures
            r == token_kind(t@),
    {
        if t.unicode_len() != 1 {
            assert(t@.len() != seq!['d'].len());
            return None;
        }
        let c = t.get_char(0);
        if c == 'd' {
            assert(t@ =~= seq!['d']);
            Some(EntryType::Dir)
        } else if c == 'f' {
            assert(t@ =~= seq!['f']);
            Some(EntryType::File)
        } else if c == 'l' {
            assert(t@ =~= seq!['l']);
            Some(EntryType::Link)
        } else {
            assert(t@ != seq!['d'] && t@ != seq!['f'] && t@ != seq!['l']) by {
                assert(t@[0] == c);
            }
            None
        }
    }
}

/// Tests an entry's kind against the kind filter.
pub fn kind_passes(kinds: &Vec<EntryType>, kind: Option<EntryType>) -> (r: bool)
    ensures
        r == kind_allowed(kinds@, kind),
{
    match kind {
        None => false,
        Some(k) => {
            if kinds.len() == 0 {
                return true;
            }
            let mut i: usize = 0;
            while i < kinds.len()
                invariant
                    0 <= i <= kinds@.len(),
                    kind == Some(k),
                    forall|j: int| 0 <= j < i ==> kinds@[j] != k,
                decreases kinds@.len() - i,
            {
                if kinds[i] == k {
                    assert(kinds@[i as int] == k);
                    return true;
                }
                i += 1;
            }
            false
        }
    }
}

} // verus!
