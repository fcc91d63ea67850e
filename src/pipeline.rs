use vstd::prelude::*;
use vstd::string::StringExecFns;
use crate::config::{Config, ConfigView, texts};
use crate::kind::{EntryType, kind_allowed, kind_passes};
use crate::pattern::{name_allowed, name_passes};

verus! {

/// One entry that the walk produced: its full path as walked, its base name
/// (`None` when the name is not valid text), and its kind (`None` when it is
/// neither a directory, a regular file nor a symbolic link).
#[derive(Debug)]
pub struct Entry {
    pub path: String,
    pub name: Option<String>,
    pub kind: Option<EntryType>,
}

/// One step of the walk: an entry, or the description of an entry the walker
/// could not produce.
#[derive(Debug)]
pub enum WalkStep {
    Found(Entry),
    Failed(String),
}

/// What to do with one step: print a path, report a diagnostic, or nothing.
#[derive(Debug)]
pub enum Action {
    Print(String),
    Report(String),
    Skip,
}

/// What a whole walk leads to: the printed paths and the diagnostics, each in
/// the order of the walk.
#[derive(Debug)]
pub struct Listing {
    pub printed: Vec<String>,
    pub diagnostics: Vec<String>,
}

/// An entry is shown when its kind passes and, where there are patterns, its
/// name is known and one of them matched (`name_found`).
pub open spec fn shown_given(
    kinds: Seq<EntryType>,
    has_patterns: bool,
    name_found: bool,
    e: Entry,
) -> bool {
    kind_allowed(kinds, e.kind) && (!has_patterns || (e.name is Some && name_found))
}

/// An entry passes the kind filter but its name, which the patterns need, is
/// not valid text.
pub open spec fn unreadable_given(kinds: Seq<EntryType>, has_patterns: bool, e: Entry) -> bool {
    kind_allowed(kinds, e.kind) && has_patterns && e.name is None
}

/// The diagnostic for an entry skipped because its name is not valid text.
pub open spec fn unreadable_text(path: Seq<char>) -> Seq<char> {
    "skipping an entry whose name is not valid UTF-8: "@ + path
}

/// The path a step prints, if any, given whether a pattern matched its name.
pub open spec fn printed_given(
    kinds: Seq<EntryType>,
    has_patterns: bool,
    name_found: bool,
    s: WalkStep,
) -> Option<Seq<char>> {
    match s {
        WalkStep::Found(e) => if shown_given(kinds, has_patterns, name_found, e) {
            Some(e.path@)
        } else {
            None
        },
        WalkStep::Failed(_) => None,
    }
}

/// The diagnostic a step reports, if any.
pub open spec fn reported_given(kinds: Seq<EntryType>, has_patterns: bool, s: WalkStep) -> Option<
    Seq<char>,
> {
    match s {
        WalkStep::Found(e) => if unreadable_given(kinds, has_patterns, e) {
            Some(unreadable_text(e.path@))
        } else {
            None
        },
        WalkStep::Failed(m) => Some(m@),
    }
}

/// The path an action prints.
pub open spec fn action_printed(a: Action) -> Option<Seq<char>> {
    match a {
        Action::Print(p) => Some(p@),
        _ => None,
    }
}

/// The diagnostic an action reports.
pub open spec fn action_reported(a: Action) -> Option<Seq<char>> {
    match a {
        Action::Report(m) => Some(m@),
        _ => None,
    }
}

/// An entry's base name is known and passes the name filter of `c`.
pub open spec fn name_matches(c: ConfigView, e: Entry) -> bool {
    match e.name {
        Some(n) => name_allowed(c.names, n@),
        None => false,
    }
}

/// An entry passes both filters of `c`.
pub open spec fn entry_shown(c: ConfigView, e: Entry) -> bool {
    shown_given(c.entry_types, c.names.len() > 0, name_matches(c, e), e)
}

/// The path a step prints under `c`, if any.
pub open spec fn step_printed(c: ConfigView, s: WalkStep) -> Option<Seq<char>> {
    match s {
        WalkStep::Found(e) => if entry_shown(c, e) {
            Some(e.path@)
        } else {
            None
        },
        WalkStep::Failed(_) => None,
    }
}

/// The diagnostic a step reports under `c`, if any.
pub open spec fn step_reported(c: ConfigView, s: WalkStep) -> Option<Seq<char>> {
    reported_given(c.entry_types, c.names.len() > 0, s)
}

/// The entries of a walk that pass both filters, in walk order.
pub open spec fn shown_entries(c: ConfigView, steps: Seq<WalkStep>) -> Seq<Entry>
    decreases steps.len(),
{
    if steps.len() == 0 {
        seq![]
    } else {
        let rest = shown_entries(c, steps.drop_last());
        match steps.last() {
            WalkStep::Found(e) => if entry_shown(c, e) {
                rest.push(e)
            } else {
                rest
            },
            WalkStep::Failed(_) => rest,
        }
    }
}

/// The paths a walk prints under `c`, in walk order.
pub open spec fn printed_of(c: ConfigView, steps: Seq<WalkStep>) -> Seq<Seq<char>> {
    shown_entries(c, steps).map_values(|e: Entry| e.path@)
}

/// The diagnostics a walk reports under `c`, in walk order.
pub open spec fn reported_of(c: ConfigView, steps: Seq<WalkStep>) -> Seq<Seq<char>>
    decreases steps.len(),
{
    if steps.len() == 0 {
        seq![]
    } else {
        let rest = reported_of(c, steps.drop_last());
        match step_reported(c, steps.last()) {
            Some(m) => rest.push(m),
            None => rest,
        }
    }
}

/// Decides one step from the kind filter, whether there are name patterns,
/// and whether one of them matched the entry's name.
pub fn step_action(
    kinds: &Vec<EntryType>,
    has_patterns: bool,
    name_found: bool,
    step: &WalkStep,
) -> (r: Action)
    ensures
        action_printed(r) == printed_given(kinds@, has_patterns, name_found, *step),
        action_reported(r) == reported_given(kinds@, has_patterns, *step),
{
    match step {
        WalkStep::Failed(m) => Action::Report(m.clone()),
        WalkStep::Found(e) => {
            if !kind_passes(kinds, e.kind) {
                Action::Skip
            } else if !has_patterns {
                Action::Print(e.path.clone())
            } else {
                match &e.name {
                    Some(_) => if name_found {
                        Action::Print(e.path.clone())
                    } else {
                        Action::Skip
                    },
                    None => {
                        let mut m = String::from_str(
                            "skipping an entry whose name is not valid UTF-8: ",
                        );
                        m.append(e.path.as_str());
                        Action::Report(m)
                    },
                }
            }
        },
    }
}

/// Decides one step of the walk under `config`: a failed step is reported; an
/// entry is printed when its kind passes the kind filter and its base name
/// passes the name filter.
pub fn decide(config: &Config, step: &WalkStep) -> (r: Action)
    ensures
        action_printed(r) == step_printed(config@, *step),
        action_reported(r) == step_reported(config@, *step),
{
    let names = config.names();
    let kinds = config.entry_types();
    let has_patterns = names.len() > 0;
    let name_found = match step {
        WalkStep::Found(e) => if has_patterns && kind_passes(kinds, e.kind) {
            match &e.name {
                Some(n) => name_passes(names, n.as_str()),
                None => false,
            }
        } else {
            false
        },
        WalkStep::Failed(_) => false,
    };
    step_action(kinds, has_patterns, name_found, step)
}

/// Runs both filters over a whole walk.
pub fn run_filters(config: &Config, steps: &Vec<WalkStep>) -> (r: Listing)
    ensures
        texts(r.printed@) == printed_of(config@, steps@),
        texts(r.diagnostics@) == reported_of(config@, steps@),
{
    let mut printed: Vec<String> = Vec::new();
    let mut diagnostics: Vec<String> = Vec::new();
    let mut i: usize = 0;
    while i < steps.len()
        invariant
            0 <= i <= steps@.len(),
            texts(printed@) == printed_of(config@, steps@.take(i as int)),
            texts(diagnostics@) == reported_of(config@, steps@.take(i as int)),
        decreases steps@.len() - i,
    {
        let ghost before = steps@.take(i as int);
        let ghost after = steps@.take(i + 1);
        assert(after.drop_last() =~= before);
        assert(after.last() == steps@[i as int]);
        match decide(config, &steps[i]) {
            Action::Print(p) => {
                let ghost old_printed = printed@;
                printed.push(p);
                proof {
                    let e = steps@[i as int]->Found_0;
                    assert(shown_entries(config@, after) == shown_entries(config@, before).push(e));
                    assert(printed_of(config@, after) =~= printed_of(config@, before).push(e.path@));
                    assert(texts(printed@) =~= texts(old_printed).push(p@));
                }
            },
            Action::Report(m) => {
                diagnostics.push(m);
                assert(texts(diagnostics@) =~= reported_of(config@, after));
            },
            Action::Skip => {},
        }
        assert(texts(printed@) =~= printed_of(config@, after));
        assert(texts(diagnostics@) =~= reported_of(config@, after));
        i += 1;
    }
    assert(steps@.take(i as int) =~= steps@);
    Listing { printed, diagnostics }
}

} // verus!
