use vstd::prelude::*;
use crate::config::{Config, ConfigView};
use crate::kind::{EntryType, kind_allowed};
use crate::pattern::regex_finds;
use crate::pipeline::{Entry, WalkStep, entry_shown, name_matches, printed_of, shown_entries};

verus! {

/// The paths of the walk's entries of the three known kinds, in walk order.
pub open spec fn listed_paths(steps: Seq<WalkStep>) -> Seq<Seq<char>>
    decreases steps.len(),
{
    if steps.len() == 0 {
        seq![]
    } else {
        let rest = listed_paths(steps.drop_last());
        match steps.last() {
            WalkStep::Found(e) => if e.kind is Some {
                rest.push(e.path@)
            } else {
                rest
            },
            WalkStep::Failed(_) => rest,
        }
    }
}

/// The walk produced entry `e`.
pub open spec fn walked(steps: Seq<WalkStep>, e: Entry) -> bool {
    exists|j: int| 0 <= j < steps.len() && steps[j] == WalkStep::Found(e)
}

/// An entry is among those shown exactly when the walk produced it and it
/// passes both filters.
pub proof fn lemma_shown_iff_walked_and_passing(c: ConfigView, steps: Seq<WalkStep>, e: Entry)
    ensures
        shown_entries(c, steps).contains(e) <==> walked(steps, e) && entry_shown(c, e),
    decreases steps.len(),
{
    if steps.len() > 0 {
        let pre = steps.drop_last();
        let n = steps.len() - 1;
        lemma_shown_iff_walked_and_passing(c, pre, e);
        let rest = shown_entries(c, pre);
        if walked(steps, e) && entry_shown(c, e) {
            let j = choose|j: int| 0 <= j < steps.len() && steps[j] == WalkStep::Found(e);
            if j < n {
                assert(pre[j] == steps[j]);
                let k = choose|k: int| 0 <= k < rest.len() && rest[k] == e;
                match steps.last() {
                    WalkStep::Found(f) => if entry_shown(c, f) {
                        assert(rest.push(f)[k] == e);
                    },
                    WalkStep::Failed(_) => {},
                }
            } else {
                assert(rest.push(e)[rest.len() as int] == e);
            }
        }
        if shown_entries(c, steps).contains(e) {
            match steps.last() {
                WalkStep::Found(f) => if entry_shown(c, f) {
                    let k = choose|k: int|
                        0 <= k < rest.push(f).len() && rest.push(f)[k] == e;
                    if k < rest.len() {
                        assert(rest[k] == e);
                        let j = choose|j: int| 0 <= j < pre.len() && pre[j] == WalkStep::Found(e);
                        assert(steps[j] == WalkStep::Found(e));
                    } else {
                        assert(steps[n] == WalkStep::Found(e));
                    }
                },
                WalkStep::Failed(_) => {},
            }
            if walked(pre, e) {
                let j = choose|j: int| 0 <= j < pre.len() && pre[j] == WalkStep::Found(e);
                assert(steps[j] == WalkStep::Found(e));
            }
        }
    }
}

/// With no name pattern and no kind filter, the walk prints the path of every
/// directory, regular file and symbolic link it produced, in walk order.
pub proof fn lemma_unfiltered_lists_everything(config: Config, steps: Seq<WalkStep>)
    requires
        config@.names.len() == 0,
        config@.entry_types.len() == 0,
    ensures
        printed_of(config@, steps) == listed_paths(steps),
    decreases steps.len(),
{
    if steps.len() > 0 {
        lemma_unfiltered_lists_everything(config, steps.drop_last());
        match steps.last() {
            WalkStep::Found(e) => if e.kind is Some {
                assert(printed_of(config@, steps) =~= printed_of(config@, steps.drop_last()).push(
                    e.path@,
                ));
            },
            WalkStep::Failed(_) => {},
        }
    }
}

/// The kind is one of the three known kinds and a member of `kinds`.
pub open spec fn kind_in(kinds: Seq<EntryType>, kind: Option<EntryType>) -> bool {
    match kind {
        Some(k) => kinds.contains(k),
        None => false,
    }
}

/// With a kind filter, every shown entry has one of the filter's kinds, and
/// every entry the walk produced that has one of them and passes the name
/// filter is shown.
pub proof fn lemma_kind_filter_sound_and_complete(config: Config, steps: Seq<WalkStep>)
    requires
        config@.entry_types.len() > 0,
    ensures
        forall|i: int|
            0 <= i < shown_entries(config@, steps).len() ==> kind_in(
                config@.entry_types,
                (#[trigger] shown_entries(config@, steps)[i]).kind,
            ),
        forall|e: Entry|
            #[trigger] walked(steps, e) && kind_in(config@.entry_types, e.kind) && (
            config@.names.len() == 0 || name_matches(config@, e)) ==> shown_entries(
                config@,
                steps,
            ).contains(e),
{
    let shown = shown_entries(config@, steps);
    assert forall|i: int| 0 <= i < shown.len() implies kind_in(
        config@.entry_types,
        (#[trigger] shown[i]).kind,
    ) by {
        lemma_shown_iff_walked_and_passing(config@, steps, shown[i]);
        assert(shown.contains(shown[i]));
    }
    assert forall|e: Entry|
        #[trigger] walked(steps, e) && kind_in(config@.entry_types, e.kind) && (
        config@.names.len() == 0 || name_matches(config@, e)) implies shown.contains(e) by {
        lemma_shown_iff_walked_and_passing(config@, steps, e);
    }
}

/// With name patterns, an entry the walk produced is shown exactly when its
/// kind passes the kind filter and at least one pattern matches its base name.
pub proof fn lemma_name_filter_any_pattern(config: Config, steps: Seq<WalkStep>, e: Entry)
    requires
        config@.names.len() > 0,
        walked(steps, e),
    ensures
        shown_entries(config@, steps).contains(e) <==> kind_allowed(config@.entry_types, e.kind)
            && (e.name matches Some(n) && exists|k: int|
            0 <= k < config@.names.len() && regex_finds(#[trigger] config@.names[k], n@)),
{
    lemma_shown_iff_walked_and_passing(config@, steps, e);
}

} // verus!
