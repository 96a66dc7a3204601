use vstd::prelude::*;
use crate::EngineError;
use crate::registry::Registry;
use crate::resolver::{
    append_new, glob_expand, glob_matches, is_pattern, resolve_entries, spec_resolve,
};

verus! {

/// For every registry with an active identifier set, resolving with no
/// explicit target list yields exactly that one identifier, whether or not a
/// non-empty result is required.
pub proof fn lemma_resolve_default_is_active(
    ids: Seq<Seq<char>>,
    active: Seq<char>,
    require_non_empty: bool,
)
    ensures
        spec_resolve(ids, Some(active), None, require_non_empty) == Ok::<
            Seq<Seq<char>>,
            EngineError,
        >(seq![active]),
{
}

/// For every registry, resolving an explicit literal identifier that is not
/// registered fails with `NotFound`.
pub proof fn lemma_resolve_missing_literal(
    ids: Seq<Seq<char>>,
    active: Option<Seq<char>>,
    lit: Seq<char>,
    require_non_empty: bool,
)
    requires
        !is_pattern(lit),
        !ids.contains(lit),
    ensures
        spec_resolve(ids, active, Some(seq![lit]), require_non_empty) == Err::<
            Seq<Seq<char>>,
            EngineError,
        >(EngineError::NotFound),
{
    assert(seq![lit][0] == lit);
    assert(resolve_entries(ids, seq![lit], Seq::<Seq<char>>::empty()) == Err::<
        Seq<Seq<char>>,
        EngineError,
    >(EngineError::NotFound));
}

/// A pattern that matches no registered identifier expands to nothing.
pub proof fn lemma_glob_expand_empty(ids: Seq<Seq<char>>, pattern: Seq<char>)
    requires
        forall|j: int| 0 <= j < ids.len() ==> !glob_matches(pattern, #[trigger] ids[j]),
    ensures
        glob_expand(ids, pattern) == Seq::<Seq<char>>::empty(),
    decreases ids.len(),
{
    if ids.len() > 0 {
        assert(forall|j: int|
            0 <= j < ids.drop_last().len() ==> #[trigger] ids.drop_last()[j] == ids[j]);
        lemma_glob_expand_empty(ids.drop_last(), pattern);
        assert(!glob_matches(pattern, ids.last()));
        assert(glob_expand(ids, pattern) =~= Seq::<Seq<char>>::empty());
    }
}

/// For every registry, resolving an explicit pattern that matches no
/// registered identifier fails with `NoMatchingClusters` when a non-empty
/// result is required, and otherwise resolves to the empty target set.
pub proof fn lemma_resolve_unmatched_pattern(
    ids: Seq<Seq<char>>,
    active: Option<Seq<char>>,
    pattern: Seq<char>,
    require_non_empty: bool,
)
    requires
        is_pattern(pattern),
        forall|j: int| 0 <= j < ids.len() ==> !glob_matches(pattern, #[trigger] ids[j]),
    ensures
        spec_resolve(ids, active, Some(seq![pattern]), require_non_empty) == (
        if require_non_empty {
            Err::<Seq<Seq<char>>, EngineError>(EngineError::NoMatchingClusters)
        } else {
            Ok::<Seq<Seq<char>>, EngineError>(Seq::empty())
        }),
{
    lemma_glob_expand_empty(ids, pattern);
    assert(seq![pattern][0] == pattern);
    assert(seq![pattern].skip(1) =~= Seq::<Seq<char>>::empty());
    assert(append_new(Seq::<Seq<char>>::empty(), Seq::<Seq<char>>::empty()) =~= Seq::<
        Seq<char>,
    >::empty());
    assert(resolve_entries(ids, Seq::<Seq<char>>::empty(), Seq::<Seq<char>>::empty()) == Ok::<
        Seq<Seq<char>>,
        EngineError,
    >(Seq::empty()));
    assert(resolve_entries(ids, seq![pattern], Seq::<Seq<char>>::empty()) == Ok::<
        Seq<Seq<char>>,
        EngineError,
    >(Seq::empty()));
}

/// Once no cluster is active — as `Registry::unregister` guarantees after
/// the active cluster is removed — a no-target resolution that requires a
/// target fails with `NoActiveCluster` before any operation executes.
pub proof fn lemma_no_active_resolution_fails(reg: Registry)
    requires
        reg.active_id() is None,
    ensures
        spec_resolve(reg.ids(), reg.active_id(), None, true) == Err::<
            Seq<Seq<char>>,
            EngineError,
        >(EngineError::NoActiveCluster),
{
}

} // verus!
