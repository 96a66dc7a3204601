use vstd::prelude::*;
use crate::EngineError;
use crate::registry::Registry;

verus! {

// Target resolution policy, fixed at this boundary: an explicit entry is a
// pattern exactly when it contains `*`; in a pattern, `*` matches any run of
// characters (possibly empty) and every other character matches itself,
// case-sensitively, against the identifier string only. An explicit entry
// without `*` is a literal and must name a registered cluster.

/// Whether `pattern` matches the whole of `name` under the glob policy.
pub open spec fn glob_matches(pattern: Seq<char>, name: Seq<char>) -> bool
    decreases pattern.len() + name.len(),
{
    if pattern.len() == 0 {
        name.len() == 0
    } else if pattern[0] == '*' {
        glob_matches(pattern.skip(1), name) || (name.len() > 0 && glob_matches(
            pattern,
            name.skip(1),
        ))
    } else {
        name.len() > 0 && pattern[0] == name[0] && glob_matches(pattern.skip(1), name.skip(1))
    }
}

/// An explicit entry is treated as a pattern exactly when it contains `*`.
pub open spec fn is_pattern(entry: Seq<char>) -> bool {
    exists|i: int| 0 <= i < entry.len() && entry[i] == '*'
}

/// Appends `x` to the accumulated target set unless it is already a member.
pub open spec fn push_new(acc: Seq<Seq<char>>, x: Seq<char>) -> Seq<Seq<char>> {
    if acc.contains(x) {
        acc
    } else {
        acc.push(x)
    }
}

/// Appends each of `xs` in order, skipping the ones already accumulated.
pub open spec fn append_new(acc: Seq<Seq<char>>, xs: Seq<Seq<char>>) -> Seq<Seq<char>>
    decreases xs.len(),
{
    if xs.len() == 0 {
        acc
    } else {
        append_new(push_new(acc, xs[0]), xs.skip(1))
    }
}

/// The registered identifiers matching a pattern, in registry order.
pub open spec fn glob_expand(ids: Seq<Seq<char>>, pattern: Seq<char>) -> Seq<Seq<char>>
    decreases ids.len(),
{
    if ids.len() == 0 {
        Seq::empty()
    } else {
        glob_expand(ids.drop_last(), pattern) + (if glob_matches(pattern, ids.last()) {
            seq![ids.last()]
        } else {
            Seq::empty()
        })
    }
}

/// Folds the explicit entries left to right into the accumulated target set;
/// a literal entry that names no registered cluster fails the whole
/// resolution.
pub open spec fn resolve_entries(
    ids: Seq<Seq<char>>,
    entries: Seq<Seq<char>>,
    acc: Seq<Seq<char>>,
) -> Result<Seq<Seq<char>>, EngineError>
    decreases entries.len(),
{
    if entries.len() == 0 {
        Ok(acc)
    } else if is_pattern(entries[0]) {
        resolve_entries(ids, entries.skip(1), append_new(acc, glob_expand(ids, entries[0])))
    } else if ids.contains(entries[0]) {
        resolve_entries(ids, entries.skip(1), push_new(acc, entries[0]))
    } else {
        Err(EngineError::NotFound)
    }
}

/// The full resolution algorithm: no explicit target list means the single
/// active identifier; an explicit list is expanded, united and deduplicated
/// in first-match order; an empty outcome is an error whenever a non-empty
/// target set is required.
pub open spec fn spec_resolve(
    ids: Seq<Seq<char>>,
    active: Option<Seq<char>>,
    explicit: Option<Seq<Seq<char>>>,
    require_non_empty: bool,
) -> Result<Seq<Seq<char>>, EngineError> {
    match explicit {
        None => match active {
            Some(a) => Ok(seq![a]),
            None => if require_non_empty {
                Err(EngineError::NoActiveCluster)
            } else {
                Ok(Seq::empty())
            },
        },
        Some(es) => match resolve_entries(ids, es, Seq::empty()) {
            Ok(r) => if r.len() == 0 && require_non_empty {
                Err(EngineError::NoMatchingClusters)
            } else {
                Ok(r)
            },
            Err(e) => Err(e),
        },
    }
}

/// Whether `pattern`, starting at `pi`, matches `name` starting at `ni`.
fn glob_match_at(
    pattern: &str,
    name: &str,
    pi: usize,
    ni: usize,
    plen: usize,
    nlen: usize,
) -> (r: bool)
    requires
        plen == pattern@.len(),
        nlen == name@.len(),
        pi <= plen,
        ni <= nlen,
    ensures
        r == glob_matches(pattern@.skip(pi as int), name@.skip(ni as int)),
    decreases plen - pi + nlen - ni,
{
    proof {
        assert(pattern@.skip(pi as int).len() == plen - pi);
        assert(name@.skip(ni as int).len() == nlen - ni);
    }
    if pi == plen {
        ni == nlen
    } else {
        proof {
            assert(pattern@.skip(pi as int)[0] == pattern@[pi as int]);
            assert(pattern@.skip(pi as int).skip(1) =~= pattern@.skip(pi as int + 1));
        }
        let pc = pattern.get_char(pi);
        if pc == '*' {
            if glob_match_at(pattern, name, pi + 1, ni, plen, nlen) {
                true
            } else if ni < nlen {
                proof {
                    assert(name@.skip(ni as int).skip(1) =~= name@.skip(ni as int + 1));
                }
                glob_match_at(pattern, name, pi, ni + 1, plen, nlen)
            } else {
                false
            }
        } else if ni == nlen {
            false
        } else {
            proof {
                assert(name@.skip(ni as int)[0] == name@[ni as int]);
                assert(name@.skip(ni as int).skip(1) =~= name@.skip(ni as int + 1));
            }
            let nc = name.get_char(ni);
            if pc == nc {
                glob_match_at(pattern, name, pi + 1, ni + 1, plen, nlen)
            } else {
                false
            }
        }
    }
}

/// Whether `pattern` matches the whole of `name` under the glob policy.
pub fn glob_match(pattern: &str, name: &str) -> (r: bool)
    ensures
        r == glob_matches(pattern@, name@),
{
    let plen = pattern.unicode_len();
    let nlen = name.unicode_len();
    proof {
        assert(pattern@.skip(0) =~= pattern@);
        assert(name@.skip(0) =~= name@);
    }
    glob_match_at(pattern, name, 0, 0, plen, nlen)
}

/// Skipping already-seen members commutes with appending one candidate.
proof fn lemma_append_new_push(acc: Seq<Seq<char>>, xs: Seq<Seq<char>>, x: Seq<char>)
    ensures
        append_new(acc, xs.push(x)) == push_new(append_new(acc, xs), x),
    decreases xs.len(),
{
    if xs.len() == 0 {
        assert(xs.push(x)[0] == x);
        assert(xs.push(x).skip(1) =~= Seq::<Seq<char>>::empty());
        assert(append_new(acc, xs.push(x)) == append_new(
            push_new(acc, x),
            xs.push(x).skip(1),
        ));
        assert(append_new(push_new(acc, x), Seq::<Seq<char>>::empty()) == push_new(acc, x));
        assert(append_new(acc, xs) == acc);
    } else {
        assert(xs.push(x)[0] == xs[0]);
        assert(xs.push(x).skip(1) =~= xs.skip(1).push(x));
        lemma_append_new_push(push_new(acc, xs[0]), xs.skip(1), x);
        assert(append_new(acc, xs.push(x)) == append_new(
            push_new(acc, xs[0]),
            xs.skip(1).push(x),
        ));
        assert(append_new(acc, xs) == append_new(push_new(acc, xs[0]), xs.skip(1)));
    }
}

fn contains_string(v: &Vec<String>, x: &String) -> (r: bool)
    ensures
        r == v.deep_view().contains(x@),
{
    let mut i: usize = 0;
    while i < v.len()
        invariant
            i <= v@.len(),
            forall|j: int| 0 <= j < i ==> v.deep_view()[j] != x@,
        decreases v@.len() - i,
    {
        if v[i].eq(x) {
            assert(v.deep_view()[i as int] == x@);
            return true;
        }
        i += 1;
    }
    false
}

fn push_new_exec(acc: &mut Vec<String>, x: &String)
    ensures
        final(acc).deep_view() == push_new(old(acc).deep_view(), x@),
{
    if !contains_string(acc, x) {
        acc.push(x.clone());
        assert(final(acc).deep_view() =~= old(acc).deep_view().push(x@));
    }
}

/// Whether the entry is read as a pattern rather than a literal.
pub fn entry_is_pattern(entry: &String) -> (r: bool)
    ensures
        r == is_pattern(entry@),
{
    let s = entry.as_str();
    let len = s.unicode_len();
    let mut i: usize = 0;
    while i < len
        invariant
            len == s@.len(),
            s@ == entry@,
            i <= len,
            forall|j: int| 0 <= j < i ==> s@[j] != '*',
        decreases len - i,
    {
        if s.get_char(i) == '*' {
            return true;
        }
        i += 1;
    }
    false
}

/// The explicit target list as the model sees it.
pub open spec fn explicit_view(explicit: Option<&Vec<String>>) -> Option<Seq<Seq<char>>> {
    match explicit {
        Some(v) => Some(v.deep_view()),
        None => None,
    }
}

/// Resolves a command's optional explicit target list against the registry
/// into the ordered, deduplicated sequence of cluster identifiers the
/// command must run against.
pub fn resolve(
    registry: &Registry,
    explicit: Option<&Vec<String>>,
    require_non_empty: bool,
) -> (r: Result<Vec<String>, EngineError>)
    requires
        registry.wf(),
    ensures
        (match r {
            Ok(v) => spec_resolve(
                registry.ids(),
                registry.active_id(),
                explicit_view(explicit),
                require_non_empty,
            ) == Ok::<Seq<Seq<char>>, EngineError>(v.deep_view()),
            Err(e) => spec_resolve(
                registry.ids(),
                registry.active_id(),
                explicit_view(explicit),
                require_non_empty,
            ) == Err::<Seq<Seq<char>>, EngineError>(e),
        }),
        r matches Ok(v) ==> (forall|i: int|
            0 <= i < v.deep_view().len() ==> registry.contains_id(#[trigger] v.deep_view()[i])),
        require_non_empty ==> (r matches Ok(v) ==> v.deep_view().len() > 0),
{
    let es = if let Some(es) = explicit {
        es
    } else {
        match registry.active() {
            Some(a) => {
                let ghost sa = a@;
                let mut v: Vec<String> = Vec::new();
                v.push(a);
                proof {
                    assert(v.deep_view() =~= seq![sa]);
                    let w = choose|j: int|
                        0 <= j < registry.ids().len() && registry.ids()[j] == sa;
                    assert(registry.ids()[w] == sa);
                }
                return Ok(v);
            },
            None => {
                if require_non_empty {
                    return Err(EngineError::NoActiveCluster);
                } else {
                    let v: Vec<String> = Vec::new();
                    proof {
                        assert(v.deep_view() =~= Seq::<Seq<char>>::empty());
                    }
                    return Ok(v);
                }
            },
        }
    };
    let ghost ids = registry.ids();
    let ghost esv = es.deep_view();
    let mut acc: Vec<String> = Vec::new();
    proof {
        assert(acc.deep_view() =~= Seq::<Seq<char>>::empty());
        assert(esv.skip(0) =~= esv);
    }
    let mut i: usize = 0;
    while i < es.len()
        invariant
            registry.wf(),
            ids == registry.ids(),
            esv == es.deep_view(),
            explicit == Some(es),
            i <= esv.len(),
            resolve_entries(ids, esv.skip(i as int), acc.deep_view()) == resolve_entries(
                ids,
                esv,
                Seq::<Seq<char>>::empty(),
            ),
            forall|j: int|
                0 <= j < acc.deep_view().len() ==> registry.contains_id(
                    #[trigger] acc.deep_view()[j],
                ),
        decreases esv.len() - i,
    {
        let e = &es[i];
        proof {
            assert(esv.skip(i as int)[0] == esv[i as int]);
            assert(esv[i as int] == e@);
            assert(esv.skip(i as int).skip(1) =~= esv.skip(i as int + 1));
        }
        if entry_is_pattern(e) {
            let ghost acc0 = acc.deep_view();
            let list = registry.list();
            proof {
                assert(ids.take(0) =~= Seq::<Seq<char>>::empty());
            }
            let mut k: usize = 0;
            while k < list.len()
                invariant
                    registry.wf(),
                    ids == registry.ids(),
                    list@ == registry.entries(),
                    k <= list@.len(),
                    acc.deep_view() == append_new(acc0, glob_expand(ids.take(k as int), e@)),
                    forall|j: int|
                        0 <= j < acc.deep_view().len() ==> registry.contains_id(
                            #[trigger] acc.deep_view()[j],
                        ),
                decreases list@.len() - k,
            {
                proof {
                    assert(ids.take(k as int + 1).drop_last() =~= ids.take(k as int));
                    assert(ids.take(k as int + 1).last() == ids[k as int]);
                    assert(list@[k as int].0@ == ids[k as int]);
                }
                if glob_match(e.as_str(), list[k].0.as_str()) {
                    let ghost g = glob_expand(ids.take(k as int), e@);
                    proof {
                        assert(glob_expand(ids.take(k as int + 1), e@) =~= g.push(
                            ids[k as int],
                        ));
                        lemma_append_new_push(acc0, g, ids[k as int]);
                    }
                    push_new_exec(&mut acc, &list[k].0);
                    proof {
                        assert(registry.ids()[k as int] == ids[k as int]);
                        assert(registry.contains_id(ids[k as int]));
                    }
                } else {
                    proof {
                        assert(glob_expand(ids.take(k as int + 1), e@) =~= glob_expand(
                            ids.take(k as int),
                            e@,
                        ));
                    }
                }
                k += 1;
            }
            proof {
                assert(ids.take(list@.len() as int) =~= ids);
            }
        } else {
            match registry.get(e) {
                Ok(_) => {
                    proof {
                        let w = choose|j: int|
                            0 <= j < registry.ids().len() && registry.ids()[j] == e@;
                        assert(ids[w] == e@);
                        assert(ids.contains(e@));
                    }
                    push_new_exec(&mut acc, e);
                },
                Err(_) => {
                    proof {
                        assert(forall|j: int|
                            0 <= j < ids.len() ==> #[trigger] ids[j] != e@);
                        assert(!ids.contains(e@));
                        assert(esv.skip(i as int).len() > 0);
                        assert(resolve_entries(ids, esv.skip(i as int), acc.deep_view())
                            == Err::<Seq<Seq<char>>, EngineError>(EngineError::NotFound));
                        assert(resolve_entries(ids, esv, Seq::<Seq<char>>::empty())
                            == Err::<Seq<Seq<char>>, EngineError>(EngineError::NotFound));
                        assert(spec_resolve(
                            registry.ids(),
                            registry.active_id(),
                            explicit_view(explicit),
                            require_non_empty,
                        ) == Err::<Seq<Seq<char>>, EngineError>(EngineError::NotFound));
                    }
                    return Err(EngineError::NotFound);
                },
            }
        }
        i += 1;
    }
    proof {
        assert(esv.skip(esv.len() as int) =~= Seq::<Seq<char>>::empty());
    }
    if require_non_empty && acc.len() == 0 {
        return Err(EngineError::NoMatchingClusters);
    }
    Ok(acc)
}

} // verus!
