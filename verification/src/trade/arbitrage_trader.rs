use vstd::prelude::*;

verus! {

/// A step of an arbitrage path: the index of a token in the token list and the
/// index of the DEX it is traded on in the DEX list.
pub type PathStep = (usize, usize);

/// The order in which the search visits steps: by token index, then by DEX index.
pub open spec fn step_lt(a: PathStep, b: PathStep) -> bool {
    a.0 < b.0 || (a.0 == b.0 && a.1 < b.1)
}

/// Lexicographic order on paths, step by step with [`step_lt`].
pub open spec fn path_lt(p: Seq<PathStep>, q: Seq<PathStep>) -> bool {
    exists|i: int|
        0 <= i < p.len() && i < q.len() && #[trigger] p.take(i) == q.take(i) && step_lt(
            p[i],
            q[i],
        )
}

/// Each path of `xs` comes strictly before the next ones.
pub open spec fn strictly_sorted(xs: Seq<Seq<PathStep>>) -> bool {
    forall|a: int, b: int| 0 <= a < b < xs.len() ==> path_lt(#[trigger] xs[a], #[trigger] xs[b])
}

/// `p` starts with `prefix`.
pub open spec fn has_prefix(p: Seq<PathStep>, prefix: Seq<PathStep>) -> bool {
    prefix.len() <= p.len() && p.take(prefix.len() as int) == prefix
}

/// The name of the token that step `k` of `p` trades from: the previous step's
/// token, or the base token for the first step.
pub open spec fn previous_token(
    tokens: Seq<Seq<char>>,
    base: Seq<char>,
    p: Seq<PathStep>,
    k: int,
) -> Seq<char> {
    if k == 0 {
        base
    } else {
        tokens[p[k - 1].0 as int]
    }
}

/// Step `k` of `p` is one the search may take: its indices are in range, the
/// first step uses the start token, the token differs from the previous one,
/// and no earlier step used the same (token name, DEX name) pair.
pub open spec fn step_allowed(
    tokens: Seq<Seq<char>>,
    dexes: Seq<Seq<char>>,
    base: Seq<char>,
    start: Seq<char>,
    p: Seq<PathStep>,
    k: int,
) -> bool {
    &&& p[k].0 < tokens.len()
    &&& p[k].1 < dexes.len()
    &&& k == 0 ==> tokens[p[k].0 as int] == start
    &&& tokens[p[k].0 as int] != previous_token(tokens, base, p, k)
    &&& forall|j: int|
        0 <= j < k ==> !(tokens[p[j].0 as int] == tokens[p[k].0 as int] && dexes[p[j].1 as int]
            == dexes[p[k].1 as int])
}

/// A complete path: 2 to `num_swaps` steps, ending on the base token.
pub open spec fn closes_cycle(
    tokens: Seq<Seq<char>>,
    base: Seq<char>,
    num_swaps: int,
    p: Seq<PathStep>,
) -> bool {
    &&& 2 <= p.len() <= num_swaps
    &&& tokens[p[p.len() - 1].0 as int] == base
}

/// The search stops at `p`: it is complete, or it has `num_swaps` steps already.
pub open spec fn stops_at(
    tokens: Seq<Seq<char>>,
    base: Seq<char>,
    num_swaps: int,
    p: Seq<PathStep>,
) -> bool {
    p.len() >= 1 && (closes_cycle(tokens, base, num_swaps, p) || p.len() >= num_swaps)
}

/// The search reaches `p`: every step is allowed and it stopped at no shorter prefix.
pub open spec fn reachable(
    tokens: Seq<Seq<char>>,
    dexes: Seq<Seq<char>>,
    base: Seq<char>,
    start: Seq<char>,
    num_swaps: int,
    p: Seq<PathStep>,
) -> bool {
    &&& forall|k: int| 0 <= k < p.len() ==> #[trigger] step_allowed(tokens, dexes, base, start, p, k)
    &&& forall|j: int| 0 <= j < p.len() ==> !#[trigger] stops_at(tokens, base, num_swaps, p.take(j))
}

/// An arbitrage path from `start` back to `base`: reachable and complete.
pub open spec fn is_arbitrage_path(
    tokens: Seq<Seq<char>>,
    dexes: Seq<Seq<char>>,
    base: Seq<char>,
    start: Seq<char>,
    num_swaps: int,
    p: Seq<PathStep>,
) -> bool {
    reachable(tokens, dexes, base, start, num_swaps, p) && closes_cycle(tokens, base, num_swaps, p)
}

/// `found` lists, in search order and once each, exactly the arbitrage paths
/// that extend `prefix`.
pub open spec fn lists_paths_from(
    tokens: Seq<Seq<char>>,
    dexes: Seq<Seq<char>>,
    base: Seq<char>,
    start: Seq<char>,
    num_swaps: int,
    prefix: Seq<PathStep>,
    found: Seq<Seq<PathStep>>,
) -> bool {
    &&& strictly_sorted(found)
    &&& forall|i: int|
        0 <= i < found.len() ==> is_arbitrage_path(
            tokens,
            dexes,
            base,
            start,
            num_swaps,
            #[trigger] found[i],
        ) && has_prefix(found[i], prefix)
    &&& forall|q: Seq<PathStep>|
        #[trigger] is_arbitrage_path(tokens, dexes, base, start, num_swaps, q) && has_prefix(
            q,
            prefix,
        ) ==> found.contains(q)
}

/// The paths of a list of paths, as sequences of steps.
pub open spec fn paths_view(paths: Seq<Vec<PathStep>>) -> Seq<Seq<PathStep>> {
    paths.map_values(|p: Vec<PathStep>| p@)
}

/// Steps that index into the token and DEX lists.
pub open spec fn steps_in_range(p: Seq<PathStep>, n_tokens: int, n_dexes: int) -> bool {
    forall|k: int| 0 <= k < p.len() ==> #[trigger] p[k].0 < n_tokens && p[k].1 < n_dexes
}

/// Whether an earlier step of `path` already used the token name of `ti` on the
/// DEX name of `di`.
fn pair_visited(
    tokens: &Vec<String>,
    dexes: &Vec<String>,
    path: &Vec<PathStep>,
    ti: usize,
    di: usize,
) -> (visited: bool)
    requires
        ti < tokens.len(),
        di < dexes.len(),
        steps_in_range(path@, tokens.len() as int, dexes.len() as int),
    ensures
        visited == exists|j: int|
            0 <= j < path@.len() && tokens@[path@[j].0 as int]@ == tokens@[ti as int]@
                && dexes@[path@[j].1 as int]@ == dexes@[di as int]@,
{
    let mut j: usize = 0;
    while j < path.len()
        invariant
            j <= path@.len(),
            ti < tokens.len(),
            di < dexes.len(),
            steps_in_range(path@, tokens.len() as int, dexes.len() as int),
            forall|k: int|
                0 <= k < j ==> !(tokens@[path@[k].0 as int]@ == tokens@[ti as int]@
                    && dexes@[path@[k].1 as int]@ == dexes@[di as int]@),
        decreases path@.len() - j,
    {
        let (pt, pd) = path[j];
        assert(pt < tokens.len() && pd < dexes.len());
        if tokens[pt] == tokens[ti] && dexes[pd] == dexes[di] {
            return true;
        }
        j = j + 1;
    }
    false
}

fn copy_path(path: &Vec<PathStep>) -> (copy: Vec<PathStep>)
    ensures
        copy@ == path@,
{
    let mut copy: Vec<PathStep> = Vec::new();
    let mut j: usize = 0;
    while j < path.len()
        invariant
            j <= path@.len(),
            copy@ == path@.take(j as int),
        decreases path@.len() - j,
    {
        copy.push(path[j]);
        j = j + 1;
        assert(copy@ =~= path@.take(j as int));
    }
    assert(path@.take(j as int) =~= path@);
    copy
}


/// Whether step `k` of `q` is allowed depends only on the first `k + 1` steps.
proof fn lemma_step_allowed_prefix(
    tokens: Seq<Seq<char>>,
    dexes: Seq<Seq<char>>,
    base: Seq<char>,
    start: Seq<char>,
    q: Seq<PathStep>,
    p: Seq<PathStep>,
    k: int,
)
    requires
        has_prefix(q, p),
        0 <= k < p.len(),
    ensures
        step_allowed(tokens, dexes, base, start, q, k) == step_allowed(
            tokens,
            dexes,
            base,
            start,
            p,
            k,
        ),
{
    assert forall|j: int| 0 <= j <= k implies q[j] == p[j] by {
        assert(q.take(p.len() as int)[j] == q[j]);
    }
    assert(previous_token(tokens, base, q, k) == previous_token(tokens, base, p, k));
}

/// A prefix of a prefix, and the step right after a one-step-shorter prefix.
proof fn lemma_prefix_push(q: Seq<PathStep>, p: Seq<PathStep>, s: PathStep)
    requires
        has_prefix(q, p.push(s)),
    ensures
        has_prefix(q, p),
        q.len() > p.len(),
        q[p.len() as int] == s,
{
    assert(q.take(p.len() as int) =~= p.push(s).take(p.len() as int));
    assert(p.push(s).take(p.len() as int) =~= p);
    assert(q.take(p.len() as int + 1)[p.len() as int] == q[p.len() as int]);
}

/// A path that extends `p` by the step it takes at position `p.len()`.
proof fn lemma_prefix_extend(q: Seq<PathStep>, p: Seq<PathStep>)
    requires
        has_prefix(q, p),
        q.len() > p.len(),
    ensures
        has_prefix(q, p.push(q[p.len() as int])),
{
    assert(q.take(p.len() as int + 1) =~= p.push(q[p.len() as int]));
}

/// Two paths with a common prefix that then take ordered steps are ordered.
proof fn lemma_path_lt_at(x: Seq<PathStep>, y: Seq<PathStep>, p: Seq<PathStep>)
    requires
        has_prefix(x, p),
        has_prefix(y, p),
        x.len() > p.len(),
        y.len() > p.len(),
        step_lt(x[p.len() as int], y[p.len() as int]),
    ensures
        path_lt(x, y),
{
    assert(x.take(p.len() as int) == y.take(p.len() as int));
}

/// An arbitrage path that extends a prefix the search does not stop at is longer
/// than that prefix.
proof fn lemma_longer_than_open_prefix(
    tokens: Seq<Seq<char>>,
    dexes: Seq<Seq<char>>,
    base: Seq<char>,
    start: Seq<char>,
    num_swaps: int,
    q: Seq<PathStep>,
    p: Seq<PathStep>,
)
    requires
        is_arbitrage_path(tokens, dexes, base, start, num_swaps, q),
        has_prefix(q, p),
        !stops_at(tokens, base, num_swaps, p),
    ensures
        q.len() > p.len(),
{
    if q.len() == p.len() {
        assert(q.take(q.len() as int) =~= q);
        assert(stops_at(tokens, base, num_swaps, q));
    }
}

/// An arbitrage path that extends a prefix the search stops at is that prefix.
proof fn lemma_equal_to_stopping_prefix(
    tokens: Seq<Seq<char>>,
    dexes: Seq<Seq<char>>,
    base: Seq<char>,
    start: Seq<char>,
    num_swaps: int,
    q: Seq<PathStep>,
    p: Seq<PathStep>,
)
    requires
        is_arbitrage_path(tokens, dexes, base, start, num_swaps, q),
        has_prefix(q, p),
        stops_at(tokens, base, num_swaps, p),
    ensures
        q == p,
{
    if q.len() > p.len() {
        assert(!stops_at(tokens, base, num_swaps, q.take(p.len() as int)));
    }
    assert(q.take(p.len() as int) =~= q);
}

/// Appends to `paths`, in search order, every arbitrage path from `start` that
/// extends `path`: depth first over tokens and then DEXes, a step is skipped
/// when its (token name, DEX name) pair is already on the path, when its token is
/// the previous token, or, as first step, when its token is not `start`; a path
/// is recorded and not extended once it has 2 to `num_swaps` steps and ends on
/// `base`, and is dropped once it has `num_swaps` steps. `path` is the route
/// walked so far (its pairs are the visited ones); it is the same after the call.
pub fn find_arbitrage_paths_recursive(
    tokens: &Vec<String>,
    dexes: &Vec<String>,
    paths: &mut Vec<Vec<PathStep>>,
    base: &String,
    start: &String,
    path: &mut Vec<PathStep>,
    num_swaps: usize,
)
    requires
        reachable(tokens.deep_view(), dexes.deep_view(), base@, start@, num_swaps as int, old(path)@),
        old(path)@.len() <= num_swaps + 1,
    ensures
        final(path)@ == old(path)@,
        final(paths)@.len() >= old(paths)@.len(),
        paths_view(final(paths)@).take(old(paths)@.len() as int) == paths_view(old(paths)@),
        lists_paths_from(
            tokens.deep_view(),
            dexes.deep_view(),
            base@,
            start@,
            num_swaps as int,
            old(path)@,
            paths_view(final(paths)@).skip(old(paths)@.len() as int),
        ),
    decreases num_swaps + 1 - old(path)@.len(),
{
    let ghost t = tokens.deep_view();
    let ghost d = dexes.deep_view();
    let ghost n = num_swaps as int;
    let ghost p0 = path@;
    let ghost out0 = paths_view(paths@);
    let ghost len0 = paths@.len();
    assert(steps_in_range(p0, tokens.len() as int, dexes.len() as int)) by {
        assert forall|k: int| 0 <= k < p0.len() implies #[trigger] p0[k].0 < tokens.len()
            && p0[k].1 < dexes.len() by {
            assert(step_allowed(t, d, base@, start@, p0, k));
        }
    }
    if path.len() >= 1 {
        let last = path[path.len() - 1];
        assert(step_allowed(t, d, base@, start@, p0, p0.len() - 1));
        if path.len() >= 2 && path.len() <= num_swaps && tokens[last.0] == *base {
            let found = copy_path(path);
            paths.push(found);
            proof {
                let x = paths_view(paths@).skip(len0 as int);
                assert(paths_view(paths@).take(len0 as int) =~= out0);
                assert(x =~= seq![p0]);
                assert(closes_cycle(t, base@, n, p0));
                assert(p0.take(p0.len() as int) =~= p0);
                assert forall|q: Seq<PathStep>|
                    #[trigger] is_arbitrage_path(t, d, base@, start@, n, q) && has_prefix(
                        q,
                        p0,
                    ) implies x.contains(q) by {
                    lemma_equal_to_stopping_prefix(t, d, base@, start@, n, q, p0);
                    assert(x[0] == q);
                }
            }
            return ;
        } else if path.len() >= num_swaps {
            proof {
                let x = paths_view(paths@).skip(len0 as int);
                assert(paths_view(paths@).take(len0 as int) =~= out0);
                assert(x =~= Seq::<Seq<PathStep>>::empty());
                assert forall|q: Seq<PathStep>|
                    #[trigger] is_arbitrage_path(t, d, base@, start@, n, q) && has_prefix(
                        q,
                        p0,
                    ) implies x.contains(q) by {
                    lemma_equal_to_stopping_prefix(t, d, base@, start@, n, q, p0);
                }
            }
            return ;
        }
    }
    assert(!stops_at(t, base@, n, p0));
    assert(paths_view(paths@).take(len0 as int) =~= out0);
    assert(paths_view(paths@).skip(len0 as int) =~= Seq::<Seq<PathStep>>::empty());
    let mut ti: usize = 0;
    while ti < tokens.len()
        invariant
            path@ == p0,
            old(path)@ == p0,
            t == tokens.deep_view(),
            d == dexes.deep_view(),
            n == num_swaps as int,
            reachable(t, d, base@, start@, n, p0),
            !stops_at(t, base@, n, p0),
            p0.len() <= num_swaps + 1,
            steps_in_range(p0, tokens.len() as int, dexes.len() as int),
            paths@.len() >= len0,
            paths_view(paths@).take(len0 as int) == out0,
            strictly_sorted(paths_view(paths@).skip(len0 as int)),
            forall|i: int|
                0 <= i < paths_view(paths@).skip(len0 as int).len() ==> {
                    let x = #[trigger] paths_view(paths@).skip(len0 as int)[i];
                    &&& is_arbitrage_path(t, d, base@, start@, n, x)
                    &&& has_prefix(x, p0)
                    &&& x.len() > p0.len()
                    &&& step_lt(x[p0.len() as int], (ti, 0usize))
                },
            forall|q: Seq<PathStep>|
                #[trigger] is_arbitrage_path(t, d, base@, start@, n, q) && has_prefix(q, p0)
                    && q.len() > p0.len() && step_lt(q[p0.len() as int], (ti, 0usize))
                    ==> paths_view(paths@).skip(len0 as int).contains(q),
        decreases tokens.len() - ti,
    {
        if path.len() == 0 && tokens[ti] != *start {
            proof {
                assert forall|q: Seq<PathStep>|
                    #[trigger] is_arbitrage_path(t, d, base@, start@, n, q) && has_prefix(q, p0)
                        && q.len() > p0.len() && step_lt(q[p0.len() as int], ((ti + 1) as usize, 0usize))
                        implies paths_view(paths@).skip(len0 as int).contains(q) by {
                    if q[0].0 == ti {
                        assert(step_allowed(t, d, base@, start@, q, 0));
                    }
                }
            }
            ti = ti + 1;
            continue ;
        }
        let mut di: usize = 0;
        while di < dexes.len()
            invariant
                ti < tokens.len(),
                path@ == p0,
                old(path)@ == p0,
                t == tokens.deep_view(),
                d == dexes.deep_view(),
                n == num_swaps as int,
                reachable(t, d, base@, start@, n, p0),
                !stops_at(t, base@, n, p0),
                p0.len() <= num_swaps + 1,
                p0.len() == 0 ==> t[ti as int] == start@,
                steps_in_range(p0, tokens.len() as int, dexes.len() as int),
                paths@.len() >= len0,
                paths_view(paths@).take(len0 as int) == out0,
                strictly_sorted(paths_view(paths@).skip(len0 as int)),
                forall|i: int|
                    0 <= i < paths_view(paths@).skip(len0 as int).len() ==> {
                        let x = #[trigger] paths_view(paths@).skip(len0 as int)[i];
                        &&& is_arbitrage_path(t, d, base@, start@, n, x)
                        &&& has_prefix(x, p0)
                        &&& x.len() > p0.len()
                        &&& step_lt(x[p0.len() as int], (ti, di))
                    },
                forall|q: Seq<PathStep>|
                    #[trigger] is_arbitrage_path(t, d, base@, start@, n, q) && has_prefix(q, p0)
                        && q.len() > p0.len() && step_lt(q[p0.len() as int], (ti, di))
                        ==> paths_view(paths@).skip(len0 as int).contains(q),
            decreases dexes.len() - di,
        {
            let ghost p1 = p0.push((ti, di));
            let visited = pair_visited(tokens, dexes, path, ti, di);
            let same_as_previous = if path.len() == 0 {
                *base == tokens[ti]
            } else {
                let prev = path[path.len() - 1].0;
                tokens[prev] == tokens[ti]
            };
            proof {
                assert(previous_token(t, base@, p1, p0.len() as int) == if p0.len() == 0 {
                    base@
                } else {
                    t[p0[p0.len() - 1].0 as int]
                });
                let k = p0.len() as int;
                assert forall|j: int| 0 <= j < p0.len() implies #[trigger] p1[j] == p0[j] by {}
                assert(p1[k] == (ti, di));
                assert(t[ti as int] == tokens@[ti as int]@);
                assert(d[di as int] == dexes@[di as int]@);
                if visited {
                    let j = choose|j: int|
                        0 <= j < path@.len() && tokens@[path@[j].0 as int]@ == tokens@[ti as int]@
                            && dexes@[path@[j].1 as int]@ == dexes@[di as int]@;
                    assert(p1[j] == p0[j]);
                    assert(t[p1[j].0 as int] == t[p1[k].0 as int]);
                    assert(d[p1[j].1 as int] == d[p1[k].1 as int]);
                    assert(!step_allowed(t, d, base@, start@, p1, k));
                } else if same_as_previous {
                    if k > 0 {
                        assert(t[p0[k - 1].0 as int] == tokens@[p0[k - 1].0 as int]@);
                    }
                    assert(!step_allowed(t, d, base@, start@, p1, k));
                } else {
                    if k > 0 {
                        assert(t[p0[k - 1].0 as int] == tokens@[p0[k - 1].0 as int]@);
                    }
                    assert forall|j: int| 0 <= j < k implies !(t[p1[j].0 as int] == t[p1[k].0 as int]
                        && d[p1[j].1 as int] == d[p1[k].1 as int]) by {
                        assert(p1[j] == p0[j]);
                        assert(t[p0[j].0 as int] == tokens@[p0[j].0 as int]@);
                        assert(d[p0[j].1 as int] == dexes@[p0[j].1 as int]@);
                    }
                    assert(step_allowed(t, d, base@, start@, p1, k));
                }
            }
            if visited || same_as_previous {
                proof {
                    assert forall|q: Seq<PathStep>|
                        #[trigger] is_arbitrage_path(t, d, base@, start@, n, q) && has_prefix(q, p0)
                            && q.len() > p0.len() && step_lt(q[p0.len() as int], (ti, (di + 1) as usize))
                            implies paths_view(paths@).skip(len0 as int).contains(q) by {
                        if q[p0.len() as int] == (ti, di) {
                            lemma_prefix_extend(q, p0);
                            lemma_step_allowed_prefix(t, d, base@, start@, q, p1, p0.len() as int);
                            assert(step_allowed(t, d, base@, start@, q, p0.len() as int));
                        }
                    }
                }
                di = di + 1;
                continue ;
            }
            let ghost before = paths_view(paths@);
            let ghost before_len = paths@.len();
            path.push((ti, di));
            proof {
                assert(path@ == p1);
                assert forall|k: int| 0 <= k < p1.len() implies #[trigger] step_allowed(
                    t,
                    d,
                    base@,
                    start@,
                    p1,
                    k,
                ) by {
                    if k < p0.len() {
                        assert(has_prefix(p1, p0)) by {
                            assert(p1.take(p0.len() as int) =~= p0);
                        }
                        lemma_step_allowed_prefix(t, d, base@, start@, p1, p0, k);
                        assert(step_allowed(t, d, base@, start@, p0, k));
                    }
                }
                assert forall|j: int| 0 <= j < p1.len() implies !#[trigger] stops_at(
                    t,
                    base@,
                    n,
                    p1.take(j),
                ) by {
                    if j < p0.len() {
                        assert(p1.take(j) =~= p0.take(j));
                    } else {
                        assert(p1.take(j) =~= p0);
                    }
                }
            }
            assert(p1.len() <= num_swaps + 1);
            find_arbitrage_paths_recursive(tokens, dexes, paths, base, start, path, num_swaps);
            path.pop();
            proof {
                assert(path@ =~= p0);
                let all = paths_view(paths@);
                let xs = before.skip(len0 as int);
                let ys = all.skip(before_len as int);
                let zs = all.skip(len0 as int);
                assert(all.take(before_len as int) == before);
                assert(zs =~= xs + ys) by {
                    assert forall|i: int| 0 <= i < xs.len() implies zs[i] == xs[i] by {
                        assert(all.take(before_len as int)[len0 + i] == all[len0 + i]);
                    }
                }
                assert(all.take(len0 as int) =~= out0) by {
                    assert forall|i: int| 0 <= i < len0 implies all.take(len0 as int)[i] == out0[i] by {
                        assert(all.take(before_len as int)[i] == all[i]);
                        assert(before.take(len0 as int)[i] == before[i]);
                    }
                }
                assert forall|i: int| 0 <= i < ys.len() implies {
                    &&& has_prefix(#[trigger] ys[i], p0)
                    &&& ys[i].len() > p0.len()
                    &&& ys[i][p0.len() as int] == (ti, di)
                } by {
                    lemma_prefix_push(ys[i], p0, (ti, di));
                }
                assert forall|a: int, b: int| 0 <= a < b < zs.len() implies path_lt(
                    #[trigger] zs[a],
                    #[trigger] zs[b],
                ) by {
                    if b < xs.len() {
                        assert(zs[a] == xs[a] && zs[b] == xs[b]);
                    } else if a >= xs.len() {
                        assert(zs[a] == ys[a - xs.len()] && zs[b] == ys[b - xs.len()]);
                    } else {
                        assert(zs[a] == xs[a]);
                        assert(zs[b] == ys[b - xs.len()]);
                        lemma_path_lt_at(zs[a], zs[b], p0);
                    }
                }
                assert forall|i: int| 0 <= i < zs.len() implies {
                    let x = #[trigger] zs[i];
                    &&& is_arbitrage_path(t, d, base@, start@, n, x)
                    &&& has_prefix(x, p0)
                    &&& x.len() > p0.len()
                    &&& step_lt(x[p0.len() as int], (ti, (di + 1) as usize))
                } by {
                    if i < xs.len() {
                        assert(zs[i] == xs[i]);
                    } else {
                        assert(zs[i] == ys[i - xs.len()]);
                    }
                }
                assert forall|q: Seq<PathStep>|
                    #[trigger] is_arbitrage_path(t, d, base@, start@, n, q) && has_prefix(q, p0)
                        && q.len() > p0.len() && step_lt(q[p0.len() as int], (ti, (di + 1) as usize))
                        implies zs.contains(q) by {
                    if q[p0.len() as int] == (ti, di) {
                        lemma_prefix_extend(q, p0);
                        assert(ys.contains(q));
                        let k = choose|k: int| 0 <= k < ys.len() && ys[k] == q;
                        assert(zs[xs.len() + k] == q);
                    } else {
                        assert(xs.contains(q));
                        let k = choose|k: int| 0 <= k < xs.len() && xs[k] == q;
                        assert(zs[k] == q);
                    }
                }
            }
            di = di + 1;
        }
        proof {
            let zs = paths_view(paths@).skip(len0 as int);
            assert forall|i: int| 0 <= i < zs.len() implies step_lt(
                (#[trigger] zs[i])[p0.len() as int],
                ((ti + 1) as usize, 0usize),
            ) by {
                assert(step_allowed(t, d, base@, start@, zs[i], p0.len() as int));
            }
            assert forall|q: Seq<PathStep>|
                #[trigger] is_arbitrage_path(t, d, base@, start@, n, q) && has_prefix(q, p0)
                    && q.len() > p0.len() && step_lt(q[p0.len() as int], ((ti + 1) as usize, 0usize))
                    implies zs.contains(q) by {
                assert(step_allowed(t, d, base@, start@, q, p0.len() as int));
            }
        }
        ti = ti + 1;
    }
    proof {
        let zs = paths_view(paths@).skip(len0 as int);
        assert forall|q: Seq<PathStep>|
            #[trigger] is_arbitrage_path(t, d, base@, start@, n, q) && has_prefix(q, p0)
                implies zs.contains(q) by {
            lemma_longer_than_open_prefix(t, d, base@, start@, n, q, p0);
            assert(step_allowed(t, d, base@, start@, q, p0.len() as int));
        }
    }
}


/// The arbitrage paths for every token other than `base`, one block per such
/// token in list order: block `i` lists, in search order, the arbitrage paths
/// that start on the name of token `i`, go through up to `num_swaps` steps and
/// come back to `base`.
pub fn find_arbitrage_paths(
    tokens: &Vec<String>,
    dexes: &Vec<String>,
    base: &String,
    num_swaps: usize,
) -> (paths: Vec<Vec<PathStep>>)
    ensures
        exists|cuts: Seq<int>|
            {
                &&& cuts.len() == tokens.len() + 1
                &&& cuts[0] == 0
                &&& cuts[tokens.len() as int] == paths@.len()
                &&& forall|i: int|
                    0 <= i < tokens.len() ==> 0 <= #[trigger] cuts[i] <= cuts[i + 1] <= paths@.len()
                &&& forall|i: int|
                    0 <= i < tokens.len() && tokens@[i]@ == base@ ==> #[trigger] cuts[i] == cuts[i
                        + 1]
                &&& forall|i: int|
                    0 <= i < tokens.len() && tokens@[i]@ != base@ ==> lists_paths_from(
                        tokens.deep_view(),
                        dexes.deep_view(),
                        base@,
                        tokens@[i]@,
                        num_swaps as int,
                        Seq::<PathStep>::empty(),
                        paths_view(paths@).subrange(#[trigger] cuts[i], cuts[i + 1]),
                    )
            },
{
    let mut paths: Vec<Vec<PathStep>> = Vec::new();
    let ghost mut cuts: Seq<int> = seq![0];
    let mut i: usize = 0;
    while i < tokens.len()
        invariant
            i <= tokens.len(),
            cuts.len() == i + 1,
            cuts[0] == 0,
            cuts[i as int] == paths@.len(),
            forall|k: int| 0 <= k < i ==> 0 <= #[trigger] cuts[k] <= cuts[k + 1] <= paths@.len(),
            forall|k: int| 0 <= k < i && tokens@[k]@ == base@ ==> #[trigger] cuts[k] == cuts[k + 1],
            forall|k: int|
                0 <= k < i && tokens@[k]@ != base@ ==> lists_paths_from(
                    tokens.deep_view(),
                    dexes.deep_view(),
                    base@,
                    tokens@[k]@,
                    num_swaps as int,
                    Seq::<PathStep>::empty(),
                    paths_view(paths@).subrange(#[trigger] cuts[k], cuts[k + 1]),
                ),
        decreases tokens.len() - i,
    {
        let ghost before = paths_view(paths@);
        let ghost before_len = paths@.len();
        if tokens[i] != *base {
            let mut path: Vec<PathStep> = Vec::new();
            proof {
                assert(reachable(
                    tokens.deep_view(),
                    dexes.deep_view(),
                    base@,
                    tokens@[i as int]@,
                    num_swaps as int,
                    path@,
                ));
            }
            find_arbitrage_paths_recursive(tokens, dexes, &mut paths, base, &tokens[i], &mut path, num_swaps);
            proof {
                let all = paths_view(paths@);
                assert(all.take(before_len as int) == before);
                assert forall|k: int| 0 <= k < i && tokens@[k]@ != base@ implies lists_paths_from(
                    tokens.deep_view(),
                    dexes.deep_view(),
                    base@,
                    tokens@[k]@,
                    num_swaps as int,
                    Seq::<PathStep>::empty(),
                    all.subrange(#[trigger] cuts[k], cuts[k + 1]),
                ) by {
                    assert(all.subrange(cuts[k], cuts[k + 1]) =~= before.subrange(cuts[k], cuts[k + 1])) by {
                        assert forall|j: int| cuts[k] <= j < cuts[k + 1] implies #[trigger] all[j] == before[j] by {
                            assert(all.take(before_len as int)[j] == all[j]);
                        }
                    }
                }
                assert(all.subrange(before_len as int, all.len() as int) =~= all.skip(before_len as int));
                cuts = cuts.push(paths@.len() as int);
            }
        } else {
            proof {
                cuts = cuts.push(paths@.len() as int);
            }
        }
        i = i + 1;
    }
    assert(exists|cuts: Seq<int>|
            {
                &&& cuts.len() == tokens.len() + 1
                &&& cuts[0] == 0
                &&& cuts[tokens.len() as int] == paths@.len()
                &&& forall|i: int|
                    0 <= i < tokens.len() ==> 0 <= #[trigger] cuts[i] <= cuts[i + 1] <= paths@.len()
                &&& forall|i: int|
                    0 <= i < tokens.len() && tokens@[i]@ == base@ ==> #[trigger] cuts[i] == cuts[i
                        + 1]
                &&& forall|i: int|
                    0 <= i < tokens.len() && tokens@[i]@ != base@ ==> lists_paths_from(
                        tokens.deep_view(),
                        dexes.deep_view(),
                        base@,
                        tokens@[i]@,
                        num_swaps as int,
                        Seq::<PathStep>::empty(),
                        paths_view(paths@).subrange(#[trigger] cuts[i], cuts[i + 1]),
                    )
            }) by {
        assert(cuts.len() == tokens.len() + 1);
    }
    paths
}

} // verus!
