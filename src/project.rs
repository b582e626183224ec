//! The release order of workspace packages: dependencies first, ties by name.
use vstd::prelude::*;
use vstd::string::*;

verus! {

/// `a` sorts strictly before `b` in lexicographic order of code points.
pub open spec fn name_lt(a: Seq<char>, b: Seq<char>) -> bool {
    exists|k: int|
        0 <= k <= a.len() && k <= b.len() && a.subrange(0, k) == b.subrange(0, k) && ((k == a.len()
            && a.len() < b.len()) || (k < a.len() && k < b.len() && (a[k] as u32) < (b[k] as u32)))
}

proof fn lemma_prefix_eq(a: Seq<char>, b: Seq<char>, k: int, i: int)
    requires
        0 <= i < k <= a.len(),
        k <= b.len(),
        a.subrange(0, k) == b.subrange(0, k),
    ensures
        a[i] == b[i],
{
    assert(a.subrange(0, k)[i] == a[i]);
    assert(b.subrange(0, k)[i] == b[i]);
}

pub proof fn lemma_name_lt_trans(a: Seq<char>, b: Seq<char>, c: Seq<char>)
    requires
        name_lt(a, b),
        name_lt(b, c),
    ensures
        name_lt(a, c),
{
    let k1 = choose|k: int|
        0 <= k <= a.len() && k <= b.len() && a.subrange(0, k) == b.subrange(0, k) && ((k == a.len()
            && a.len() < b.len()) || (k < a.len() && k < b.len() && (a[k] as u32) < (b[k] as u32)));
    let k2 = choose|k: int|
        0 <= k <= b.len() && k <= c.len() && b.subrange(0, k) == c.subrange(0, k) && ((k == b.len()
            && b.len() < c.len()) || (k < b.len() && k < c.len() && (b[k] as u32) < (c[k] as u32)));
    let k = if k1 < k2 {
        k1
    } else {
        k2
    };
    assert(a.subrange(0, k) =~= c.subrange(0, k)) by {
        assert forall|i: int| 0 <= i < k implies a[i] == c[i] by {
            lemma_prefix_eq(a, b, k1, i);
            lemma_prefix_eq(b, c, k2, i);
        }
    }
    if k1 < k2 {
        if k1 < a.len() {
            lemma_prefix_eq(b, c, k2, k1);
        }
    } else if k2 < k1 {
        lemma_prefix_eq(a, b, k1, k2);
    }
    assert(0 <= k <= a.len() && k <= c.len() && a.subrange(0, k) == c.subrange(0, k) && ((k
        == a.len() && a.len() < c.len()) || (k < a.len() && k < c.len() && (a[k] as u32) < (
    c[k] as u32))));
}

/// Whether `a` sorts strictly before `b` (see [`name_lt`]).
pub fn str_lt(a: &str, b: &str) -> (r: bool)
    ensures
        r == name_lt(a@, b@),
{
    let la = a.unicode_len();
    let lb = b.unicode_len();
    let mut k: usize = 0;
    while k < la && k < lb && a.get_char(k) == b.get_char(k)
        invariant
            la == a@.len(),
            lb == b@.len(),
            k <= la && k <= lb,
            a@.subrange(0, k as int) == b@.subrange(0, k as int),
        decreases la - k,
    {
        assert(a@.subrange(0, k as int + 1) =~= b@.subrange(0, k as int + 1)) by {
            assert forall|i: int| 0 <= i < k + 1 implies a@[i] == b@[i] by {
                if i < k {
                    lemma_prefix_eq(a@, b@, k as int, i);
                }
            }
        }
        k = k + 1;
    }
    let r = if k < la && k < lb {
        (a.get_char(k) as u32) < (b.get_char(k) as u32)
    } else {
        k == la && la < lb
    };
    proof {
        if name_lt(a@, b@) {
            let j = choose|j: int|
                0 <= j <= a@.len() && j <= b@.len() && a@.subrange(0, j) == b@.subrange(0, j) && ((j
                    == a@.len() && a@.len() < b@.len()) || (j < a@.len() && j < b@.len() && (
                a@[j] as u32) < (b@[j] as u32)));
            if j < k {
                lemma_prefix_eq(a@, b@, k as int, j);
            }
            if k < j {
                lemma_prefix_eq(a@, b@, j, k as int);
            }
            assert(j == k);
        }
        if r {
            assert(a@.subrange(0, k as int) == b@.subrange(0, k as int));
        }
    }
    r
}

/// `p` can be released once the packages of `placed` are: it is not among
/// them and all its dependencies are.
pub open spec fn ready_at(deps: Seq<Seq<usize>>, placed: Seq<usize>, p: int) -> bool {
    0 <= p < deps.len() && !placed.contains(p as usize) && forall|j: int|
        0 <= j < deps[p].len() ==> placed.contains(#[trigger] deps[p][j])
}

/// `order` is the release order of packages named `names` with dependencies
/// `deps` (indices): a permutation of the packages in which each one is, at its
/// turn, ready, and sorts first by name among the packages ready then.
pub open spec fn is_release_order(names: Seq<Seq<char>>, deps: Seq<Seq<usize>>, order: Seq<usize>) -> bool {
    &&& order.len() == deps.len()
    &&& order.no_duplicates()
    &&& forall|k: int| 0 <= k < order.len() ==> (#[trigger] order[k] as int) < deps.len()
    &&& forall|k: int|
        0 <= k < order.len() ==> ready_at(deps, order.subrange(0, k), #[trigger] order[k] as int)
    &&& forall|k: int, q: int|
        0 <= k < order.len() && ready_at(deps, order.subrange(0, k), q) ==> !name_lt(
            names[q],
            names[#[trigger] order[k] as int],
        ) && #[trigger] names[q] == names[q]
}

/// The dependency indices name packages of the workspace.
pub open spec fn deps_in_range(deps: Seq<Seq<usize>>) -> bool {
    forall|p: int, j: int| 0 <= p < deps.len() && 0 <= j < deps[p].len() ==> (#[trigger] deps[p][j] as int) < deps.len()
}

/// Some packages not in `placed` each depend on a package not in `placed`:
/// the dependency graph has a cycle among them.
pub open spec fn stuck(deps: Seq<Seq<usize>>, placed: Seq<usize>) -> bool {
    &&& exists|p: usize| (p as int) < deps.len() && !#[trigger] placed.contains(p)
    &&& forall|p: usize|
        (p as int) < deps.len() && !#[trigger] placed.contains(p) ==> exists|j: int|
            0 <= j < deps[p as int].len() && !placed.contains(#[trigger] deps[p as int][j])
}

/// The dependency graph has a cycle.
#[derive(Debug)]
pub struct CycleError {
    /// The packages that could not be ordered.
    pub remaining: Vec<usize>,
}

/// The views of a slice of strings.
pub open spec fn name_views(v: Seq<String>) -> Seq<Seq<char>> {
    v.map_values(|s: String| s@)
}

/// The views of a slice of index vectors.
pub open spec fn dep_views(v: Seq<Vec<usize>>) -> Seq<Seq<usize>> {
    v.map_values(|d: Vec<usize>| d@)
}

fn is_ready(deps: &[Vec<usize>], order: &Vec<usize>, placed: &Vec<bool>, p: usize) -> (r: bool)
    requires
        p < deps@.len(),
        placed@.len() == deps@.len(),
        forall|q: int| 0 <= q < deps@.len() ==> placed@[q] == order@.contains(q as usize),
        deps_in_range(dep_views(deps@)),
    ensures
        r == ready_at(dep_views(deps@), order@, p as int),
{
    let ghost dv = dep_views(deps@);
    assert(dv[p as int] == deps@[p as int]@);
    if placed[p] {
        return false;
    }
    let d = &deps[p];
    let mut j: usize = 0;
    while j < d.len()
        invariant
            d@ == dv[p as int],
            dv == dep_views(deps@),
            deps_in_range(dv),
            p < dv.len(),
            placed@.len() == deps@.len(),
            forall|q: int| 0 <= q < deps@.len() ==> placed@[q] == order@.contains(q as usize),
            j <= d@.len(),
            forall|i: int| 0 <= i < j ==> order@.contains(#[trigger] d@[i]),
        decreases d@.len() - j,
    {
        let x = d[j];
        assert(dv[p as int][j as int] == x);
        if !placed[x] {
            return false;
        }
        j = j + 1;
    }
    true
}

/// Orders packages so that each comes after all its dependencies, taking at
/// each turn the ready package with the smallest name; fails on a cycle.
pub fn release_order(names: &[String], deps: &[Vec<usize>]) -> (r: Result<Vec<usize>, CycleError>)
    requires
        names@.len() == deps@.len(),
        deps_in_range(dep_views(deps@)),
    ensures
        match r {
            Ok(order) => is_release_order(name_views(names@), dep_views(deps@), order@),
            Err(_) => exists|placed: Seq<usize>| stuck(dep_views(deps@), placed),
        },
{
    let ghost nv = name_views(names@);
    let ghost dv = dep_views(deps@);
    let n = deps.len();
    let mut placed: Vec<bool> = Vec::new();
    let mut i: usize = 0;
    while i < n
        invariant
            n == deps@.len(),
            i <= n,
            placed@.len() == i,
            forall|q: int| 0 <= q < i ==> !placed@[q],
        decreases n - i,
    {
        placed.push(false);
        i = i + 1;
    }
    let mut order: Vec<usize> = Vec::new();
    while order.len() < n
        invariant
            n == deps@.len(),
            n == names@.len(),
            nv == name_views(names@),
            dv == dep_views(deps@),
            deps_in_range(dv),
            placed@.len() == n,
            forall|q: int| 0 <= q < n ==> placed@[q] == order@.contains(q as usize),
            order@.len() <= n,
            order@.no_duplicates(),
            forall|k: int| 0 <= k < order@.len() ==> (#[trigger] order@[k] as int) < n,
            forall|k: int|
                0 <= k < order@.len() ==> ready_at(dv, order@.subrange(0, k), #[trigger] order@[k] as int),
            forall|k: int, q: int|
                0 <= k < order@.len() && ready_at(dv, order@.subrange(0, k), q) ==> !name_lt(
                    nv[q],
                    nv[#[trigger] order@[k] as int],
                ) && #[trigger] nv[q] == nv[q],
        decreases n - order@.len(),
    {
        let mut best: Option<usize> = None;
        let mut p: usize = 0;
        while p < n
            invariant
                n == deps@.len(),
                n == names@.len(),
                nv == name_views(names@),
                dv == dep_views(deps@),
                deps_in_range(dv),
                placed@.len() == n,
                forall|q: int| 0 <= q < n ==> placed@[q] == order@.contains(q as usize),
                p <= n,
                match best {
                    Some(b) => b < p && ready_at(dv, order@, b as int) && forall|q: int|
                        0 <= q < p && ready_at(dv, order@, q) ==> !name_lt(nv[q], nv[b as int]),
                    None => forall|q: int| 0 <= q < p ==> !ready_at(dv, order@, q),
                },
            decreases n - p,
        {
            if is_ready(deps, &order, &placed, p) {
                match best {
                    Some(b) => {
                        assert(nv[p as int] == names@[p as int]@);
                        assert(nv[b as int] == names@[b as int]@);
                        if str_lt(names[p].as_str(), names[b].as_str()) {
                            proof {
                                assert forall|q: int|
                                    0 <= q < p + 1 && ready_at(dv, order@, q) implies !name_lt(
                                    nv[q],
                                    nv[p as int],
                                ) by {
                                    if q < p && name_lt(nv[q], nv[p as int]) {
                                        lemma_name_lt_trans(nv[q], nv[p as int], nv[b as int]);
                                    }
                                    if q == p && name_lt(nv[q], nv[p as int]) {
                                        lemma_name_lt_irrefl(nv[q]);
                                    }
                                }
                            }
                            best = Some(p);
                        }
                    },
                    None => {
                        proof {
                            if name_lt(nv[p as int], nv[p as int]) {
                                lemma_name_lt_irrefl(nv[p as int]);
                            }
                        }
                        best = Some(p);
                    },
                }
            }
            p = p + 1;
        }
        match best {
            Some(b) => {
                let ghost old_order = order@;
                order.push(b);
                placed.set(b, true);
                proof {
                    assert(order@.subrange(0, old_order.len() as int) =~= old_order);
                    assert forall|q: int| 0 <= q < n implies placed@[q] == order@.contains(q as usize) by {
                        if q == b {
                            assert(order@[old_order.len() as int] == b);
                        } else {
                            if order@.contains(q as usize) {
                                let t = choose|t: int| 0 <= t < order@.len() && order@[t] == q as usize;
                                assert(t < old_order.len());
                                assert(old_order[t] == q as usize);
                            }
                            if old_order.contains(q as usize) {
                                let t = choose|t: int| 0 <= t < old_order.len() && old_order[t] == q as usize;
                                assert(order@[t] == q as usize);
                            }
                        }
                    }
                    assert forall|k: int|
                        0 <= k < order@.len() implies ready_at(dv, order@.subrange(0, k), #[trigger] order@[k] as int) by {
                        if k < old_order.len() {
                            assert(order@.subrange(0, k) =~= old_order.subrange(0, k));
                        }
                    }
                    assert forall|k: int, q: int|
                        0 <= k < order@.len() && ready_at(dv, order@.subrange(0, k), q) implies !name_lt(
                            nv[q],
                            nv[#[trigger] order@[k] as int],
                        ) && #[trigger] nv[q] == nv[q] by {
                        if k < old_order.len() {
                            assert(order@.subrange(0, k) =~= old_order.subrange(0, k));
                        } else {
                            assert(order@.subrange(0, k) =~= old_order);
                        }
                    }
                    assert(order@.no_duplicates()) by {
                        assert forall|x: int, y: int|
                            0 <= x < order@.len() && 0 <= y < order@.len() && x != y implies order@[x] != order@[y] by {
                            if x == old_order.len() && y < old_order.len() {
                                assert(old_order.contains(order@[y]));
                            }
                            if y == old_order.len() && x < old_order.len() {
                                assert(old_order.contains(order@[x]));
                            }
                        }
                    }
                }
            },
            None => {
                let mut remaining: Vec<usize> = Vec::new();
                let mut q: usize = 0;
                while q < n
                    invariant
                        q <= n,
                        placed@.len() == n,
                    decreases n - q,
                {
                    if !placed[q] {
                        remaining.push(q);
                    }
                    q = q + 1;
                }
                proof {
                    lemma_stuck(dv, order@);
                }
                return Err(CycleError { remaining });
            },
        }
    }
    Ok(order)
}

pub proof fn lemma_name_lt_irrefl(a: Seq<char>)
    ensures
        !name_lt(a, a),
{
}

proof fn lemma_stuck(deps: Seq<Seq<usize>>, placed: Seq<usize>)
    requires
        deps.len() <= usize::MAX,
        placed.len() < deps.len(),
        placed.no_duplicates(),
        forall|k: int| 0 <= k < placed.len() ==> (#[trigger] placed[k] as int) < deps.len(),
        forall|q: int| 0 <= q < deps.len() ==> !ready_at(deps, placed, q),
    ensures
        exists|pl: Seq<usize>| stuck(deps, pl),
{
    lemma_some_unplaced(placed, deps.len() as int);
    assert forall|p: usize| (p as int) < deps.len() && !#[trigger] placed.contains(p) implies exists|j: int|
        0 <= j < deps[p as int].len() && !placed.contains(#[trigger] deps[p as int][j]) by {
        assert(!ready_at(deps, placed, p as int));
    }
    assert(stuck(deps, placed));
}

/// A sequence of fewer than `n` distinct indices below `n` misses one of them.
proof fn lemma_some_unplaced(placed: Seq<usize>, n: int)
    requires
        n <= usize::MAX,
        placed.len() < n,
        placed.no_duplicates(),
        forall|k: int| 0 <= k < placed.len() ==> (#[trigger] placed[k] as int) < n,
    ensures
        exists|p: usize| (p as int) < n && !#[trigger] placed.contains(p),
{
    let s = placed.to_set();
    placed.unique_seq_to_set();
    vstd::seq_lib::seq_to_set_is_finite(placed);
    let full = Set::new(|x: usize| (x as int) < n);
    if forall|p: usize| (p as int) < n ==> #[trigger] placed.contains(p) {
        assert(full.subset_of(s)) by {
            assert forall|x: usize| full.contains(x) implies s.contains(x) by {
                assert(placed.contains(x as usize));
            }
        }
        lemma_range_set_len(n);
        vstd::set_lib::lemma_len_subset(full, s);
    }
}

/// The set of indices below `n` has `n` elements.
proof fn lemma_range_set_len(n: int)
    requires
        0 <= n,
        n <= usize::MAX + 1,
    ensures
        Set::new(|x: usize| (x as int) < n).finite(),
        Set::new(|x: usize| (x as int) < n).len() == n,
    decreases n,
{
    if n == 0 {
        assert(Set::new(|x: usize| (x as int) < n) =~= Set::<usize>::empty());
    } else {
        lemma_range_set_len(n - 1);
        let a = Set::new(|x: usize| (x as int) < n - 1);
        assert(Set::new(|x: usize| (x as int) < n) =~= a.insert((n - 1) as usize));
    }
}

/// In a release order every dependency comes before its dependent.
pub proof fn lemma_release_order_respects_dependencies(
    names: Seq<Seq<char>>,
    deps: Seq<Seq<usize>>,
    order: Seq<usize>,
    a: int,
    b: int,
    j: int,
)
    requires
        is_release_order(names, deps, order),
        0 <= b < order.len(),
        0 <= j < deps[order[b] as int].len(),
        0 <= a < order.len(),
        order[a] == deps[order[b] as int][j],
    ensures
        a < b,
{
    assert(ready_at(deps, order.subrange(0, b), order[b] as int));
    let d = deps[order[b] as int][j];
    assert(order.subrange(0, b).contains(d));
    let t = choose|t: int| 0 <= t < b && order.subrange(0, b)[t] == d;
    assert(order[t] == d);
    if a != t {
        assert(order[a] != order[t]);
    }
}

/// In a release order, of two packages ready at the same turn the one with the
/// smaller name goes first.
pub proof fn lemma_release_order_ties_by_name(
    names: Seq<Seq<char>>,
    deps: Seq<Seq<usize>>,
    order: Seq<usize>,
    k: int,
    q: int,
)
    requires
        is_release_order(names, deps, order),
        0 <= k < order.len(),
        ready_at(deps, order.subrange(0, k), q),
    ensures
        !name_lt(names[q], names[order[k] as int]),
{
    assert(names[q] == names[q]);
}

/// A package can be published unless its manifest's registry list is empty
/// (`publish = false` reads as an empty list).
pub fn is_publishable(publish: Option<&Vec<String>>) -> (r: bool)
    ensures
        r == match publish {
            Some(l) => l@.len() > 0,
            None => true,
        },
{
    match publish {
        Some(l) => l.len() > 0,
        None => true,
    }
}

/// The publishable packages of a release order, in that order.
pub open spec fn publishable_upto(order: Seq<usize>, publishable: Seq<bool>, n: int) -> Seq<usize>
    decreases n,
{
    if n <= 0 {
        Seq::empty()
    } else {
        let prev = publishable_upto(order, publishable, n - 1);
        let p = order[n - 1];
        if (p as int) < publishable.len() && publishable[p as int] {
            prev.push(p)
        } else {
            prev
        }
    }
}

/// The packages of `order` that can be published, in order.
pub fn publishable_packages(order: &[usize], publishable: &[bool]) -> (r: Vec<usize>)
    ensures
        r@ == publishable_upto(order@, publishable@, order@.len() as int),
{
    let mut r: Vec<usize> = Vec::new();
    let mut i: usize = 0;
    while i < order.len()
        invariant
            i <= order@.len(),
            r@ == publishable_upto(order@, publishable@, i as int),
        decreases order@.len() - i,
    {
        let p = order[i];
        if p < publishable.len() && publishable[p] {
            r.push(p);
        }
        i = i + 1;
    }
    r
}

} // verus!
