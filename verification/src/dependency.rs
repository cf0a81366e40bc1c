//! The order in which surrogate views are rebuilt: a table whose primary key
//! holds a reference to another table shows that table's display value, so
//! its view is rebuilt after the other's.

use vstd::prelude::*;
use vstd::set_lib::{lemma_int_range, lemma_len_subset, set_int_range};
use crate::error::Error;

verus! {

/// A table whose surrogate view depends on the table that is rebuilt, with
/// the length of the longest chain of primary-key references between them.
#[derive(Clone, Copy, Debug, PartialEq, Eq, Structural)]
pub struct TableDependency {
    pub dependency_depth: i32,
    pub table_oid: i64,
}

/// One more than `d`, as far as the type reaches.
pub open spec fn deeper(d: i32) -> i32 {
    if d < i32::MAX {
        (d + 1) as i32
    } else {
        d
    }
}

/// `found` with table `x` at depth `d` at least: raised where it is listed,
/// added at the end where it is not.
pub open spec fn raised(found: Seq<TableDependency>, x: i64, d: i32) -> Seq<TableDependency>
    decreases found.len(),
{
    if found.len() == 0 {
        seq![TableDependency { dependency_depth: d, table_oid: x }]
    } else if found[0].table_oid == x {
        seq![
            TableDependency {
                dependency_depth: if found[0].dependency_depth < d {
                    d
                } else {
                    found[0].dependency_depth
                },
                table_oid: x,
            },
        ] + found.skip(1)
    } else {
        seq![found[0]] + raised(found.skip(1), x, d)
    }
}

/// `found` with every table of `sub` one level below its depth in `sub`.
pub open spec fn merged(found: Seq<TableDependency>, sub: Seq<TableDependency>) -> Seq<
    TableDependency,
>
    decreases sub.len(),
{
    if sub.len() == 0 {
        found
    } else {
        raised(
            merged(found, sub.drop_last()),
            sub.last().table_oid,
            deeper(sub.last().dependency_depth),
        )
    }
}

/// The tables that depend on `t`, with `t` itself at depth 0, found by
/// following the edges of `edges` (referenced table, referring table) from
/// `t`; `None` where the walk comes back to a table of `chain` or to `t`, or
/// goes deeper than `fuel` tables.
pub open spec fn walk(edges: Seq<(i64, i64)>, t: i64, chain: Seq<i64>, fuel: nat) -> Option<
    Seq<TableDependency>,
>
    decreases fuel, edges.len() + 1,
{
    if fuel == 0 {
        None
    } else {
        walk_edges(edges, t, chain.push(t), fuel, edges.len())
    }
}

/// [`walk`] over the first `upto` edges; `chain` ends in `t`.
pub open spec fn walk_edges(
    edges: Seq<(i64, i64)>,
    t: i64,
    chain: Seq<i64>,
    fuel: nat,
    upto: nat,
) -> Option<Seq<TableDependency>>
    decreases fuel, upto,
{
    if fuel == 0 || upto > edges.len() {
        None
    } else if upto == 0 {
        Some(seq![TableDependency { dependency_depth: 0, table_oid: t }])
    } else {
        match walk_edges(edges, t, chain, fuel, (upto - 1) as nat) {
            None => None,
            Some(found) => {
                let e = edges[upto - 1];
                if e.0 != t || e.1 == t {
                    Some(found)
                } else if chain.contains(e.1) {
                    None
                } else {
                    match walk(edges, e.1, chain, (fuel - 1) as nat) {
                        None => None,
                        Some(sub) => Some(merged(found, sub)),
                    }
                }
            },
        }
    }
}

/// How many tables deep the walk over `n` edges may go: one more than there
/// are edges, as far as the machine counts. A chain of tables that refer to
/// each other without a circle is never longer.
pub open spec fn walk_depth(n: nat) -> nat {
    if n < usize::MAX {
        n + 1
    } else {
        n
    }
}

/// `sorted` with `e` after every entry that is not deeper than `e`.
pub open spec fn placed(sorted: Seq<TableDependency>, e: TableDependency) -> Seq<TableDependency>
    decreases sorted.len(),
{
    if sorted.len() == 0 {
        seq![e]
    } else if sorted.last().dependency_depth <= e.dependency_depth {
        sorted.push(e)
    } else {
        placed(sorted.drop_last(), e).push(sorted.last())
    }
}

/// The entries of `found` by ascending depth, entries of one depth in the
/// order in which they were found.
pub open spec fn rebuild_order(found: Seq<TableDependency>) -> Seq<TableDependency>
    decreases found.len(),
{
    if found.len() == 0 {
        Seq::empty()
    } else {
        placed(rebuild_order(found.drop_last()), found.last())
    }
}

/// No entry is deeper than one behind it.
pub open spec fn ascending(s: Seq<TableDependency>) -> bool {
    forall|i: int, j: int| 0 <= i < j < s.len() ==> s[i].dependency_depth <= s[j].dependency_depth
}

/// A primary-key column of table `b` references table `a`, another table.
pub open spec fn key_step(edges: Seq<(i64, i64)>, a: i64, b: i64) -> bool {
    a != b && exists|i: int| 0 <= i < edges.len() && #[trigger] edges[i] == (a, b)
}

/// The table at `k + 1` in `path` references the table at `k` in its
/// primary key.
pub open spec fn step_at(edges: Seq<(i64, i64)>, path: Seq<i64>, k: int) -> bool {
    key_step(edges, path[k], path[k + 1])
}

/// `path` follows primary-key references from table to referring table, and
/// never from a table to itself.
pub open spec fn is_key_path(edges: Seq<(i64, i64)>, path: Seq<i64>) -> bool {
    forall|k: int| 0 <= k < path.len() - 1 ==> #[trigger] step_at(edges, path, k)
}

fn raise(found: &mut Vec<TableDependency>, x: i64, d: i32)
    ensures
        final(found)@ == raised(old(found)@, x, d),
{
    let mut i: usize = 0;
    assert(found@.skip(0) =~= found@);
    assert(found@.take(0) + raised(found@, x, d) =~= raised(found@, x, d));
    while i < found.len()
        invariant
            i <= found.len(),
            found@ == old(found)@,
            raised(old(found)@, x, d) == found@.take(i as int) + raised(found@.skip(i as int), x, d),
        decreases found.len() - i,
    {
        let ghost rest = found@.skip(i as int);
        assert(rest[0] == found@[i as int]);
        assert(rest.skip(1) =~= found@.skip(i + 1));
        if found[i].table_oid == x {
            let depth: i32 = if found[i].dependency_depth < d {
                d
            } else {
                found[i].dependency_depth
            };
            found.set(i, TableDependency { dependency_depth: depth, table_oid: x });
            assert(found@ =~= old(found)@.take(i as int) + raised(rest, x, d));
            return ;
        }
        assert(found@.take(i as int) + (seq![rest[0]] + raised(rest.skip(1), x, d)) =~= found@.take(
            i + 1,
        ) + raised(found@.skip(i + 1), x, d));
        i = i + 1;
    }
    assert(found@.skip(i as int) =~= Seq::empty());
    found.push(TableDependency { dependency_depth: d, table_oid: x });
    assert(found@ =~= old(found)@.take(i as int) + raised(Seq::empty(), x, d));
}

fn contains_table(chain: &Vec<i64>, x: i64) -> (r: bool)
    ensures
        r == chain@.contains(x),
{
    let mut i: usize = 0;
    while i < chain.len()
        invariant
            i <= chain.len(),
            forall|k: int| 0 <= k < i ==> chain@[k] != x,
        decreases chain.len() - i,
    {
        if chain[i] == x {
            return true;
        }
        i = i + 1;
    }
    false
}

fn walk_from(edges: &Vec<(i64, i64)>, t: i64, chain: &mut Vec<i64>, fuel: usize) -> (r: Option<
    Vec<TableDependency>,
>)
    ensures
        final(chain)@ == old(chain)@,
        match walk(edges@, t, old(chain)@, fuel as nat) {
            None => r is None,
            Some(found) => r is Some && r->Some_0@ == found,
        },
    decreases fuel,
{
    if fuel == 0 {
        return None;
    }
    chain.push(t);
    let mut found: Vec<TableDependency> = Vec::new();
    found.push(TableDependency { dependency_depth: 0, table_oid: t });
    let mut i: usize = 0;
    while i < edges.len()
        invariant
            i <= edges.len(),
            fuel > 0,
            chain@ == old(chain)@.push(t),
            walk_edges(edges@, t, chain@, fuel as nat, i as nat) == Some(found@),
        decreases edges.len() - i,
    {
        let e: (i64, i64) = edges[i];
        if e.0 == t && e.1 != t {
            if contains_table(chain, e.1) {
                proof {
                    lemma_walk_edges_stays_none(edges@, t, chain@, fuel as nat, (i + 1) as nat);
                }
                chain.pop();
                assert(chain@ =~= old(chain)@);
                return None;
            }
            match walk_from(edges, e.1, chain, fuel - 1) {
                None => {
                    proof {
                        lemma_walk_edges_stays_none(edges@, t, chain@, fuel as nat, (i + 1) as nat);
                    }
                    chain.pop();
                    assert(chain@ =~= old(chain)@);
                    return None;
                },
                Some(sub) => {
                    let mut k: usize = 0;
                    while k < sub.len()
                        invariant
                            k <= sub.len(),
                            walk_edges(edges@, t, chain@, fuel as nat, i as nat) is Some,
                            found@ == merged(
                                walk_edges(edges@, t, chain@, fuel as nat, i as nat)->Some_0,
                                sub@.take(k as int),
                            ),
                        decreases sub.len() - k,
                    {
                        let d: i32 = if sub[k].dependency_depth < i32::MAX {
                            sub[k].dependency_depth + 1
                        } else {
                            sub[k].dependency_depth
                        };
                        assert(sub@.take(k + 1).drop_last() =~= sub@.take(k as int));
                        raise(&mut found, sub[k].table_oid, d);
                        k = k + 1;
                    }
                    assert(sub@.take(k as int) =~= sub@);
                },
            }
        }
        i = i + 1;
    }
    chain.pop();
    assert(chain@ =~= old(chain)@);
    Some(found)
}

/// Once the walk over some edges has failed, it has failed over more.
proof fn lemma_walk_edges_stays_none(
    edges: Seq<(i64, i64)>,
    t: i64,
    chain: Seq<i64>,
    fuel: nat,
    upto: nat,
)
    requires
        upto <= edges.len(),
        walk_edges(edges, t, chain, fuel, upto) is None,
    ensures
        walk_edges(edges, t, chain, fuel, edges.len()) is None,
    decreases edges.len() - upto,
{
    if upto < edges.len() {
        assert(walk_edges(edges, t, chain, fuel, upto + 1) is None);
        lemma_walk_edges_stays_none(edges, t, chain, fuel, upto + 1);
    }
}

fn place(sorted: &mut Vec<TableDependency>, e: TableDependency)
    ensures
        final(sorted)@ == placed(old(sorted)@, e),
{
    let mut i: usize = sorted.len();
    assert(sorted@.take(i as int) =~= sorted@);
    assert(placed(sorted@, e) + sorted@.skip(i as int) =~= placed(sorted@, e));
    while i > 0 && sorted[i - 1].dependency_depth > e.dependency_depth
        invariant
            i <= sorted.len(),
            sorted@ == old(sorted)@,
            placed(sorted@, e) == placed(sorted@.take(i as int), e) + sorted@.skip(i as int),
        decreases i,
    {
        assert(sorted@.take(i as int).drop_last() =~= sorted@.take(i - 1));
        assert(placed(sorted@.take(i - 1), e).push(sorted@[i - 1]) + sorted@.skip(i as int)
            =~= placed(sorted@.take(i - 1), e) + sorted@.skip(i - 1));
        i = i - 1;
    }
    sorted.insert(i, e);
    assert(sorted@ =~= placed(old(sorted)@.take(i as int), e) + old(sorted)@.skip(i as int));
}

/// The tables whose surrogate views are dropped and rebuilt when table
/// `table_oid` changes, in the order of rebuilding: `table_oid` first, then
/// its dependents by ascending depth. `key_edges` lists, for every
/// primary-key column, the type id of the column and the table that owns it.
/// Where primary keys reference each other in a circle that the walk from
/// `table_oid` reaches, the answer is `SchemaCycle`.
pub fn update_surrogate_view(table_oid: i64, key_edges: &Vec<(i64, i64)>) -> (r: Result<
    Vec<TableDependency>,
    Error,
>)
    ensures
        match walk(key_edges@, table_oid, Seq::empty(), walk_depth(key_edges@.len())) {
            None => r == Err::<Vec<TableDependency>, Error>(Error::SchemaCycle),
            Some(found) => r is Ok && r->Ok_0@ == rebuild_order(found),
        },
{
    let mut chain: Vec<i64> = Vec::new();
    let depth: usize = if key_edges.len() < usize::MAX {
        key_edges.len() + 1
    } else {
        key_edges.len()
    };
    match walk_from(key_edges, table_oid, &mut chain, depth) {
        None => Err(Error::SchemaCycle),
        Some(found) => {
            let mut order: Vec<TableDependency> = Vec::new();
            let mut i: usize = 0;
            while i < found.len()
                invariant
                    i <= found.len(),
                    order@ == rebuild_order(found@.take(i as int)),
                decreases found.len() - i,
            {
                assert(found@.take(i + 1).drop_last() =~= found@.take(i as int));
                place(&mut order, found[i]);
                i = i + 1;
            }
            assert(found@.take(i as int) =~= found@);
            Ok(order)
        },
    }
}

/// Every edge that the walk from `t` has passed leads to a table that is not
/// on the chain, from which the walk went on.
proof fn lemma_edge_walked(
    edges: Seq<(i64, i64)>,
    t: i64,
    chain: Seq<i64>,
    fuel: nat,
    upto: nat,
    i: int,
)
    requires
        walk_edges(edges, t, chain, fuel, upto) is Some,
        0 <= i < upto,
        edges[i].0 == t,
        edges[i].1 != t,
    ensures
        fuel > 0,
        !chain.contains(edges[i].1),
        walk(edges, edges[i].1, chain, (fuel - 1) as nat) is Some,
    decreases upto,
{
    if i < upto - 1 {
        lemma_edge_walked(edges, t, chain, fuel, (upto - 1) as nat, i);
    }
}

/// Where the walk from `t` finds its dependents, no chain of primary-key
/// references that starts at `t` comes back to a table that it has passed,
/// nor to one of `chain`.
pub proof fn lemma_walk_meets_no_cycle(
    edges: Seq<(i64, i64)>,
    t: i64,
    chain: Seq<i64>,
    fuel: nat,
    path: Seq<i64>,
)
    requires
        walk(edges, t, chain, fuel) is Some,
        path.len() >= 1,
        path[0] == t,
        is_key_path(edges, path),
    ensures
        forall|k: int| 1 <= k < path.len() ==> !chain.push(t).contains(#[trigger] path[k]),
        forall|i: int, j: int| 0 <= i < j < path.len() ==> path[i] != path[j],
    decreases path.len(),
{
    if path.len() >= 2 {
        let d = path[1];
        let rest = path.skip(1);
        assert(step_at(edges, path, 0));
        let i = choose|i: int| 0 <= i < edges.len() && #[trigger] edges[i] == (t, d);
        lemma_edge_walked(edges, t, chain.push(t), fuel, edges.len(), i);
        assert forall|k: int| 0 <= k < rest.len() - 1 implies #[trigger] step_at(edges, rest, k) by {
            assert(step_at(edges, path, k + 1));
        }
        lemma_walk_meets_no_cycle(edges, d, chain.push(t), (fuel - 1) as nat, rest);
        assert forall|k: int| 1 <= k < path.len() implies !chain.push(t).contains(
            #[trigger] path[k],
        ) by {
            if k >= 2 {
                assert(path[k] == rest[k - 1]);
                assert(!chain.push(t).push(d).contains(rest[k - 1]));
                if chain.push(t).contains(path[k]) {
                    let w = choose|w: int| 0 <= w < chain.push(t).len() && chain.push(t)[w] == path[k];
                    assert(chain.push(t).push(d)[w] == path[k]);
                }
            }
        }
        assert forall|i: int, j: int| 0 <= i < j < path.len() implies path[i] != path[j] by {
            if i == 0 {
                assert(chain.push(t)[chain.len() as int] == t);
                assert(!chain.push(t).contains(path[j]));
            } else {
                assert(rest[i - 1] != rest[j - 1]);
            }
        }
    }
}

/// An entry placed into an ascending list leaves it ascending, one longer,
/// and no deeper than the entry and the list were.
proof fn lemma_placed(sorted: Seq<TableDependency>, e: TableDependency, bound: int)
    requires
        ascending(sorted),
        e.dependency_depth <= bound,
        forall|i: int| 0 <= i < sorted.len() ==> sorted[i].dependency_depth <= bound,
    ensures
        ascending(placed(sorted, e)),
        placed(sorted, e).len() == sorted.len() + 1,
        forall|i: int| 0 <= i <= sorted.len() ==> placed(sorted, e)[i].dependency_depth <= bound,
    decreases sorted.len(),
{
    if sorted.len() > 0 && sorted.last().dependency_depth > e.dependency_depth {
        lemma_placed(sorted.drop_last(), e, sorted.last().dependency_depth as int);
        lemma_placed(sorted.drop_last(), e, bound);
    }
}

/// The rebuild order lists as many entries as were found, none deeper than
/// one behind it: a view is rebuilt after every view that it may show.
pub proof fn lemma_rebuild_order_ascending(found: Seq<TableDependency>)
    ensures
        ascending(rebuild_order(found)),
        rebuild_order(found).len() == found.len(),
    decreases found.len(),
{
    if found.len() > 0 {
        lemma_rebuild_order_ascending(found.drop_last());
        lemma_placed(rebuild_order(found.drop_last()), found.last(), i32::MAX as int);
    }
}

/// `path` ends at a table that it has passed before.
pub open spec fn comes_back(path: Seq<i64>) -> bool {
    path.len() >= 2 && path.drop_last().contains(path.last())
}

/// A chain of tables that refer to each other without passing a table twice
/// is no longer than there are references, plus one.
proof fn lemma_key_path_is_short(edges: Seq<(i64, i64)>, path: Seq<i64>)
    requires
        is_key_path(edges, path),
        path.no_duplicates(),
        path.len() >= 1,
    ensures
        path.len() <= edges.len() + 1,
{
    let idx = Seq::new(
        (path.len() - 1) as nat,
        |k: int| choose|i: int| 0 <= i < edges.len() && #[trigger] edges[i] == (path[k], path[k + 1]),
    );
    assert forall|k: int| 0 <= k < idx.len() implies 0 <= #[trigger] idx[k] < edges.len()
        && edges[idx[k]] == (path[k], path[k + 1]) by {
        assert(step_at(edges, path, k));
    }
    assert forall|a: int, b: int| 0 <= a < idx.len() && 0 <= b < idx.len() && a != b implies idx[a]
        != idx[b] by {
        assert(edges[idx[a]].1 == path[a + 1]);
        assert(edges[idx[b]].1 == path[b + 1]);
        assert(path[a + 1] != path[b + 1]);
    }
    idx.unique_seq_to_set();
    lemma_int_range(0, edges.len() as int);
    assert forall|a: int| idx.to_set().contains(a) implies set_int_range(
        0,
        edges.len() as int,
    ).contains(a) by {
        let k = choose|k: int| 0 <= k < idx.len() && idx[k] == a;
        assert(0 <= idx[k] < edges.len());
    }
    lemma_len_subset(idx.to_set(), set_int_range(0, edges.len() as int));
}

/// A chain that is followed by one more reference is a chain.
proof fn lemma_key_path_grows(edges: Seq<(i64, i64)>, path: Seq<i64>, i: int)
    requires
        is_key_path(edges, path),
        path.len() >= 1,
        0 <= i < edges.len(),
        edges[i].0 == path.last(),
        edges[i].1 != path.last(),
    ensures
        is_key_path(edges, path.push(edges[i].1)),
{
    let longer = path.push(edges[i].1);
    assert forall|k: int| 0 <= k < longer.len() - 1 implies #[trigger] step_at(edges, longer, k) by {
        if k < path.len() - 1 {
            assert(step_at(edges, path, k));
        } else {
            assert(edges[i] == (longer[k], longer[k + 1]));
        }
    }
}

/// A walk that fails has met a chain of references that comes back: one
/// that starts where `chain` starts and goes on from `t`.
proof fn lemma_failed_walk(
    edges: Seq<(i64, i64)>,
    t: i64,
    chain: Seq<i64>,
    fuel: nat,
    upto: nat,
) -> (path: Seq<i64>)
    requires
        fuel > 0 ==> walk_edges(edges, t, chain.push(t), fuel, upto) is None,
        upto <= edges.len(),
        is_key_path(edges, chain.push(t)),
        chain.push(t).no_duplicates(),
        fuel + chain.len() >= edges.len() + 1,
    ensures
        is_key_path(edges, path),
        comes_back(path),
        path[0] == chain.push(t)[0],
    decreases fuel, upto,
{
    let here = chain.push(t);
    if fuel == 0 {
        lemma_key_path_is_short(edges, here);
        assert(false);
        here
    } else if walk_edges(edges, t, here, fuel, (upto - 1) as nat) is None {
        lemma_failed_walk(edges, t, chain, fuel, (upto - 1) as nat)
    } else {
        let e = edges[upto - 1];
        assert(e.0 == t && e.1 != t);
        assert(here.last() == t);
        lemma_key_path_grows(edges, here, upto - 1);
        let longer = here.push(e.1);
        assert(longer[0] == here[0]);
        if here.contains(e.1) {
            assert(longer.drop_last() =~= here);
            longer
        } else {
            assert(longer.no_duplicates());
            assert(walk(edges, e.1, here, (fuel - 1) as nat) is None);
            lemma_failed_walk(edges, e.1, here, (fuel - 1) as nat, edges.len())
        }
    }
}

/// The walk from a table fails only where primary keys reference each other
/// in a circle: some chain of references that starts at the table comes back
/// to a table that it has passed. With [`lemma_walk_meets_no_cycle`]: the
/// rebuild order is found if and only if there is no such chain.
pub proof fn lemma_walk_fails_only_on_cycle(edges: Seq<(i64, i64)>, t: i64)
    requires
        edges.len() < usize::MAX,
        walk(edges, t, Seq::empty(), walk_depth(edges.len())) is None,
    ensures
        exists|path: Seq<i64>|
            path.len() >= 1 && path[0] == t && is_key_path(edges, path) && comes_back(path),
{
    let start = Seq::<i64>::empty().push(t);
    assert forall|k: int| 0 <= k < start.len() - 1 implies #[trigger] step_at(edges, start, k) by {}
    let path = lemma_failed_walk(edges, t, Seq::empty(), edges.len() + 1, edges.len());
    assert(path.len() >= 1 && path[0] == t && is_key_path(edges, path) && comes_back(path));
}

/// `found` starts with table `t` at depth 0, lists every other table at
/// depth 1 or more, and lists no table twice.
pub open spec fn rooted(found: Seq<TableDependency>, t: i64) -> bool {
    &&& found.len() >= 1
    &&& found[0] == (TableDependency { dependency_depth: 0, table_oid: t })
    &&& forall|i: int|
        1 <= i < found.len() ==> (#[trigger] found[i]).dependency_depth >= 1 && found[i].table_oid
            != t
    &&& forall|i: int, j: int|
        0 <= i < j < found.len() ==> (#[trigger] found[i]).table_oid != (#[trigger] found[j]).table_oid
}

/// `found` lists no table of `chain`.
pub open spec fn outside(found: Seq<TableDependency>, chain: Seq<i64>) -> bool {
    forall|i: int| 0 <= i < found.len() ==> !chain.contains((#[trigger] found[i]).table_oid)
}

proof fn lemma_raised(found: Seq<TableDependency>, x: i64, d: i32)
    ensures
        found.len() <= raised(found, x, d).len() <= found.len() + 1,
        forall|i: int|
            0 <= i < found.len() ==> (#[trigger] raised(found, x, d)[i]).table_oid
                == found[i].table_oid && (raised(found, x, d)[i].dependency_depth
                == found[i].dependency_depth || raised(found, x, d)[i].dependency_depth == d),
        raised(found, x, d).len() == found.len() + 1 ==> raised(found, x, d).last() == (
        TableDependency { dependency_depth: d, table_oid: x }) && forall|i: int|
            0 <= i < found.len() ==> (#[trigger] found[i]).table_oid != x,
    decreases found.len(),
{
    if found.len() > 0 && found[0].table_oid != x {
        let rest = found.skip(1);
        lemma_raised(rest, x, d);
        let r = raised(found, x, d);
        assert(r == seq![found[0]] + raised(rest, x, d));
        assert forall|i: int| 0 <= i < found.len() implies (#[trigger] r[i]).table_oid
            == found[i].table_oid && (r[i].dependency_depth == found[i].dependency_depth
            || r[i].dependency_depth == d) by {
            if i > 0 {
                assert(r[i] == raised(rest, x, d)[i - 1]);
                assert(rest[i - 1] == found[i]);
            }
        }
        if r.len() == found.len() + 1 {
            assert(r.last() == raised(rest, x, d).last());
            assert forall|i: int| 0 <= i < found.len() implies (#[trigger] found[i]).table_oid
                != x by {
                if i > 0 {
                    assert(rest[i - 1] == found[i]);
                }
            }
        }
    }
}

proof fn lemma_raised_keeps(found: Seq<TableDependency>, t: i64, x: i64, d: i32, chain: Seq<i64>)
    requires
        rooted(found, t),
        outside(found, chain),
        x != t,
        d >= 1,
        !chain.contains(x),
    ensures
        rooted(raised(found, x, d), t),
        outside(raised(found, x, d), chain),
{
    lemma_raised(found, x, d);
    let r = raised(found, x, d);
    assert(r[0].table_oid == found[0].table_oid);
    assert forall|i: int, j: int| 0 <= i < j < r.len() implies (#[trigger] r[i]).table_oid != (
    #[trigger] r[j]).table_oid by {
        if j < found.len() {
            assert(found[i].table_oid != found[j].table_oid);
        } else {
            assert(found[i].table_oid != x);
        }
    }
    assert forall|i: int| 1 <= i < r.len() implies (#[trigger] r[i]).dependency_depth >= 1
        && r[i].table_oid != t by {
        if i < found.len() {
            assert(found[i].dependency_depth >= 1);
        }
    }
    assert forall|i: int| 0 <= i < r.len() implies !chain.contains((#[trigger] r[i]).table_oid) by {
        if i < found.len() {
            assert(!chain.contains(found[i].table_oid));
        }
    }
}

proof fn lemma_merged_keeps(
    found: Seq<TableDependency>,
    sub: Seq<TableDependency>,
    t: i64,
    chain: Seq<i64>,
)
    requires
        rooted(found, t),
        outside(found, chain),
        forall|k: int|
            0 <= k < sub.len() ==> (#[trigger] sub[k]).table_oid != t && !chain.contains(
                sub[k].table_oid,
            ) && sub[k].dependency_depth >= 0,
    ensures
        rooted(merged(found, sub), t),
        outside(merged(found, sub), chain),
    decreases sub.len(),
{
    if sub.len() > 0 {
        assert forall|k: int| 0 <= k < sub.drop_last().len() implies (
        #[trigger] sub.drop_last()[k]).table_oid != t && !chain.contains(
            sub.drop_last()[k].table_oid,
        ) && sub.drop_last()[k].dependency_depth >= 0 by {
            assert(sub.drop_last()[k] == sub[k]);
        }
        lemma_merged_keeps(found, sub.drop_last(), t, chain);
        let last = sub[sub.len() - 1];
        assert(last.table_oid != t && !chain.contains(last.table_oid) && last.dependency_depth >= 0);
        lemma_raised_keeps(
            merged(found, sub.drop_last()),
            t,
            last.table_oid,
            deeper(last.dependency_depth),
            chain,
        );
    }
}

proof fn lemma_walk_rooted(edges: Seq<(i64, i64)>, t: i64, chain: Seq<i64>, fuel: nat, upto: nat)
    requires
        fuel > 0,
        upto <= edges.len(),
        walk_edges(edges, t, chain.push(t), fuel, upto) is Some,
        !chain.contains(t),
    ensures
        rooted(walk_edges(edges, t, chain.push(t), fuel, upto)->Some_0, t),
        outside(walk_edges(edges, t, chain.push(t), fuel, upto)->Some_0, chain),
    decreases fuel, upto,
{
    let here = chain.push(t);
    if upto > 0 {
        lemma_walk_rooted(edges, t, chain, fuel, (upto - 1) as nat);
        let found = walk_edges(edges, t, here, fuel, (upto - 1) as nat)->Some_0;
        let e = edges[upto - 1];
        if e.0 == t && e.1 != t {
            assert(!here.contains(e.1));
            let sub = walk(edges, e.1, here, (fuel - 1) as nat)->Some_0;
            assert(fuel - 1 > 0);
            lemma_walk_rooted(edges, e.1, here, (fuel - 1) as nat, edges.len());
            assert forall|k: int| 0 <= k < sub.len() implies (#[trigger] sub[k]).table_oid != t
                && !chain.contains(sub[k].table_oid) && sub[k].dependency_depth >= 0 by {
                let x = sub[k].table_oid;
                assert(!here.contains(x));
                assert(here[chain.len() as int] == t);
                if chain.contains(x) {
                    let w = choose|w: int| 0 <= w < chain.len() && chain[w] == x;
                    assert(here[w] == x);
                }
                if k > 0 {
                    assert(sub[k].dependency_depth >= 1);
                }
            }
            lemma_merged_keeps(found, sub, t, chain);
        }
    } else {
        assert(walk_edges(edges, t, here, fuel, 0)->Some_0 =~= seq![
            TableDependency { dependency_depth: 0, table_oid: t },
        ]);
    }
}

proof fn lemma_placed_members(sorted: Seq<TableDependency>, e: TableDependency)
    ensures
        forall|x: TableDependency| #[trigger]
            placed(sorted, e).contains(x) <==> sorted.contains(x) || x == e,
        sorted.len() > 0 && sorted[0].dependency_depth <= e.dependency_depth ==> placed(sorted, e)[0]
            == sorted[0],
    decreases sorted.len(),
{
    let r = placed(sorted, e);
    if sorted.len() == 0 {
        assert(r[0] == e);
        assert forall|x: TableDependency| #[trigger] r.contains(x) <==> sorted.contains(x) || x
            == e by {
            if r.contains(x) {
                let w = choose|w: int| 0 <= w < r.len() && r[w] == x;
            }
        }
    } else if sorted.last().dependency_depth <= e.dependency_depth {
        assert forall|x: TableDependency| #[trigger] r.contains(x) <==> sorted.contains(x) || x
            == e by {
            if r.contains(x) {
                let w = choose|w: int| 0 <= w < r.len() && r[w] == x;
                if w < sorted.len() {
                    assert(sorted[w] == x);
                }
            }
            if sorted.contains(x) {
                let w = choose|w: int| 0 <= w < sorted.len() && sorted[w] == x;
                assert(r[w] == x);
            }
            if x == e {
                assert(r[sorted.len() as int] == e);
            }
        }
    } else {
        let front = sorted.drop_last();
        lemma_placed_members(front, e);
        let inner = placed(front, e);
        assert forall|x: TableDependency| #[trigger] r.contains(x) <==> sorted.contains(x) || x
            == e by {
            if r.contains(x) {
                let w = choose|w: int| 0 <= w < r.len() && r[w] == x;
                if w < inner.len() {
                    assert(inner.contains(x));
                    if front.contains(x) {
                        let v = choose|v: int| 0 <= v < front.len() && front[v] == x;
                        assert(sorted[v] == x);
                    }
                } else {
                    assert(sorted[sorted.len() - 1] == x);
                }
            }
            if sorted.contains(x) {
                let w = choose|w: int| 0 <= w < sorted.len() && sorted[w] == x;
                if w < front.len() {
                    assert(front[w] == x);
                    assert(inner.contains(x));
                    let v = choose|v: int| 0 <= v < inner.len() && inner[v] == x;
                    assert(r[v] == x);
                } else {
                    assert(r[inner.len() as int] == x);
                }
            }
            if x == e {
                assert(inner.contains(e));
                let v = choose|v: int| 0 <= v < inner.len() && inner[v] == e;
                assert(r[v] == e);
            }
        }
        if sorted[0].dependency_depth <= e.dependency_depth {
            assert(front.len() > 0);
            assert(front[0] == sorted[0]);
            assert(r[0] == inner[0]);
        }
    }
}

proof fn lemma_rebuild_order_members(found: Seq<TableDependency>)
    ensures
        forall|x: TableDependency| #[trigger]
            rebuild_order(found).contains(x) <==> found.contains(x),
        found.len() > 0 && (forall|i: int|
            0 <= i < found.len() ==> found[0].dependency_depth <= (
            #[trigger] found[i]).dependency_depth) ==> rebuild_order(found)[0] == found[0],
    decreases found.len(),
{
    if found.len() > 0 {
        let front = found.drop_last();
        lemma_rebuild_order_members(front);
        lemma_rebuild_order_ascending(front);
        lemma_placed_members(rebuild_order(front), found.last());
        let r = rebuild_order(found);
        assert forall|x: TableDependency| #[trigger] r.contains(x) <==> found.contains(x) by {
            if found.contains(x) {
                let w = choose|w: int| 0 <= w < found.len() && found[w] == x;
                if w < front.len() {
                    assert(front[w] == x);
                }
            }
            if front.contains(x) {
                let w = choose|w: int| 0 <= w < front.len() && front[w] == x;
                assert(found[w] == x);
            }
            if x == found.last() {
                assert(found[found.len() - 1] == x);
            }
        }
        if forall|i: int|
            0 <= i < found.len() ==> found[0].dependency_depth <= (
            #[trigger] found[i]).dependency_depth {
            if front.len() > 0 {
                assert forall|i: int| 0 <= i < front.len() implies front[0].dependency_depth <= (
                #[trigger] front[i]).dependency_depth by {
                    assert(front[i] == found[i]);
                }
                assert(front[0] == found[0]);
                assert(found[0].dependency_depth <= found[found.len() - 1].dependency_depth);
            }
        }
    }
}

/// Where the walk from table `t` finds its dependents, the rebuild order
/// starts with `t` itself, at depth 0; every other table stands at depth 1
/// or more and no table was found twice; and the order holds what was found,
/// no more and no less.
pub proof fn lemma_rebuild_starts_at_table(edges: Seq<(i64, i64)>, t: i64, fuel: nat)
    requires
        walk(edges, t, Seq::empty(), fuel) is Some,
    ensures
        rooted(walk(edges, t, Seq::empty(), fuel)->Some_0, t),
        rebuild_order(walk(edges, t, Seq::empty(), fuel)->Some_0)[0] == (
        TableDependency { dependency_depth: 0, table_oid: t }),
        forall|x: TableDependency| #[trigger]
            rebuild_order(walk(edges, t, Seq::empty(), fuel)->Some_0).contains(x) <==> walk(
                edges,
                t,
                Seq::empty(),
                fuel,
            )->Some_0.contains(x),
{
    lemma_walk_rooted(edges, t, Seq::empty(), fuel, edges.len());
    let found = walk(edges, t, Seq::empty(), fuel)->Some_0;
    lemma_rebuild_order_members(found);
    assert forall|i: int| 0 <= i < found.len() implies found[0].dependency_depth <= (
    #[trigger] found[i]).dependency_depth by {
        if i > 0 {
            assert(found[i].dependency_depth >= 1);
        }
    }
}

/// `found` lists table `x` at depth `d` or more.
pub open spec fn lists_at_least(found: Seq<TableDependency>, x: i64, d: int) -> bool {
    exists|w: int|
        0 <= w < found.len() && (#[trigger] found[w]).table_oid == x && found[w].dependency_depth >= d
}

/// `found` lists no table deeper than `bound`.
pub open spec fn bounded(found: Seq<TableDependency>, bound: int) -> bool {
    forall|i: int| 0 <= i < found.len() ==> (#[trigger] found[i]).dependency_depth <= bound
}

/// Every table that refers, in its primary key, to a table of `found` is
/// listed deeper than that table; for table `t` itself this is asked of the
/// first `upto` references only.
pub open spec fn follows(
    found: Seq<TableDependency>,
    edges: Seq<(i64, i64)>,
    t: i64,
    upto: int,
) -> bool {
    forall|i: int, e: int|
        0 <= i < found.len() && 0 <= e < edges.len() && (#[trigger] edges[e]).0 == (
        #[trigger] found[i]).table_oid && edges[e].1 != edges[e].0 && (found[i].table_oid != t || e
            < upto) ==> lists_at_least(found, edges[e].1, found[i].dependency_depth + 1)
}

proof fn lemma_raised_depths(found: Seq<TableDependency>, x: i64, d: i32)
    ensures
        forall|i: int|
            0 <= i < found.len() ==> (#[trigger] raised(found, x, d)[i]).dependency_depth
                >= found[i].dependency_depth && (raised(found, x, d)[i].dependency_depth
                == found[i].dependency_depth || (found[i].table_oid == x && raised(
                found,
                x,
                d,
            )[i].dependency_depth == d)),
        lists_at_least(raised(found, x, d), x, d as int),
    decreases found.len(),
{
    let r = raised(found, x, d);
    if found.len() == 0 {
        assert(r[0].table_oid == x);
    } else if found[0].table_oid == x {
        assert(r[0].table_oid == x && r[0].dependency_depth >= d);
        assert forall|i: int| 0 <= i < found.len() implies (#[trigger] r[i]).dependency_depth
            >= found[i].dependency_depth && (r[i].dependency_depth == found[i].dependency_depth || (
        found[i].table_oid == x && r[i].dependency_depth == d)) by {
            if i > 0 {
                assert(r[i] == found.skip(1)[i - 1]);
            }
        }
    } else {
        let rest = found.skip(1);
        lemma_raised(rest, x, d);
        lemma_raised_depths(rest, x, d);
        let inner = raised(rest, x, d);
        assert(r == seq![found[0]] + inner);
        let w = choose|w: int|
            0 <= w < inner.len() && (#[trigger] inner[w]).table_oid == x && inner[w].dependency_depth
                >= d;
        assert(r[w + 1] == inner[w]);
        assert forall|i: int| 0 <= i < found.len() implies (#[trigger] r[i]).dependency_depth
            >= found[i].dependency_depth && (r[i].dependency_depth == found[i].dependency_depth || (
        found[i].table_oid == x && r[i].dependency_depth == d)) by {
            if i > 0 {
                assert(r[i] == inner[i - 1]);
                assert(rest[i - 1] == found[i]);
            }
        }
    }
}

/// What was found stays listed when more is merged in, no shallower than it
/// was; what is merged in is listed one level below its depth, or deeper;
/// and every depth in the result comes from one of the two.
proof fn lemma_merged_depths(found: Seq<TableDependency>, sub: Seq<TableDependency>)
    requires
        bounded(sub, i32::MAX - 1),
    ensures
        merged(found, sub).len() >= found.len(),
        forall|i: int|
            0 <= i < found.len() ==> (#[trigger] merged(found, sub)[i]).table_oid
                == found[i].table_oid && merged(found, sub)[i].dependency_depth
                >= found[i].dependency_depth,
        forall|k: int|
            0 <= k < sub.len() ==> lists_at_least(
                merged(found, sub),
                (#[trigger] sub[k]).table_oid,
                sub[k].dependency_depth + 1,
            ),
        forall|w: int|
            0 <= w < merged(found, sub).len() ==> (w < found.len() && (#[trigger] merged(
                found,
                sub,
            )[w]).dependency_depth == found[w].dependency_depth) || lists_exactly(
                sub,
                merged(found, sub)[w].table_oid,
                merged(found, sub)[w].dependency_depth - 1,
            ),
    decreases sub.len(),
{
    if sub.len() > 0 {
        let front = sub.drop_last();
        let last = sub[sub.len() - 1];
        assert forall|i: int| 0 <= i < front.len() implies (#[trigger] front[i]).dependency_depth
            <= i32::MAX - 1 by {
            assert(front[i] == sub[i]);
        }
        lemma_merged_depths(found, front);
        let before = merged(found, front);
        let d = deeper(last.dependency_depth);
        assert(d == last.dependency_depth + 1);
        lemma_raised(before, last.table_oid, d);
        lemma_raised_depths(before, last.table_oid, d);
        let m = merged(found, sub);
        assert(m == raised(before, last.table_oid, d));
        assert forall|k: int| 0 <= k < sub.len() implies lists_at_least(
            m,
            (#[trigger] sub[k]).table_oid,
            sub[k].dependency_depth + 1,
        ) by {
            if k < front.len() {
                assert(front[k] == sub[k]);
                let w = choose|w: int|
                    0 <= w < before.len() && (#[trigger] before[w]).table_oid == front[k].table_oid
                        && before[w].dependency_depth >= front[k].dependency_depth + 1;
                assert(m[w].table_oid == before[w].table_oid && m[w].dependency_depth
                    >= before[w].dependency_depth);
            }
        }
        assert forall|w: int| 0 <= w < m.len() implies (w < found.len() && (
        #[trigger] m[w]).dependency_depth == found[w].dependency_depth) || lists_exactly(
            sub,
            m[w].table_oid,
            m[w].dependency_depth - 1,
        ) by {
            if w < before.len() {
                if m[w].dependency_depth == before[w].dependency_depth {
                    if !(w < found.len() && before[w].dependency_depth
                        == found[w].dependency_depth) {
                        let k = choose|k: int|
                            0 <= k < front.len() && (#[trigger] front[k]).table_oid
                                == before[w].table_oid && front[k].dependency_depth
                                == before[w].dependency_depth - 1;
                        assert(sub[k] == front[k]);
                    }
                } else {
                    assert(sub[sub.len() - 1].table_oid == m[w].table_oid);
                }
            } else {
                assert(m[w] == m.last());
                assert(sub[sub.len() - 1].table_oid == m[w].table_oid);
            }
        }
    }
}

/// `found` lists table `x` at depth `d`.
pub open spec fn lists_exactly(found: Seq<TableDependency>, x: i64, d: int) -> bool {
    exists|k: int|
        0 <= k < found.len() && (#[trigger] found[k]).table_oid == x && found[k].dependency_depth == d
}

proof fn lemma_walk_follows(edges: Seq<(i64, i64)>, t: i64, chain: Seq<i64>, fuel: nat, upto: nat)
    requires
        0 < fuel <= i32::MAX,
        upto <= edges.len(),
        walk_edges(edges, t, chain.push(t), fuel, upto) is Some,
        !chain.contains(t),
    ensures
        follows(walk_edges(edges, t, chain.push(t), fuel, upto)->Some_0, edges, t, upto as int),
        bounded(walk_edges(edges, t, chain.push(t), fuel, upto)->Some_0, fuel - 1),
    decreases fuel, upto,
{
    let here = chain.push(t);
    let now = walk_edges(edges, t, here, fuel, upto)->Some_0;
    lemma_walk_rooted(edges, t, chain, fuel, upto);
    if upto > 0 {
        lemma_walk_follows(edges, t, chain, fuel, (upto - 1) as nat);
        lemma_walk_rooted(edges, t, chain, fuel, (upto - 1) as nat);
        let found = walk_edges(edges, t, here, fuel, (upto - 1) as nat)->Some_0;
        let e = edges[upto - 1];
        if e.0 == t && e.1 != t {
            assert(!here.contains(e.1));
            let sub = walk(edges, e.1, here, (fuel - 1) as nat)->Some_0;
            assert(fuel - 1 > 0);
            lemma_walk_follows(edges, e.1, here, (fuel - 1) as nat, edges.len());
            lemma_walk_rooted(edges, e.1, here, (fuel - 1) as nat, edges.len());
            lemma_merged_depths(found, sub);
            assert(now == merged(found, sub));
            assert forall|i: int| 0 <= i < now.len() implies (#[trigger] now[i]).dependency_depth
                <= fuel - 1 by {
                if !(i < found.len() && now[i].dependency_depth == found[i].dependency_depth) {
                    let k = choose|k: int|
                        0 <= k < sub.len() && (#[trigger] sub[k]).table_oid == now[i].table_oid
                            && sub[k].dependency_depth == now[i].dependency_depth - 1;
                }
            }
            assert forall|i: int, x: int|
                0 <= i < now.len() && 0 <= x < edges.len() && (#[trigger] edges[x]).0 == (
                #[trigger] now[i]).table_oid && edges[x].1 != edges[x].0 && (now[i].table_oid != t
                    || x < upto) implies lists_at_least(
                now,
                edges[x].1,
                now[i].dependency_depth + 1,
            ) by {
                let v = edges[x].1;
                if i < found.len() && now[i].dependency_depth == found[i].dependency_depth && (
                found[i].table_oid != t || x < upto - 1) {
                    assert(now[i].table_oid == found[i].table_oid);
                    let w = choose|w: int|
                        0 <= w < found.len() && (#[trigger] found[w]).table_oid == v
                            && found[w].dependency_depth >= found[i].dependency_depth + 1;
                    assert(now[w].table_oid == found[w].table_oid && now[w].dependency_depth
                        >= found[w].dependency_depth);
                } else if now[i].table_oid == t {
                    assert(i == 0) by {
                        if i > 0 {
                            assert(now[i].table_oid != t);
                        }
                    }
                    assert(now[0].dependency_depth == 0);
                    assert(found[0].dependency_depth == 0);
                    assert(x == upto - 1);
                    assert(sub[0].table_oid == v && sub[0].dependency_depth == 0);
                } else {
                    assert(!(i < found.len() && now[i].dependency_depth
                        == found[i].dependency_depth)) by {
                        if i < found.len() {
                            assert(now[i].table_oid == found[i].table_oid);
                        }
                    }
                    let k = choose|k: int|
                        0 <= k < sub.len() && (#[trigger] sub[k]).table_oid == now[i].table_oid
                            && sub[k].dependency_depth == now[i].dependency_depth - 1;
                    assert(edges[x].0 == sub[k].table_oid);
                    let k2 = choose|k2: int|
                        0 <= k2 < sub.len() && (#[trigger] sub[k2]).table_oid == v
                            && sub[k2].dependency_depth >= sub[k].dependency_depth + 1;
                    assert(lists_at_least(now, sub[k2].table_oid, sub[k2].dependency_depth + 1));
                    let w = choose|w: int|
                        0 <= w < now.len() && (#[trigger] now[w]).table_oid == sub[k2].table_oid
                            && now[w].dependency_depth >= sub[k2].dependency_depth + 1;
                    assert(now[w].table_oid == v && now[w].dependency_depth
                        >= now[i].dependency_depth + 1);
                }
            }
        } else {
            assert(now == found);
        }
    } else {
        assert(now =~= seq![TableDependency { dependency_depth: 0, table_oid: t }]);
    }
}

/// Where the walk from table `t` finds its dependents, every table that
/// refers, in its primary key, to a table that was found was found too, and
/// stands deeper: its view is rebuilt after the view that it shows.
pub proof fn lemma_dependents_stand_deeper(edges: Seq<(i64, i64)>, t: i64, fuel: nat, i: int, e: int)
    requires
        fuel <= i32::MAX,
        walk(edges, t, Seq::empty(), fuel) is Some,
        0 <= i < walk(edges, t, Seq::empty(), fuel)->Some_0.len(),
        0 <= e < edges.len(),
        edges[e].0 == walk(edges, t, Seq::empty(), fuel)->Some_0[i].table_oid,
        edges[e].1 != edges[e].0,
    ensures
        ({
            let found = walk(edges, t, Seq::empty(), fuel)->Some_0;
            let order = rebuild_order(found);
            exists|a: int, b: int|
                0 <= a < b < order.len() && #[trigger] order[a] == found[i] && (
                #[trigger] order[b]).table_oid == edges[e].1 && order[b].dependency_depth
                    > found[i].dependency_depth
        }),
{
    let found = walk(edges, t, Seq::empty(), fuel)->Some_0;
    let order = rebuild_order(found);
    lemma_walk_follows(edges, t, Seq::empty(), fuel, edges.len());
    assert(lists_at_least(found, edges[e].1, found[i].dependency_depth + 1));
    let j = choose|j: int|
        0 <= j < found.len() && (#[trigger] found[j]).table_oid == edges[e].1
            && found[j].dependency_depth >= found[i].dependency_depth + 1;
    lemma_rebuild_order_members(found);
    lemma_rebuild_order_ascending(found);
    assert(found.contains(found[i]));
    assert(found.contains(found[j]));
    assert(order.contains(found[i]));
    assert(order.contains(found[j]));
    let a = choose|a: int| 0 <= a < order.len() && order[a] == found[i];
    let b = choose|b: int| 0 <= b < order.len() && order[b] == found[j];
    if b <= a {
        if b < a {
            assert(order[b].dependency_depth <= order[a].dependency_depth);
        }
        assert(false);
    }
    assert(0 <= a < b < order.len() && order[a] == found[i] && order[b].table_oid == edges[e].1
        && order[b].dependency_depth > found[i].dependency_depth);
}

/// No chain of primary-key references comes back to a table that it has
/// passed: no tables reference each other in a circle.
pub open spec fn acyclic(edges: Seq<(i64, i64)>) -> bool {
    forall|path: Seq<i64>| path.len() >= 1 && #[trigger] is_key_path(edges, path) ==> !comes_back(path)
}

/// The references of `after` are those of `before` and references held by
/// table `t`: what a change of the columns of `t` can add.
pub open spec fn changes_only(before: Seq<(i64, i64)>, after: Seq<(i64, i64)>, t: i64) -> bool {
    forall|i: int|
        0 <= i < after.len() ==> (#[trigger] after[i]).1 == t || exists|j: int|
            0 <= j < before.len() && #[trigger] before[j] == after[i]
}

/// A schema without a circle stays without one over every change of the
/// columns of a table after which the walk from that table finds its
/// dependents: a change that would close a circle is the one that the walk
/// refuses.
pub proof fn lemma_schema_stays_acyclic(
    before: Seq<(i64, i64)>,
    after: Seq<(i64, i64)>,
    t: i64,
    fuel: nat,
)
    requires
        acyclic(before),
        changes_only(before, after, t),
        walk(after, t, Seq::empty(), fuel) is Some,
    ensures
        acyclic(after),
{
    assert forall|path: Seq<i64>| path.len() >= 1 && #[trigger] is_key_path(after, path) implies !comes_back(
        path,
    ) by {
        if comes_back(path) {
            let n = path.len() - 1;
            let m = choose|m: int|
                0 <= m < path.drop_last().len() && path.drop_last()[m] == path.last();
            assert(path.drop_last()[m] == path[m]);
            let c = path.subrange(m, n + 1);
            assert(c[0] == c.last());
            assert forall|k: int| 0 <= k < c.len() - 1 implies #[trigger] step_at(after, c, k) by {
                assert(step_at(after, path, m + k));
            }
            if forall|k: int| 0 <= k < c.len() - 1 ==> #[trigger] step_at(before, c, k) {
                assert(is_key_path(before, c));
                assert(c.drop_last()[0] == c.last());
                assert(comes_back(c));
                assert(false);
            } else {
                let k = choose|k: int| 0 <= k < c.len() - 1 && !step_at(before, c, k);
                assert(step_at(after, c, k));
                let i = choose|i: int|
                    0 <= i < after.len() && #[trigger] after[i] == (c[k], c[k + 1]);
                if after[i].1 != t {
                    let j = choose|j: int| 0 <= j < before.len() && #[trigger] before[j] == after[i];
                    assert(key_step(before, c[k], c[k + 1]));
                    assert(false);
                }
                assert(c[k + 1] == t);
                let head = c.subrange(k + 1, c.len() as int);
                let tail = c.subrange(1, k + 2);
                let r = head + tail;
                assert(r[0] == t);
                assert(r[r.len() - 1] == tail[k]);
                assert(r[r.len() - 1] == t);
                assert forall|q: int| 0 <= q < r.len() - 1 implies #[trigger] step_at(after, r, q) by {
                    if q < head.len() - 1 {
                        assert(r[q] == c[k + 1 + q] && r[q + 1] == c[k + 2 + q]);
                        assert(step_at(after, c, k + 1 + q));
                    } else if q == head.len() - 1 {
                        assert(r[q] == c[c.len() - 1] && r[q + 1] == c[1]);
                        assert(step_at(after, c, 0));
                    } else {
                        let w = q - head.len();
                        assert(r[q] == c[1 + w] && r[q + 1] == c[2 + w]);
                        assert(step_at(after, c, 1 + w));
                    }
                }
                lemma_walk_meets_no_cycle(after, t, Seq::empty(), fuel, r);
                assert(r[0] != r[r.len() - 1]);
                assert(false);
            }
        }
    }
}

} // verus!
