//! Memory endpoints: request limits, kind filters, profile merging and the
//! nodes of knowledge-graph views.
use vstd::prelude::*;
use vstd::string::*;

use crate::error::{AivyxError, ServerError};
use crate::text::{str_eq, to_chars};

verus! {

broadcast use vstd::seq::group_seq_axioms;

/// Query parameters for `GET /memory`.
#[derive(Debug, Clone, PartialEq, Eq)]
pub struct ListMemoriesQuery {
    /// Keep only memories of this kind (any ASCII case).
    pub kind: Option<String>,
}

/// Request body for `POST /memory/search`.
#[derive(Debug, Clone, PartialEq, Eq)]
pub struct SearchRequest {
    /// Search text.
    pub query: String,
    /// Number of results (default 5, at most 100).
    pub top_k: Option<usize>,
}

/// A memory in a response.
#[derive(Debug, Clone, PartialEq, Eq)]
pub struct MemoryResult {
    /// Memory ID.
    pub id: String,
    /// Content.
    pub content: String,
    /// Kind, as its variant name.
    pub kind: String,
    /// Tags.
    pub tags: Vec<String>,
}

/// Response body for `POST /memory/search`.
#[derive(Debug, Clone, PartialEq, Eq)]
pub struct SearchResponse {
    /// The memories found, best first.
    pub results: Vec<MemoryResult>,
}

/// Query parameters for `GET /memory/triples`.
#[derive(Debug, Clone, PartialEq, Eq)]
pub struct TriplesQuery {
    /// Keep triples with this subject.
    pub subject: Option<String>,
    /// Keep triples with this predicate.
    pub predicate: Option<String>,
}

/// A node of a knowledge-graph view.
#[derive(Debug, Clone, PartialEq, Eq)]
pub struct GraphNode {
    /// Entity name.
    pub name: String,
}

/// Query parameters for `GET /memory/graph/path`.
#[derive(Debug, Clone, PartialEq, Eq)]
pub struct PathQuery {
    /// Start entity.
    pub from: String,
    /// End entity.
    pub to: String,
    /// Longest path searched (default 5, at most 10).
    pub max_depth: Option<usize>,
}

/// Number of search results: 5 by default, at most 100.
pub fn search_top_k(top_k: Option<usize>) -> (k: usize)
    ensures
        k == match top_k {
            Some(n) => if n < 100 {
                n
            } else {
                100
            },
            None => 5,
        },
{
    match top_k {
        Some(n) => if n < 100 {
            n
        } else {
            100
        },
        None => 5,
    }
}

/// Longest path searched: 5 by default, at most 10.
pub fn path_max_depth(max_depth: Option<usize>) -> (d: usize)
    ensures
        d == match max_depth {
            Some(n) => if n < 10 {
                n
            } else {
                10
            },
            None => 5,
        },
{
    match max_depth {
        Some(n) => if n < 10 {
            n
        } else {
            10
        },
        None => 5,
    }
}

/// The code of a character's ASCII lower-case form.
pub open spec fn ascii_lower(c: char) -> u32 {
    if 'A' <= c <= 'Z' {
        ((c as u32) + 32) as u32
    } else {
        c as u32
    }
}

/// Equality up to ASCII case, as `str::eq_ignore_ascii_case`.
pub open spec fn eq_ignore_ascii_case_spec(a: Seq<char>, b: Seq<char>) -> bool {
    a.len() == b.len() && forall|i: int| 0 <= i < a.len() ==> ascii_lower(#[trigger] a[i]) == ascii_lower(b[i])
}

fn lower_char(c: char) -> (r: u32)
    ensures
        r == ascii_lower(c),
{
    if 'A' <= c && c <= 'Z' {
        c as u32 + 32
    } else {
        c as u32
    }
}

/// Whether two texts are equal up to ASCII case.
pub fn eq_ignore_ascii_case(a: &str, b: &str) -> (r: bool)
    ensures
        r == eq_ignore_ascii_case_spec(a@, b@),
{
    let x = to_chars(a);
    let y = to_chars(b);
    if x.len() != y.len() {
        return false;
    }
    let mut i: usize = 0;
    while i < x.len()
        invariant
            x@ == a@,
            y@ == b@,
            x@.len() == y@.len(),
            i <= x@.len(),
            forall|j: int| 0 <= j < i ==> ascii_lower(#[trigger] x@[j]) == ascii_lower(y@[j]),
        decreases x@.len() - i,
    {
        if lower_char(x[i]) != lower_char(y[i]) {
            return false;
        }
        i += 1;
    }
    true
}

/// Whether a memory of `kind` passes the kind filter.
pub fn kind_passes(kind: &str, filter: &Option<String>) -> (b: bool)
    ensures
        b == match filter {
            Some(f) => eq_ignore_ascii_case_spec(kind@, f@),
            None => true,
        },
{
    match filter {
        Some(f) => eq_ignore_ascii_case(kind, f.as_str()),
        None => true,
    }
}

/// Whether `v` holds an entry equal to `item` (up to ASCII case when
/// `fold_case`).
pub open spec fn holds(v: Seq<Seq<char>>, item: Seq<char>, fold_case: bool) -> bool {
    exists|i: int|
        0 <= i < v.len() && (if fold_case {
            eq_ignore_ascii_case_spec(#[trigger] v[i], item)
        } else {
            v[i] == item
        })
}

/// The list after the items are merged in, in order: an item already held
/// (up to ASCII case when `fold_case`) is skipped.
pub open spec fn merged(v: Seq<Seq<char>>, items: Seq<Seq<char>>, fold_case: bool) -> Seq<Seq<char>>
    decreases items.len(),
{
    if items.len() == 0 {
        v
    } else {
        let m = merged(v, items.drop_last(), fold_case);
        if holds(m, items.last(), fold_case) {
            m
        } else {
            m.push(items.last())
        }
    }
}

/// The characters of each string.
pub open spec fn views(v: Seq<String>) -> Seq<Seq<char>> {
    v.map_values(|s: String| s@)
}

/// Merges profile list items into `list`: the tech stack, style
/// preferences and schedule hints fold ASCII case, the notes do not.
pub fn merge_items(list: &mut Vec<String>, items: &Vec<String>, fold_case: bool)
    ensures
        views(final(list)@) == merged(views(old(list)@), views(items@), fold_case),
{
    let mut k: usize = 0;
    while k < items.len()
        invariant
            k <= items@.len(),
            views(list@) == merged(views(old(list)@), views(items@.take(k as int)), fold_case),
        decreases items@.len() - k,
    {
        assert(views(items@.take(k as int + 1)).drop_last() =~= views(items@.take(k as int)));
        assert(views(items@.take(k as int + 1)).last() == items@[k as int]@);
        let item = items[k].as_str();
        let mut found = false;
        let mut i: usize = 0;
        while i < list.len()
            invariant
                i <= list@.len(),
                views(list@) == merged(views(old(list)@), views(items@.take(k as int)), fold_case),
                found == holds(views(list@.take(i as int)), item@, fold_case),
            decreases list@.len() - i,
        {
            let same = if fold_case {
                eq_ignore_ascii_case(list[i].as_str(), item)
            } else {
                str_eq(list[i].as_str(), item)
            };
            proof {
                let a = views(list@.take(i as int));
                let b = views(list@.take(i as int + 1));
                assert(b == a.push(list@[i as int]@));
                if holds(b, item@, fold_case) && !holds(a, item@, fold_case) {
                    let j = choose|j: int|
                        0 <= j < b.len() && (if fold_case {
                            eq_ignore_ascii_case_spec(#[trigger] b[j], item@)
                        } else {
                            b[j] == item@
                        });
                    if j < a.len() {
                        assert(b[j] == a[j]);
                    }
                }
                if holds(a, item@, fold_case) {
                    let j = choose|j: int|
                        0 <= j < a.len() && (if fold_case {
                            eq_ignore_ascii_case_spec(#[trigger] a[j], item@)
                        } else {
                            a[j] == item@
                        });
                    assert(b[j] == a[j]);
                    assert(holds(b, item@, fold_case));
                }
                if same {
                    assert(b[i as int] == list@[i as int]@);
                    assert(holds(b, item@, fold_case));
                }
            }
            found = found || same;
            i += 1;
        }
        assert(list@.take(list@.len() as int) =~= list@);
        if !found {
            let ghost before = list@;
            list.push(item.to_owned());
            assert(views(list@) =~= views(before).push(item@));
        }
        k += 1;
    }
    assert(items@.take(items@.len() as int) =~= items@);
}

proof fn lemma_holds_push(m: Seq<Seq<char>>, x: Seq<char>, y: Seq<char>, fold_case: bool)
    requires
        holds(m, x, fold_case),
    ensures
        holds(m.push(y), x, fold_case),
{
    let j = choose|j: int|
        0 <= j < m.len() && (if fold_case {
            eq_ignore_ascii_case_spec(#[trigger] m[j], x)
        } else {
            m[j] == x
        });
    assert(m.push(y)[j] == m[j]);
}

proof fn lemma_holds_self(x: Seq<char>, fold_case: bool)
    ensures
        eq_ignore_ascii_case_spec(x, x),
{
}

/// Law: merging items into a profile list keeps the list as it was, in
/// front, and afterwards every merged item is held by the list.
pub proof fn lemma_merge_keeps_and_covers(v: Seq<Seq<char>>, items: Seq<Seq<char>>, fold_case: bool)
    ensures
        merged(v, items, fold_case).len() >= v.len(),
        merged(v, items, fold_case).take(v.len() as int) == v,
        forall|k: int| 0 <= k < items.len() ==> holds(merged(v, items, fold_case), #[trigger] items[k], fold_case),
    decreases items.len(),
{
    if items.len() > 0 {
        let d = items.drop_last();
        lemma_merge_keeps_and_covers(v, d, fold_case);
        let m = merged(v, d, fold_case);
        let last = items.last();
        assert forall|k: int| 0 <= k < items.len() implies holds(merged(v, items, fold_case), #[trigger] items[k], fold_case) by {
            if k < d.len() {
                assert(items[k] == d[k]);
                if !holds(m, last, fold_case) {
                    lemma_holds_push(m, items[k], last, fold_case);
                }
            } else {
                if !holds(m, last, fold_case) {
                    let n = m.push(last);
                    lemma_holds_self(last, fold_case);
                    assert(n[m.len() as int] == last);
                    assert(if fold_case {
                        eq_ignore_ascii_case_spec(n[m.len() as int], last)
                    } else {
                        n[m.len() as int] == last
                    });
                }
            }
        }
        if !holds(m, last, fold_case) {
            assert(m.push(last).take(v.len() as int) =~= m.take(v.len() as int));
        }
    } else {
        assert(v.take(v.len() as int) =~= v);
    }
}

/// The distinct names among `names`, in order of first appearance.
pub open spec fn distinct_names(names: Seq<Seq<char>>) -> Seq<Seq<char>>
    decreases names.len(),
{
    if names.len() == 0 {
        seq![]
    } else {
        let d = distinct_names(names.drop_last());
        if d.contains(names.last()) {
            d
        } else {
            d.push(names.last())
        }
    }
}

/// The nodes of a graph view whose entities are `names`: each name once.
pub fn graph_nodes(names: &Vec<String>) -> (nodes: Vec<GraphNode>)
    ensures
        nodes@.map_values(|n: GraphNode| n.name@) == distinct_names(views(names@)),
{
    let mut nodes: Vec<GraphNode> = Vec::new();
    let mut k: usize = 0;
    while k < names.len()
        invariant
            k <= names@.len(),
            nodes@.map_values(|n: GraphNode| n.name@) == distinct_names(views(names@.take(k as int))),
        decreases names@.len() - k,
    {
        assert(views(names@.take(k as int + 1)).drop_last() =~= views(names@.take(k as int)));
        assert(views(names@.take(k as int + 1)).last() == names@[k as int]@);
        let name = names[k].as_str();
        let ghost d = nodes@.map_values(|n: GraphNode| n.name@);
        let mut found = false;
        let mut i: usize = 0;
        while i < nodes.len()
            invariant
                i <= nodes@.len(),
                d == nodes@.map_values(|n: GraphNode| n.name@),
                found == d.take(i as int).contains(name@),
            decreases nodes@.len() - i,
        {
            let same = str_eq(nodes[i].name.as_str(), name);
            proof {
                assert(d.take(i as int + 1) == d.take(i as int).push(d[i as int]));
                if d.take(i as int + 1).contains(name@) && !d.take(i as int).contains(name@) {
                    let t = d.take(i as int + 1);
                    let j = choose|j: int| 0 <= j < t.len() && #[trigger] t[j] == name@;
                    if j < i {
                        assert(d.take(i as int)[j] == name@);
                    }
                }
                if d.take(i as int).contains(name@) {
                    let t0 = d.take(i as int);
                    let j = choose|j: int| 0 <= j < t0.len() && #[trigger] t0[j] == name@;
                    assert(d.take(i as int + 1)[j] == name@);
                }
                if same {
                    assert(d.take(i as int + 1)[i as int] == name@);
                }
            }
            found = found || same;
            i += 1;
        }
        assert(d.take(d.len() as int) =~= d);
        if !found {
            nodes.push(GraphNode { name: name.to_owned() });
            assert(nodes@.map_values(|n: GraphNode| n.name@) =~= d.push(name@));
        }
        k += 1;
    }
    assert(names@.take(names@.len() as int) =~= names@);
    nodes
}

/// The error when no memory system is configured.
pub fn memory_not_configured() -> (e: ServerError)
    ensures
        e.0 matches AivyxError::NotInitialized(m) && m@
            == "memory system not configured (no embedding provider)"@,
{
    ServerError(AivyxError::NotInitialized("memory system not configured (no embedding provider)".to_owned()))
}

/// The error when the knowledge graph is not available.
pub fn graph_not_available() -> (e: ServerError)
    ensures
        e.0 matches AivyxError::NotInitialized(m) && m@ == "knowledge graph not available"@,
{
    ServerError(AivyxError::NotInitialized("knowledge graph not available".to_owned()))
}

/// `invalid memory ID: <id>`.
pub fn invalid_memory_id(id: &str) -> (e: ServerError)
    ensures
        e.0 matches AivyxError::Config(m) && m@ == "invalid memory ID: "@ + id@,
{
    let mut m = "invalid memory ID: ".to_owned();
    m.append(id);
    ServerError(AivyxError::Config(m))
}

} // verus!
