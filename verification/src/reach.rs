//! Reachability between nodes: paths along a link relation, and the search
//! that decides whether one node reaches another along a list of links.

use vstd::prelude::*;
use vstd::set_lib::lemma_len_subset;

verus! {

/// A link relation between node names.
pub type Link = spec_fn(Seq<char>, Seq<char>) -> bool;

/// Whether step `i` of `p` follows a link.
pub open spec fn linked_at(link: Link, p: Seq<Seq<char>>, i: int) -> bool {
    link(p[i], p[i + 1])
}

/// A path: one or more nodes, each linked to the next.
pub open spec fn is_path(link: Link, p: Seq<Seq<char>>) -> bool {
    p.len() >= 1 && forall|i: int| 0 <= i < p.len() - 1 ==> #[trigger] linked_at(link, p, i)
}

/// Whether a path leads from `a` to `b` (every node reaches itself).
pub open spec fn reaches(link: Link, a: Seq<char>, b: Seq<char>) -> bool {
    exists|p: Seq<Seq<char>>| #[trigger] is_path(link, p) && p[0] == a && p.last() == b
}

/// The links listed as (from, to) pairs.
pub open spec fn flat_link(links: Seq<(Seq<char>, Seq<char>)>) -> Link {
    |x: Seq<char>, y: Seq<char>| links.contains((x, y))
}

/// The characters of (from, to) pairs.
pub open spec fn pair_view(v: Seq<(String, String)>) -> Seq<(Seq<char>, Seq<char>)> {
    v.map_values(|p: (String, String)| (p.0@, p.1@))
}

/// The characters of names.
pub open spec fn texts(v: Seq<String>) -> Seq<Seq<char>> {
    v.map_values(|s: String| s@)
}

/// A path extended by a link from its last node.
pub proof fn lemma_path_push(link: Link, p: Seq<Seq<char>>, y: Seq<char>)
    requires
        is_path(link, p),
        link(p.last(), y),
    ensures
        is_path(link, p.push(y)),
        p.push(y)[0] == p[0],
        p.push(y).last() == y,
{
    let q = p.push(y);
    assert forall|i: int| 0 <= i < q.len() - 1 implies #[trigger] linked_at(link, q, i) by {
        if i < p.len() - 1 {
            assert(linked_at(link, p, i));
            assert(q[i] == p[i] && q[i + 1] == p[i + 1]);
        } else {
            assert(q[i] == p.last());
        }
    }
}

/// Every node reaches itself.
pub proof fn lemma_reaches_self(link: Link, a: Seq<char>)
    ensures
        reaches(link, a, a),
{
    let p = seq![a];
    assert(is_path(link, p));
}

/// A set of nodes closed under the links holds every node a path from one of
/// its nodes leads to.
pub proof fn lemma_closed_holds_paths(links: Seq<(Seq<char>, Seq<char>)>, nodes: Seq<Seq<char>>, p: Seq<Seq<char>>)
    requires
        is_path(flat_link(links), p),
        nodes.contains(p[0]),
        forall|j: int| 0 <= j < links.len() && #[trigger] nodes.contains(links[j].0) ==> nodes.contains(links[j].1),
    ensures
        nodes.contains(p.last()),
    decreases p.len(),
{
    if p.len() > 1 {
        let q = p.drop_last();
        assert forall|i: int| 0 <= i < q.len() - 1 implies #[trigger] linked_at(flat_link(links), q, i) by {
            assert(linked_at(flat_link(links), p, i));
        }
        lemma_closed_holds_paths(links, nodes, q);
        let i = p.len() - 2;
        assert(linked_at(flat_link(links), p, i));
        assert(links.contains((p[i], p[i + 1])));
        let j = choose|j: int| 0 <= j < links.len() && links[j] == (p[i], p[i + 1]);
        assert(nodes.contains(links[j].0));
    }
}

fn holds_name(v: &Vec<String>, x: &String) -> (res: bool)
    ensures
        res == texts(v@).contains(x@),
{
    let ghost vv = texts(v@);
    let mut i: usize = 0;
    while i < v.len()
        invariant
            i <= v@.len(),
            vv == texts(v@),
            forall|k: int| 0 <= k < i ==> vv[k] != x@,
        decreases v@.len() - i,
    {
        if v[i] == *x {
            assert(vv[i as int] == x@);
            return true;
        }
        i = i + 1;
    }
    false
}

/// The nodes that can be visited: the start and every link's target.
spec fn universe(links: Seq<(Seq<char>, Seq<char>)>, from: Seq<char>) -> Seq<Seq<char>> {
    seq![from] + links.map_values(|e: (Seq<char>, Seq<char>)| e.1)
}

proof fn lemma_visited_bound(links: Seq<(Seq<char>, Seq<char>)>, from: Seq<char>, visited: Seq<Seq<char>>)
    requires
        visited.no_duplicates(),
        forall|k: int| 0 <= k < visited.len() ==> universe(links, from).contains(#[trigger] visited[k]),
    ensures
        visited.len() <= links.len() + 1,
{
    let u = universe(links, from);
    u.lemma_cardinality_of_set();
    visited.unique_seq_to_set();
    assert(visited.to_set().subset_of(u.to_set())) by {
        assert forall|x: Seq<char>| visited.to_set().contains(x) implies u.to_set().contains(x) by {
            let k = choose|k: int| 0 <= k < visited.len() && visited[k] == x;
            assert(u.contains(visited[k]));
        }
    }
    lemma_len_subset(visited.to_set(), u.to_set());
}

/// Whether `from` reaches `to` along the listed links (from, to).
pub fn path_exists(links: &Vec<(String, String)>, from: &String, to: &String) -> (res: bool)
    ensures
        res == reaches(flat_link(pair_view(links@)), from@, to@),
{
    let ghost ls = pair_view(links@);
    let ghost link = flat_link(ls);
    let mut visited: Vec<String> = Vec::new();
    visited.push(from.clone());
    proof {
        lemma_reaches_self(link, from@);
        assert(texts(visited@) =~= seq![from@]);
        assert(universe(ls, from@)[0] == from@);
    }
    let mut done = false;
    while !done
        invariant
            ls == pair_view(links@),
            link == flat_link(ls),
            texts(visited@).no_duplicates(),
            visited@.len() >= 1,
            texts(visited@)[0] == from@,
            forall|k: int| 0 <= k < visited@.len() ==> reaches(link, from@, #[trigger] texts(visited@)[k]),
            forall|k: int| 0 <= k < visited@.len() ==> universe(ls, from@).contains(#[trigger] texts(visited@)[k]),
            visited@.len() <= links@.len() + 1,
            done ==> forall|j: int| 0 <= j < ls.len() && #[trigger] texts(visited@).contains(ls[j].0)
                ==> texts(visited@).contains(ls[j].1),
        decreases links@.len() + 2 - visited@.len() - (if done { 1int } else { 0int }),
    {
        let ghost start = texts(visited@);
        let mut changed = false;
        let mut k: usize = 0;
        while k < links.len()
            invariant
                k <= links@.len(),
                ls == pair_view(links@),
                link == flat_link(ls),
                texts(visited@).no_duplicates(),
                visited@.len() >= 1,
                texts(visited@)[0] == from@,
                forall|m: int| 0 <= m < visited@.len() ==> reaches(link, from@, #[trigger] texts(visited@)[m]),
                forall|m: int| 0 <= m < visited@.len() ==> universe(ls, from@).contains(#[trigger] texts(visited@)[m]),
                start.len() >= 1,
                !changed ==> texts(visited@) == start,
                changed ==> visited@.len() > start.len(),
                !changed ==> forall|j: int| 0 <= j < k && #[trigger] start.contains(ls[j].0) ==> start.contains(ls[j].1),
            decreases links@.len() - k,
        {
            let ghost before = texts(visited@);
            assert(ls[k as int] == (links@[k as int].0@, links@[k as int].1@));
            let has_from = holds_name(&visited, &links[k].0);
            let has_to = holds_name(&visited, &links[k].1);
            if has_from && !has_to {
                let y = links[k].1.clone();
                visited.push(y);
                changed = true;
                proof {
                    let vv = texts(visited@);
                    assert(vv =~= before.push(ls[k as int].1));
                    assert forall|a: int, b: int| 0 <= a < vv.len() && 0 <= b < vv.len() && a != b implies vv[a] != vv[b] by {
                        if a == before.len() {
                            assert(vv[b] == before[b]);
                        } else if b == before.len() {
                            assert(vv[a] == before[a]);
                        }
                    }
                    let x = ls[k as int].0;
                    let yy = ls[k as int].1;
                    let ix = choose|i: int| 0 <= i < before.len() && before[i] == x;
                    assert(reaches(link, from@, before[ix]));
                    let p = choose|p: Seq<Seq<char>>| #[trigger] is_path(link, p) && p[0] == from@ && p.last() == x;
                    assert(ls.contains((x, yy)));
                    assert(link(p.last(), yy));
                    lemma_path_push(link, p, yy);
                    assert(reaches(link, from@, yy));
                    assert(universe(ls, from@)[k + 1] == yy);
                    assert forall|m: int| 0 <= m < vv.len() implies reaches(link, from@, #[trigger] vv[m]) by {
                        if m < before.len() {
                            assert(vv[m] == before[m]);
                        }
                    }
                    assert forall|m: int| 0 <= m < vv.len() implies universe(ls, from@).contains(#[trigger] vv[m]) by {
                        if m < before.len() {
                            assert(vv[m] == before[m]);
                        }
                    }
                }
            } else {
                proof {
                    if !changed {
                        assert forall|j: int| 0 <= j < k + 1 && #[trigger] start.contains(ls[j].0) implies start.contains(ls[j].1) by {
                            if j == k {
                                assert(ls[j] == (links@[j].0@, links@[j].1@));
                            }
                        }
                    }
                }
            }
            k = k + 1;
        }
        proof {
            lemma_visited_bound(ls, from@, texts(visited@));
        }
        if !changed {
            done = true;
        }
    }
    let found = holds_name(&visited, to);
    proof {
        let vv = texts(visited@);
        if found {
            let k = choose|k: int| 0 <= k < vv.len() && vv[k] == to@;
            assert(reaches(link, from@, vv[k]));
        } else {
            if reaches(link, from@, to@) {
                let p = choose|p: Seq<Seq<char>>| #[trigger] is_path(link, p) && p[0] == from@ && p.last() == to@;
                assert(vv.contains(p[0])) by {
                    assert(vv[0] == from@);
                }
                lemma_closed_holds_paths(ls, vv, p);
            }
        }
    }
    found
}

/// Whether no path of one or more links leads from a node back to itself.
pub open spec fn acyclic(link: Link) -> bool {
    forall|p: Seq<Seq<char>>| #[trigger] is_path(link, p) && p.len() >= 2 ==> p[0] != p.last()
}

/// Reaching is transitive.
pub proof fn lemma_reaches_trans(link: Link, a: Seq<char>, b: Seq<char>, c: Seq<char>)
    requires
        reaches(link, a, b),
        reaches(link, b, c),
    ensures
        reaches(link, a, c),
{
    let p = choose|p: Seq<Seq<char>>| #[trigger] is_path(link, p) && p[0] == a && p.last() == b;
    let q = choose|q: Seq<Seq<char>>| #[trigger] is_path(link, q) && q[0] == b && q.last() == c;
    let r = p + q.drop_first();
    assert forall|i: int| 0 <= i < r.len() - 1 implies #[trigger] linked_at(link, r, i) by {
        if i < p.len() - 1 {
            assert(linked_at(link, p, i));
        } else if i == p.len() - 1 {
            assert(r[i] == p.last());
            assert(linked_at(link, q, 0));
            assert(r[i + 1] == q[1]);
        } else {
            let t = i - p.len() + 1;
            assert(linked_at(link, q, t));
            assert(r[i] == q[t] && r[i + 1] == q[t + 1]);
        }
    }
    assert(is_path(link, r));
    if q.len() == 1 {
        assert(r =~= p);
    }
}

/// A path along `link` plus one extra link from `from` to `to` either uses
/// only `link`, or passes from its start to `from` and from `to` to its end
/// along `link`.
proof fn lemma_path_with_extra(link: Link, extended: Link, from: Seq<char>, to: Seq<char>, p: Seq<Seq<char>>)
    requires
        is_path(extended, p),
        forall|x: Seq<char>, y: Seq<char>| #[trigger] extended(x, y) == (link(x, y) || (x == from && y == to)),
    ensures
        is_path(link, p) || (reaches(link, p[0], from) && reaches(link, to, p.last())),
    decreases p.len(),
{
    if p.len() == 1 {
        assert(is_path(link, p));
    } else {
        let q = p.drop_last();
        assert forall|i: int| 0 <= i < q.len() - 1 implies #[trigger] linked_at(extended, q, i) by {
            assert(linked_at(extended, p, i));
        }
        lemma_path_with_extra(link, extended, from, to, q);
        let x = q.last();
        let y = p.last();
        assert(linked_at(extended, p, p.len() - 2));
        assert(p[p.len() - 2] == x);
        assert(extended(x, y));
        assert(p =~= q.push(y));
        if is_path(link, q) {
            if link(x, y) {
                lemma_path_push(link, q, y);
            } else {
                assert(x == from && y == to);
                assert(reaches(link, q[0], from));
                lemma_reaches_self(link, to);
            }
        } else {
            if link(x, y) {
                let r = choose|r: Seq<Seq<char>>| #[trigger] is_path(link, r) && r[0] == to && r.last() == x;
                lemma_path_push(link, r, y);
            } else {
                lemma_reaches_self(link, to);
            }
        }
    }
}

/// Adding a link from `from` to `to` to an acyclic relation in which `to`
/// does not reach `from` leaves it acyclic.
pub proof fn extra_link_keeps_acyclic(link: Link, extended: Link, from: Seq<char>, to: Seq<char>)
    requires
        acyclic(link),
        !reaches(link, to, from),
        forall|x: Seq<char>, y: Seq<char>| #[trigger] extended(x, y) == (link(x, y) || (x == from && y == to)),
    ensures
        acyclic(extended),
{
    assert forall|p: Seq<Seq<char>>| #[trigger] is_path(extended, p) && p.len() >= 2 implies p[0] != p.last() by {
        lemma_path_with_extra(link, extended, from, to, p);
        if p[0] == p.last() && !is_path(link, p) {
            lemma_reaches_trans(link, to, p.last(), from);
        }
    }
}

} // verus!
