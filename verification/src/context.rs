//! The context engine's selection steps that compute on candidate nodes:
//! merging retrieved candidates, seeds for spreading activation, the parts of
//! scoring that are not floating point, and the token estimate.
use vstd::prelude::*;
use crate::text::{byte_len, chars_of, contains, contains_spec, lowercase, to_lowercase};
use crate::types::{opt_text, Node};
use vstd::utf8::encode_utf8;
use crate::json::str_eq;

verus! {

/// `a` comes before `b` in the order of `String` (lexicographic by code point).
pub open spec fn id_less(a: Seq<char>, b: Seq<char>) -> bool
    decreases a.len(),
{
    if a.len() == 0 {
        b.len() > 0
    } else if b.len() == 0 {
        false
    } else if a[0] != b[0] {
        (a[0] as u32) < (b[0] as u32)
    } else {
        id_less(a.drop_first(), b.drop_first())
    }
}

/// The order is strict.
pub proof fn lemma_id_less_irreflexive(a: Seq<char>)
    ensures
        !id_less(a, a),
    decreases a.len(),
{
    if a.len() > 0 {
        lemma_id_less_irreflexive(a.drop_first());
    }
}

/// The order is transitive.
pub proof fn lemma_id_less_transitive(a: Seq<char>, b: Seq<char>, c: Seq<char>)
    requires
        id_less(a, b),
        id_less(b, c),
    ensures
        id_less(a, c),
    decreases a.len(),
{
    if a.len() > 0 && b.len() > 0 && c.len() > 0 && a[0] == b[0] && b[0] == c[0] {
        lemma_id_less_transitive(a.drop_first(), b.drop_first(), c.drop_first());
    }
}

/// Any two different texts are ordered one way or the other.
pub proof fn lemma_id_less_total(a: Seq<char>, b: Seq<char>)
    ensures
        a == b || id_less(a, b) || id_less(b, a),
    decreases a.len(),
{
    if a.len() > 0 && b.len() > 0 && a[0] != b[0] {
        vstd::utf8::char_u32_cast(a[0], a[0] as u32);
        vstd::utf8::char_u32_cast(b[0], b[0] as u32);
    }
    if a.len() > 0 && b.len() > 0 && a[0] == b[0] {
        lemma_id_less_total(a.drop_first(), b.drop_first());
        if a.drop_first() == b.drop_first() {
            assert forall|i: int| 0 <= i < a.len() implies a[i] == b[i] by {
                if i > 0 {
                    assert(a[i] == a.drop_first()[i - 1]);
                    assert(b[i] == b.drop_first()[i - 1]);
                }
            }
            assert(a =~= b);
        }
    } else if a.len() == 0 && b.len() == 0 {
        assert(a =~= b);
    }
}

/// Whether `a` comes before `b`.
pub fn id_before(a: &str, b: &str) -> (r: bool)
    ensures
        r == id_less(a@, b@),
{
    let x = chars_of(a);
    let y = chars_of(b);
    let mut i: usize = 0;
    assert(x@.skip(0) == x@);
    assert(y@.skip(0) == y@);
    while i < x.len() && i < y.len() && x[i] == y[i]
        invariant
            i <= x@.len(),
            i <= y@.len(),
            id_less(a@, b@) == id_less(x@.skip(i as int), y@.skip(i as int)),
        decreases x.len() - i,
    {
        assert(x@.skip(i as int).drop_first() == x@.skip(i + 1));
        assert(y@.skip(i as int).drop_first() == y@.skip(i + 1));
        i = i + 1;
    }
    if i == x.len() {
        i < y.len()
    } else if i == y.len() {
        false
    } else {
        assert(x@.skip(i as int)[0] == x@[i as int]);
        assert(y@.skip(i as int)[0] == y@[i as int]);
        (x[i] as u32) < (y[i] as u32)
    }
}

/// `c[k]` is the first candidate with its id.
#[verifier::opaque]
pub open spec fn first_with_id(c: Seq<Node>, k: int) -> bool {
    0 <= k < c.len() && forall|t: int| 0 <= t < k ==> (#[trigger] c[t]).id@ != c[k].id@
}

/// `r` holds, in increasing order of id, the first candidate of `c` with each
/// id that occurs in `c`: the candidates sorted by id with duplicates dropped.
pub open spec fn is_merged(r: Seq<Node>, c: Seq<Node>) -> bool {
    &&& sorted_ids(r)
    &&& firsts_of(r, c)
    &&& keeps_ids(r, c)
}

/// Each node of `r` is the first candidate of `c` with its id.
#[verifier::opaque]
pub open spec fn firsts_of(r: Seq<Node>, c: Seq<Node>) -> bool {
    forall|i: int| 0 <= i < r.len() ==> exists|k: int| first_with_id(c, k) && #[trigger] r[i] == c[k]
}

/// Each id of a candidate of `c` is that of a node of `r`.
#[verifier::opaque]
pub open spec fn keeps_ids(r: Seq<Node>, c: Seq<Node>) -> bool {
    forall|k: int| 0 <= k < c.len() ==> exists|i: int| 0 <= i < r.len() && #[trigger] r[i].id@ == (#[trigger] c[k]).id@
}

/// The ids of `r` are strictly increasing.
pub open spec fn sorted_ids(r: Seq<Node>) -> bool {
    forall|i: int, j: int| 0 <= i < j < r.len() ==> id_less(#[trigger] r[i].id@, #[trigger] r[j].id@)
}

proof fn lemma_no_other_match(r: Seq<Node>, p: int, id: Seq<char>)
    requires
        sorted_ids(r),
        0 <= p <= r.len(),
        forall|t: int| 0 <= t < p ==> id_less(#[trigger] r[t].id@, id),
        p < r.len() ==> !id_less(r[p].id@, id),
    ensures
        forall|t: int| 0 <= t < r.len() && t != p ==> (#[trigger] r[t]).id@ != id,
        p < r.len() && r[p].id@ != id ==> id_less(id, r[p].id@),
{
    if p < r.len() {
        lemma_id_less_total(r[p].id@, id);
    }
    assert forall|t: int| 0 <= t < r.len() && t != p implies (#[trigger] r[t]).id@ != id by {
        if t < p {
            lemma_id_less_irreflexive(id);
        } else {
            assert(id_less(r[p].id@, r[t].id@));
            if r[t].id@ == id {
                lemma_id_less_total(r[p].id@, id);
            }
        }
    }
}

proof fn lemma_insert_sorted(r: Seq<Node>, p: int, node: Node)
    requires
        sorted_ids(r),
        0 <= p <= r.len(),
        forall|t: int| 0 <= t < p ==> id_less(#[trigger] r[t].id@, node.id@),
        p < r.len() ==> id_less(node.id@, r[p].id@),
    ensures
        sorted_ids(r.insert(p, node)),
{
    let nr = r.insert(p, node);
    assert forall|i: int, j: int| 0 <= i < j < nr.len() implies id_less(#[trigger] nr[i].id@, #[trigger] nr[j].id@) by {
        if j < p {
            assert(nr[i] == r[i] && nr[j] == r[j]);
        } else if j == p {
            assert(nr[i] == r[i]);
        } else {
            assert(nr[j] == r[j - 1]);
            if j - 1 > p {
                lemma_id_less_transitive(node.id@, r[p].id@, r[j - 1].id@);
            }
            if i < p {
                assert(nr[i] == r[i]);
                lemma_id_less_transitive(r[i].id@, node.id@, r[j - 1].id@);
            } else if i > p {
                assert(nr[i] == r[i - 1]);
            }
        }
    }
}

proof fn lemma_first_push(done: Seq<Node>, node: Node, kk: int)
    requires
        first_with_id(done, kk),
    ensures
        first_with_id(done.push(node), kk),
        done.push(node)[kk] == done[kk],
{
    reveal(first_with_id);
    let next = done.push(node);
    assert forall|t: int| 0 <= t < kk implies (#[trigger] next[t]).id@ != next[kk].id@ by {
        assert(next[t] == done[t]);
    }
}

proof fn lemma_merged_keep(r: Seq<Node>, done: Seq<Node>, node: Node, p: int)
    requires
        is_merged(r, done),
        0 <= p < r.len(),
        r[p].id@ == node.id@,
    ensures
        is_merged(r, done.push(node)),
{
    reveal(firsts_of);
    reveal(keeps_ids);
    let next = done.push(node);
    assert forall|i: int| 0 <= i < r.len() implies exists|kk: int| first_with_id(next, kk) && #[trigger] r[i] == next[kk] by {
        let kk = choose|kk: int| first_with_id(done, kk) && r[i] == done[kk];
        lemma_first_push(done, node, kk);
    }
    assert forall|kk: int| 0 <= kk < next.len() implies exists|i: int| 0 <= i < r.len() && #[trigger] r[i].id@ == (#[trigger] next[kk]).id@ by {
        if kk < done.len() {
            assert(next[kk] == done[kk]);
        } else {
            assert(r[p].id@ == next[kk].id@);
        }
    }
}

proof fn lemma_merged_insert(r: Seq<Node>, done: Seq<Node>, node: Node, p: int)
    requires
        is_merged(r, done),
        0 <= p <= r.len(),
        forall|t: int| 0 <= t < r.len() ==> (#[trigger] r[t]).id@ != node.id@,
        sorted_ids(r.insert(p, node)),
    ensures
        is_merged(r.insert(p, node), done.push(node)),
{
    reveal(firsts_of);
    reveal(keeps_ids);
    let next = done.push(node);
    let nr = r.insert(p, node);
    let k = done.len() as int;
    assert forall|t: int| 0 <= t < done.len() implies (#[trigger] done[t]).id@ != node.id@ by {
        let i = choose|i: int| 0 <= i < r.len() && #[trigger] r[i].id@ == done[t].id@;
    }
    assert forall|t: int| 0 <= t < k implies (#[trigger] next[t]).id@ != next[k].id@ by {
        assert(next[t] == done[t]);
    }
    assert(first_with_id(next, k)) by {
        reveal(first_with_id);
    }
    assert forall|i: int| 0 <= i < nr.len() implies exists|kk: int| first_with_id(next, kk) && #[trigger] nr[i] == next[kk] by {
        if i == p {
            assert(nr[i] == next[k]);
        } else {
            let oi = if i < p {
                i
            } else {
                i - 1
            };
            assert(nr[i] == r[oi]);
            let kk = choose|kk: int| first_with_id(done, kk) && r[oi] == done[kk];
            lemma_first_push(done, node, kk);
        }
    }
    assert forall|kk: int| 0 <= kk < next.len() implies exists|i: int| 0 <= i < nr.len() && #[trigger] nr[i].id@ == (#[trigger] next[kk]).id@ by {
        if kk < done.len() {
            assert(next[kk] == done[kk]);
            let i = choose|i: int| 0 <= i < r.len() && #[trigger] r[i].id@ == done[kk].id@;
            if i < p {
                assert(nr[i] == r[i]);
                assert(nr[i].id@ == next[kk].id@);
            } else {
                assert(nr[i + 1] == r[i]);
                assert(nr[i + 1].id@ == next[kk].id@);
            }
        } else {
            assert(nr[p] == node);
            assert(nr[p].id@ == next[kk].id@);
        }
    }
}

/// The candidates sorted by id, keeping the first of each id.
pub fn merge_candidates(candidates: Vec<Node>) -> (r: Vec<Node>)
    ensures
        is_merged(r@, candidates@),
{
    let ghost all = candidates@;
    let mut rest = crate::seqs::reversed(candidates);
    let mut r: Vec<Node> = Vec::new();
    proof {
        reveal(firsts_of);
        reveal(keeps_ids);
        assert(all.take(0).len() == 0);
    }
    while rest.len() > 0
        invariant
            rest@.len() <= all.len(),
            forall|i: int| 0 <= i < rest@.len() ==> rest@[i] == all[all.len() - 1 - i],
            is_merged(r@, all.take(all.len() - rest@.len())),
        decreases rest.len(),
    {
        let ghost done = all.take(all.len() - rest@.len());
        let node = rest.pop().unwrap();
        proof {
            assert(all.take(all.len() - rest@.len()) == done.push(node));
        }
        let mut p: usize = 0;
        while p < r.len() && id_before(r[p].id.as_str(), node.id.as_str())
            invariant
                p <= r@.len(),
                forall|t: int| 0 <= t < p ==> id_less(#[trigger] r@[t].id@, node.id@),
            decreases r.len() - p,
        {
            p = p + 1;
        }
        proof {
            lemma_no_other_match(r@, p as int, node.id@);
        }
        if p < r.len() && str_eq(r[p].id.as_str(), node.id.as_str()) {
            proof {
                lemma_merged_keep(r@, done, node, p as int);
            }
        } else {
            proof {
                lemma_insert_sorted(r@, p as int, node);
                lemma_merged_insert(r@, done, node, p as int);
            }
            r.insert(p, node);
        }
    }
    assert(all.take(all.len() as int) == all);
    r
}


/// Strictly ordered ids are distinct.
proof fn lemma_sorted_distinct(r: Seq<Node>, a: int, b: int)
    requires
        sorted_ids(r),
        0 <= a < r.len(),
        0 <= b < r.len(),
        a != b,
    ensures
        r[a].id@ != r[b].id@,
{
    lemma_id_less_irreflexive(r[a].id@);
    if a < b {
        assert(id_less(r[a].id@, r[b].id@));
    } else {
        assert(id_less(r[b].id@, r[a].id@));
    }
}

/// The order is asymmetric.
proof fn lemma_id_less_asymmetric(a: Seq<char>, b: Seq<char>)
    requires
        id_less(a, b),
    ensures
        !id_less(b, a),
{
    if id_less(b, a) {
        lemma_id_less_transitive(a, b, a);
        lemma_id_less_irreflexive(a);
    }
}

/// A node of `r` that is the node of `r2` at `j`.
proof fn witness_first(r: Seq<Node>, r2: Seq<Node>, j: int) -> (k: int)
    requires
        firsts_of(r2, r),
        0 <= j < r2.len(),
    ensures
        0 <= k < r.len(),
        r[k] == r2[j],
{
    reveal(firsts_of);
    reveal(first_with_id);
    let x = r2[j];
    choose|k: int| first_with_id(r, k) && r2[j] == r[k]
}

/// A node of `r2` with the id of the node of `r` at `k`.
proof fn witness_id(r: Seq<Node>, r2: Seq<Node>, k: int) -> (j: int)
    requires
        keeps_ids(r2, r),
        0 <= k < r.len(),
    ensures
        0 <= j < r2.len(),
        r2[j].id@ == r[k].id@,
{
    reveal(keeps_ids);
    let x = r[k];
    choose|j: int| 0 <= j < r2.len() && #[trigger] r2[j].id@ == r[k].id@
}

/// A sorted merge of a sorted list agrees with it on the first `i` places.
proof fn lemma_remerged_prefix(r: Seq<Node>, r2: Seq<Node>, i: int)
    requires
        sorted_ids(r),
        sorted_ids(r2),
        firsts_of(r2, r),
        keeps_ids(r2, r),
        0 <= i <= r2.len(),
    ensures
        i <= r.len(),
        forall|j: int| 0 <= j < i ==> #[trigger] r2[j] == r[j],
    decreases i,
{
    if i > 0 {
        lemma_remerged_prefix(r, r2, i - 1);
        let j = i - 1;
        let k = witness_first(r, r2, j);
        if k < j {
            assert(r2[k] == r[k]);
            lemma_sorted_distinct(r2, k, j);
        }
        assert(k >= j);
        let j2 = witness_id(r, r2, j);
        if j2 < j {
            assert(r2[j2] == r[j2]);
            lemma_sorted_distinct(r, j2, j);
        } else if j2 > j {
            assert(id_less(r2[j].id@, r2[j2].id@));
            if k > j {
                assert(id_less(r[j].id@, r[k].id@));
                lemma_id_less_asymmetric(r[j].id@, r[k].id@);
            }
        }
        if k != j {
            lemma_sorted_distinct(r, k, j);
        }
    }
}

/// Merging is idempotent: merging candidates that were merged already gives
/// them back unchanged.
pub proof fn merge_idempotent(c: Seq<Node>, r: Seq<Node>, r2: Seq<Node>)
    requires
        is_merged(r, c),
        is_merged(r2, r),
    ensures
        r2 == r,
{
    lemma_remerged_prefix(r, r2, r2.len() as int);
    if r2.len() < r.len() {
        let k = r2.len() as int;
        let j2 = witness_id(r, r2, k);
        assert(r2[j2] == r[j2]);
        lemma_sorted_distinct(r, j2, k);
    }
    assert(r2 =~= r);
}

/// The ids of the candidates, in order (the seeds of spreading activation).
pub fn seed_ids(candidates: &Vec<Node>) -> (r: Vec<String>)
    ensures
        r@.len() == candidates@.len(),
        forall|i: int| 0 <= i < r@.len() ==> #[trigger] r@[i]@ == candidates@[i].id@,
{
    let mut r: Vec<String> = Vec::new();
    let mut i: usize = 0;
    while i < candidates.len()
        invariant
            i <= candidates@.len(),
            r@.len() == i,
            forall|t: int| 0 <= t < i ==> #[trigger] r@[t]@ == candidates@[t].id@,
        decreases candidates.len() - i,
    {
        r.push(candidates[i].id.clone());
        i = i + 1;
    }
    r
}

/// A node's token estimate: about four bytes of title and content per token.
pub open spec fn tokens_estimate(n: Node) -> nat {
    (byte_len(n.title@) + byte_len(opt_text(n.content))) / 4
}

/// The token estimate of a node whose text length fits in a `usize`.
pub fn estimate_tokens(node: &Node) -> (r: usize)
    requires
        byte_len(node.title@) + byte_len(opt_text(node.content)) <= usize::MAX,
    ensures
        r == tokens_estimate(*node),
{
    let t = node.title.as_str().len();
    let c = match &node.content {
        Some(c) => c.as_str().len(),
        None => 0,
    };
    assert(encode_utf8(Seq::<char>::empty()) == Seq::<u8>::empty());
    (t + c) / 4
}

/// The token estimates of the nodes, summed.
pub open spec fn total_tokens(nodes: Seq<Node>) -> nat
    decreases nodes.len(),
{
    if nodes.len() == 0 {
        0
    } else {
        total_tokens(nodes.drop_last()) + tokens_estimate(nodes.last())
    }
}

/// The token estimate of the assembled context: the sum of its nodes' estimates,
/// where each node's text length and the sum fit in a `usize`.
pub fn estimate_total_tokens(nodes: &Vec<Node>) -> (r: usize)
    requires
        forall|i: int|
            0 <= i < nodes@.len() ==> byte_len(#[trigger] nodes@[i].title@) + byte_len(
                opt_text(nodes@[i].content),
            ) <= usize::MAX,
        total_tokens(nodes@) <= usize::MAX,
    ensures
        r == total_tokens(nodes@),
{
    let mut total: usize = 0;
    let mut i: usize = 0;
    while i < nodes.len()
        invariant
            i <= nodes@.len(),
            forall|k: int|
                0 <= k < nodes@.len() ==> byte_len(#[trigger] nodes@[k].title@) + byte_len(
                    opt_text(nodes@[k].content),
                ) <= usize::MAX,
            total_tokens(nodes@) <= usize::MAX,
            total == total_tokens(nodes@.take(i as int)),
        decreases nodes.len() - i,
    {
        proof {
            assert(nodes@.take(i + 1).drop_last() == nodes@.take(i as int));
            lemma_total_tokens_prefix(nodes@, i + 1);
        }
        total = total + estimate_tokens(&nodes[i]);
        i = i + 1;
    }
    assert(nodes@.take(nodes@.len() as int) == nodes@);
    total
}

/// A prefix's estimate is at most the whole's.
proof fn lemma_total_tokens_prefix(nodes: Seq<Node>, k: int)
    requires
        0 <= k <= nodes.len(),
    ensures
        total_tokens(nodes.take(k)) <= total_tokens(nodes),
    decreases nodes.len(),
{
    if k < nodes.len() {
        assert(nodes.drop_last().take(k) == nodes.take(k));
        lemma_total_tokens_prefix(nodes.drop_last(), k);
    } else {
        assert(nodes.take(k) == nodes);
    }
}

/// How many entities occur in the title, both in lower case.
pub open spec fn entity_matches(title: Seq<char>, entities: Seq<String>) -> nat
    decreases entities.len(),
{
    if entities.len() == 0 {
        0
    } else {
        entity_matches(title, entities.drop_last()) + if contains_spec(
            lowercase(title),
            lowercase(entities.last()@),
        ) {
            1nat
        } else {
            0nat
        }
    }
}

/// The number of entities named in the title (the title-match part of a node's score).
pub fn count_entity_matches(title: &str, entities: &Vec<String>) -> (r: usize)
    ensures
        r == entity_matches(title@, entities@),
{
    let lower_title = to_lowercase(title);
    let mut n: usize = 0;
    let mut i: usize = 0;
    while i < entities.len()
        invariant
            i <= entities@.len(),
            lower_title@ == lowercase(title@),
            n == entity_matches(title@, entities@.take(i as int)),
            n <= i,
        decreases entities.len() - i,
    {
        let lower_entity = to_lowercase(entities[i].as_str());
        assert(entities@.take(i + 1).drop_last() == entities@.take(i as int));
        if contains(lower_title.as_str(), lower_entity.as_str()) {
            n = n + 1;
        }
        i = i + 1;
    }
    assert(entities@.take(entities@.len() as int) == entities@);
    n
}

/// The intent of the input favours nodes of this type.
pub open spec fn intent_favours(intent: Seq<char>, node_type: Seq<char>) -> bool {
    ||| intent == "task_check"@ && (node_type == "space"@ || node_type == "daily"@)
    ||| intent == "contact"@ && (node_type == "person"@ || node_type == "episode"@)
    ||| intent == "procedure"@ && node_type == "procedure"@
    ||| intent == "review"@ && (node_type == "episode"@ || node_type == "daily"@)
    ||| intent == "decision"@ && (node_type == "decision"@ || node_type == "space"@)
}

/// The type bonus goes to exactly these pairs: `task_check` favours `space`
/// and `daily`; `contact` favours `person` and `episode`; `procedure` favours
/// `procedure`; `review` favours `episode` and `daily`; `decision` favours
/// `decision` and `space`; no other intent favours any type.
pub proof fn type_bonus_pairs(intent: Seq<char>, t: Seq<char>)
    ensures
        intent_favours("task_check"@, t) <==> (t == "space"@ || t == "daily"@),
        intent_favours("contact"@, t) <==> (t == "person"@ || t == "episode"@),
        intent_favours("procedure"@, t) <==> t == "procedure"@,
        intent_favours("review"@, t) <==> (t == "episode"@ || t == "daily"@),
        intent_favours("decision"@, t) <==> (t == "decision"@ || t == "space"@),
        intent != "task_check"@ && intent != "contact"@ && intent != "procedure"@ && intent != "review"@
            && intent != "decision"@ ==> !intent_favours(intent, t),
{
    reveal_strlit("task_check");
    reveal_strlit("contact");
    reveal_strlit("procedure");
    reveal_strlit("review");
    reveal_strlit("decision");
    assert("task_check"@[0] != "contact"@[0]);
    assert("task_check"@[0] != "procedure"@[0]);
    assert("task_check"@[0] != "review"@[0]);
    assert("task_check"@[0] != "decision"@[0]);
    assert("contact"@[0] != "procedure"@[0]);
    assert("contact"@[0] != "review"@[0]);
    assert("contact"@[0] != "decision"@[0]);
    assert("procedure"@[0] != "review"@[0]);
    assert("procedure"@[0] != "decision"@[0]);
    assert("review"@[0] != "decision"@[0]);
}

/// Whether a node of this type gets the type bonus for this intent.
pub fn type_bonus_applies(intent: &str, node_type: &str) -> (r: bool)
    ensures
        r == intent_favours(intent@, node_type@),
{
    (str_eq(intent, "task_check") && (str_eq(node_type, "space") || str_eq(node_type, "daily")))
        || (str_eq(intent, "contact") && (str_eq(node_type, "person") || str_eq(node_type, "episode")))
        || (str_eq(intent, "procedure") && str_eq(node_type, "procedure"))
        || (str_eq(intent, "review") && (str_eq(node_type, "episode") || str_eq(node_type, "daily")))
        || (str_eq(intent, "decision") && (str_eq(node_type, "decision") || str_eq(node_type, "space")))
}

} // verus!
