//! Signed query strings for the exchange REST API: parameters are sorted by
//! name, rendered as `name=value` and joined with `&`.

use vstd::prelude::*;
use vstd::multiset::*;
use crate::text::{joined, text_less, text_lt, views, join};

verus! {

/// One query parameter.
pub struct Param {
    pub name: String,
    pub value: String,
}

impl View for Param {
    type V = (Seq<char>, Seq<char>);

    open spec fn view(&self) -> (Seq<char>, Seq<char>) {
        (self.name@, self.value@)
    }
}

impl Param {
    /// A parameter from its name and value.
    pub fn new(name: &str, value: &str) -> (p: Param)
        ensures
            p@ == (name@, value@),
    {
        Param { name: String::from_str(name), value: String::from_str(value) }
    }
}

/// Views of a parameter vector.
pub open spec fn param_views(v: Seq<Param>) -> Seq<(Seq<char>, Seq<char>)> {
    v.map_values(|p: Param| p@)
}

/// The position at which a parameter named `k` is inserted into `s`: after
/// every entry whose name does not come strictly after `k`.
pub open spec fn insert_pos(s: Seq<(Seq<char>, Seq<char>)>, k: Seq<char>) -> nat
    decreases s.len(),
{
    if s.len() == 0 {
        0
    } else if text_lt(k, s[0].0) {
        0
    } else {
        1 + insert_pos(s.drop_first(), k)
    }
}

/// `s` with `x` inserted at its sorted position.
pub open spec fn insert_sorted(
    s: Seq<(Seq<char>, Seq<char>)>,
    x: (Seq<char>, Seq<char>),
) -> Seq<(Seq<char>, Seq<char>)> {
    s.insert(insert_pos(s, x.0) as int, x)
}

/// Parameters sorted by name (insertion sort, stable for equal names).
pub open spec fn sort_params(s: Seq<(Seq<char>, Seq<char>)>) -> Seq<(Seq<char>, Seq<char>)>
    decreases s.len(),
{
    if s.len() == 0 {
        s
    } else {
        insert_sorted(sort_params(s.drop_last()), s.last())
    }
}

/// `name=value`.
pub open spec fn param_text(p: (Seq<char>, Seq<char>)) -> Seq<char> {
    p.0 + seq!['='] + p.1
}

/// Parameters rendered as `name=value` and joined with `&`, in the given order.
pub open spec fn query_text(s: Seq<(Seq<char>, Seq<char>)>) -> Seq<char> {
    joined(s.map_values(|p: (Seq<char>, Seq<char>)| param_text(p)), seq!['&'])
}

/// No two parameters share a name.
pub open spec fn names_distinct(s: Seq<(Seq<char>, Seq<char>)>) -> bool {
    forall|i: int, j: int| 0 <= i < s.len() && 0 <= j < s.len() && i != j ==> s[i].0 != s[j].0
}

/// Names strictly increase along the sequence.
pub open spec fn names_sorted(s: Seq<(Seq<char>, Seq<char>)>) -> bool {
    forall|i: int, j: int| 0 <= i < j < s.len() ==> text_lt(s[i].0, s[j].0)
}

fn insertion_index(sorted: &Vec<Param>, name: &String) -> (i: usize)
    ensures
        i == insert_pos(param_views(sorted@), name@),
        i <= sorted.len(),
{
    proof {
        lemma_insert_pos_bounds(param_views(sorted@), name@);
        assert(param_views(sorted@).skip(0) =~= param_views(sorted@));
    }
    let mut i: usize = 0;
    while i < sorted.len()
        invariant
            i <= sorted.len(),
            insert_pos(param_views(sorted@), name@) == i + insert_pos(
                param_views(sorted@).skip(i as int),
                name@,
            ),
        decreases sorted.len() - i,
    {
        let ghost rest = param_views(sorted@).skip(i as int);
        assert(rest[0] == sorted@[i as int]@);
        if text_less(name.as_str(), sorted[i].name.as_str()) {
            return i;
        }
        assert(rest.drop_first() =~= param_views(sorted@).skip(i + 1));
        i = i + 1;
    }
    assert(param_views(sorted@).skip(i as int) =~= Seq::<(Seq<char>, Seq<char>)>::empty());
    i
}

fn clone_param(p: &Param) -> (q: Param)
    ensures
        q@ == p@,
{
    Param { name: p.name.clone(), value: p.value.clone() }
}

/// The parameters sorted by name.
pub fn sorted_params(params: &Vec<Param>) -> (out: Vec<Param>)
    ensures
        param_views(out@) == sort_params(param_views(params@)),
{
    let mut out: Vec<Param> = Vec::new();
    let mut k: usize = 0;
    while k < params.len()
        invariant
            k <= params.len(),
            param_views(out@) == sort_params(param_views(params@.take(k as int))),
        decreases params.len() - k,
    {
        let ghost before = param_views(out@);
        let p = clone_param(&params[k]);
        let i = insertion_index(&out, &p.name);
        out.insert(i, p);
        proof {
            let taken = param_views(params@.take(k + 1));
            assert(taken.drop_last() =~= param_views(params@.take(k as int)));
            assert(taken.last() == params@[k as int]@);
            assert(param_views(out@) =~= before.insert(i as int, params@[k as int]@));
        }
        k = k + 1;
    }
    assert(params@.take(params.len() as int) =~= params@);
    out
}

/// The query string of a parameter set: sorted by name, `name=value`,
/// joined with `&`.
pub fn serialize_params(params: &Vec<Param>) -> (s: String)
    ensures
        s@ == query_text(sort_params(param_views(params@))),
{
    let sorted = sorted_params(params);
    let mut parts: Vec<String> = Vec::new();
    let mut i: usize = 0;
    while i < sorted.len()
        invariant
            i <= sorted.len(),
            parts.len() == i,
            forall|j: int| 0 <= j < i ==> #[trigger] parts@[j]@ == param_text(sorted@[j]@),
        decreases sorted.len() - i,
    {
        let mut t = String::from_str(sorted[i].name.as_str());
        t.append("=");
        t.append(sorted[i].value.as_str());
        proof {
            reveal_strlit("=");
        }
        parts.push(t);
        i = i + 1;
    }
    let s = join(&parts, "&");
    proof {
        reveal_strlit("&");
        assert("&"@ =~= seq!['&']);
        assert(views(parts@) =~= param_views(sorted@).map_values(
            |p: (Seq<char>, Seq<char>)| param_text(p),
        ));
    }
    s
}

// ---------------------------------------------------------------------------
// Properties of the code-point order.

proof fn lemma_text_lt_irreflexive(a: Seq<char>)
    ensures
        !text_lt(a, a),
    decreases a.len(),
{
    if a.len() > 0 {
        lemma_text_lt_irreflexive(a.drop_first());
    }
}

proof fn lemma_text_lt_transitive(a: Seq<char>, b: Seq<char>, c: Seq<char>)
    requires
        text_lt(a, b),
        text_lt(b, c),
    ensures
        text_lt(a, c),
    decreases a.len(),
{
    if a.len() > 0 && b.len() > 0 && c.len() > 0 {
        if a[0] == b[0] && b[0] == c[0] {
            lemma_text_lt_transitive(a.drop_first(), b.drop_first(), c.drop_first());
        }
    }
}

proof fn lemma_text_lt_total(a: Seq<char>, b: Seq<char>)
    requires
        a != b,
    ensures
        text_lt(a, b) || text_lt(b, a),
    decreases a.len(),
{
    if a.len() > 0 && b.len() > 0 && a[0] == b[0] {
        if a.drop_first() == b.drop_first() {
            assert(a =~= seq![a[0]] + a.drop_first());
            assert(b =~= seq![b[0]] + b.drop_first());
        }
        lemma_text_lt_total(a.drop_first(), b.drop_first());
    } else if a.len() > 0 && b.len() > 0 {
    } else if a.len() == 0 && b.len() == 0 {
        assert(a =~= b);
    }
}

// ---------------------------------------------------------------------------
// Properties of the insertion sort.

proof fn lemma_insert_pos_bounds(s: Seq<(Seq<char>, Seq<char>)>, k: Seq<char>)
    ensures
        insert_pos(s, k) <= s.len(),
        forall|i: int| 0 <= i < insert_pos(s, k) ==> !text_lt(k, #[trigger] s[i].0),
        insert_pos(s, k) < s.len() ==> text_lt(k, s[insert_pos(s, k) as int].0),
    decreases s.len(),
{
    if s.len() > 0 && !text_lt(k, s[0].0) {
        let t = s.drop_first();
        lemma_insert_pos_bounds(t, k);
        assert forall|i: int| 0 <= i < insert_pos(s, k) implies !text_lt(k, #[trigger] s[i].0) by {
            if i > 0 {
                assert(s[i] == t[i - 1]);
            }
        }
    }
}

/// Sorting by name keeps exactly the given parameters, each as often as it occurs.
pub proof fn lemma_sort_params_permutes(s: Seq<(Seq<char>, Seq<char>)>)
    ensures
        sort_params(s).to_multiset() == s.to_multiset(),
        sort_params(s).len() == s.len(),
    decreases s.len(),
{
    broadcast use group_multiset_axioms;
    broadcast use vstd::seq_lib::group_to_multiset_ensures;

    if s.len() > 0 {
        let t = sort_params(s.drop_last());
        lemma_sort_params_permutes(s.drop_last());
        let x = s.last();
        let p = insert_pos(t, x.0) as int;
        lemma_insert_pos_bounds(t, x.0);
        let r = t.insert(p, x);
        assert(r =~= t.take(p) + (seq![x] + t.skip(p)));
        assert(t =~= t.take(p) + t.skip(p));
        vstd::seq_lib::lemma_multiset_commutative(t.take(p), seq![x] + t.skip(p));
        vstd::seq_lib::lemma_multiset_commutative(seq![x], t.skip(p));
        vstd::seq_lib::lemma_multiset_commutative(t.take(p), t.skip(p));
        assert(s =~= s.drop_last().push(x));
        assert(r.to_multiset() =~= t.to_multiset().insert(x));
    }
}

proof fn lemma_sorted_contains_from(s: Seq<(Seq<char>, Seq<char>)>, i: int)
    requires
        0 <= i < sort_params(s).len(),
    ensures
        s.contains(sort_params(s)[i]),
{
    broadcast use group_multiset_axioms;
    broadcast use vstd::seq_lib::group_to_multiset_ensures;

    lemma_sort_params_permutes(s);
    let r = sort_params(s);
    assert(r.to_multiset().count(r[i]) > 0);
    assert(s.to_multiset().count(r[i]) > 0);
}

/// When the names are distinct, sorting by name yields strictly increasing names.
pub proof fn lemma_sort_params_sorted(s: Seq<(Seq<char>, Seq<char>)>)
    requires
        names_distinct(s),
    ensures
        names_sorted(sort_params(s)),
    decreases s.len(),
{
    if s.len() > 0 {
        let d = s.drop_last();
        assert(names_distinct(d)) by {
            assert forall|i: int, j: int|
                0 <= i < d.len() && 0 <= j < d.len() && i != j implies d[i].0 != d[j].0 by {
                assert(d[i] == s[i]);
                assert(d[j] == s[j]);
            }
        }
        lemma_sort_params_sorted(d);
        lemma_sort_params_permutes(d);
        let t = sort_params(d);
        let x = s.last();
        let p = insert_pos(t, x.0) as int;
        lemma_insert_pos_bounds(t, x.0);
        let r = t.insert(p, x);
        // x's name differs from every name in t
        assert forall|i: int| 0 <= i < t.len() implies #[trigger] t[i].0 != x.0 by {
            lemma_sorted_contains_from(d, i);
            let k = choose|k: int| 0 <= k < d.len() && d[k] == t[i];
            assert(d[k] == s[k]);
            assert(x == s[s.len() - 1]);
        }
        assert forall|i: int, j: int| 0 <= i < j < r.len() implies text_lt(r[i].0, r[j].0) by {
            if j < p {
                assert(r[i] == t[i] && r[j] == t[j]);
            } else if j == p {
                assert(r[j] == x);
                assert(r[i] == t[i]);
                assert(!text_lt(x.0, t[i].0));
                lemma_text_lt_total(t[i].0, x.0);
            } else if i == p {
                assert(r[i] == x);
                assert(r[j] == t[j - 1]);
                if j - 1 > p {
                    lemma_text_lt_transitive(x.0, t[p].0, t[j - 1].0);
                }
            } else if i < p {
                assert(r[i] == t[i]);
                assert(r[j] == t[j - 1]);
            } else {
                assert(r[i] == t[i - 1]);
                assert(r[j] == t[j - 1]);
            }
        }
    }
}

} // verus!
