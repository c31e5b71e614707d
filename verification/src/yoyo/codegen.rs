//! What the code generated for a set of animation variants declares: the
//! states, whether there is a press and an exit state, the style of each
//! state and the transitions of each edge.

use vstd::prelude::*;
use crate::scalar::Scalar;
use crate::text::str_eq;
use super::automaton::{Edge, EdgeView, name_view};
use super::types::{Style, Transitions};

verus! {

/// What `inflections::case::to_pascal_case` returns for the given text.
pub uninterp spec fn pascal_case(text: Seq<char>) -> Seq<char>;

/// Calls `inflections::case::to_pascal_case`, which capitalizes the first
/// character and each character after a separator (space, `-` or `_`),
/// drops the separators and lowercases the rest except after a lowercase
/// character. Claimed: the result is a function of the text alone.
#[verifier::external_body]
fn to_pascal_case(text: &str) -> (r: String)
    ensures
        r@ == pascal_case(text@),
{
    inflections::case::to_pascal_case(text)
}

/// Returns the name of the variant of the generated type that stands for the
/// state of the given name: the name in PascalCase.
pub fn variant_name(state: &str) -> (r: String)
    ensures
        r@ == pascal_case(state@),
{
    to_pascal_case(state)
}

/// The precedence of an edge by the names it restricts.
pub open spec fn spec_presedence(e: EdgeView) -> nat {
    match (e.from, e.to) {
        (Some(_), Some(_)) => 3,
        (None, Some(_)) => 2,
        (Some(_), None) => 1,
        (None, None) => 0,
    }
}

/// The variants with precedence `p`, from last to first.
pub open spec fn spec_reversed_with_precedence<'a, T: Scalar>(v: Seq<(Edge<'a>, Style<T>)>, p: nat) -> Seq<(Edge<'a>, Style<T>)> {
    v.reverse().filter(|x: (Edge<'a>, Style<T>)| spec_presedence(x.0.view()) == p)
}

/// The variants ordered by decreasing precedence, and within one precedence
/// from last to first (a stable sort by increasing precedence, reversed).
pub open spec fn spec_sorted_variants<'a, T: Scalar>(v: Seq<(Edge<'a>, Style<T>)>) -> Seq<(Edge<'a>, Style<T>)> {
    spec_reversed_with_precedence(v, 3) + spec_reversed_with_precedence(v, 2)
        + spec_reversed_with_precedence(v, 1) + spec_reversed_with_precedence(v, 0)
}

/// Returns the given variants ordered by decreasing precedence, and within
/// one precedence from last to first.
pub fn sort_variants<'a, T: Scalar>(variants: Vec<(Edge<'a>, Style<T>)>) -> (r: Vec<(Edge<'a>, Style<T>)>)
    ensures
        r@ == spec_sorted_variants(variants@),
{
    let mut r: Vec<(Edge<'a>, Style<T>)> = Vec::new();
    let mut p: usize = 4;
    while p > 0
        invariant
            p <= 4,
            r@ == spec_sorted_prefix(variants@, p as nat),
        decreases p,
    {
        p = p - 1;
        let ghost before = r@;
        let mut k: usize = variants.len();
        while k > 0
            invariant
                k <= variants@.len(),
                r@ == before + spec_reversed_with_precedence(variants@.subrange(k as int, variants@.len() as int), p as nat),
            decreases k,
        {
            k = k - 1;
            let ghost tail = variants@.subrange(k as int + 1, variants@.len() as int);
            let ghost tail2 = variants@.subrange(k as int, variants@.len() as int);
            proof {
                assert(tail2 =~= seq![variants@[k as int]] + tail);
                assert(tail2.reverse() =~= tail.reverse() + seq![variants@[k as int]]);
                Seq::filter_distributes_over_add(
                    tail.reverse(),
                    seq![variants@[k as int]],
                    |x: (Edge<'a>, Style<T>)| spec_presedence(x.0.view()) == p as nat,
                );
                reveal_with_fuel(Seq::filter, 2);
            }
            if variants[k].0.presedence() == p {
                r.push(variants[k]);
                proof {
                    assert(r@ =~= before + spec_reversed_with_precedence(tail2, p as nat));
                }
            } else {
                proof {
                    assert(r@ =~= before + spec_reversed_with_precedence(tail2, p as nat));
                }
            }
        }
        proof {
            assert(variants@.subrange(0, variants@.len() as int) =~= variants@);
        }
    }
    proof {
        reveal_with_fuel(spec_sorted_prefix, 5);
        assert(Seq::<(Edge<'a>, Style<T>)>::empty() + spec_reversed_with_precedence(variants@, 3)
            =~= spec_reversed_with_precedence(variants@, 3));
    }
    r
}

/// Every variant with precedence `p` has precedence `p`.
proof fn lemma_reversed_with_precedence<'a, T: Scalar>(v: Seq<(Edge<'a>, Style<T>)>, p: nat, k: int)
    requires
        0 <= k < spec_reversed_with_precedence(v, p).len(),
    ensures
        spec_presedence(spec_reversed_with_precedence(v, p)[k].0.view()) == p,
{
    v.reverse().lemma_filter_pred(|x: (Edge<'a>, Style<T>)| spec_presedence(x.0.view()) == p, k);
}

/// The sorted variants come in order of decreasing precedence.
pub proof fn sorted_variants_decrease_in_precedence<'a, T: Scalar>(v: Seq<(Edge<'a>, Style<T>)>)
    ensures
        forall|i: int, j: int|
            0 <= i < j < spec_sorted_variants(v).len() ==> spec_presedence(
                #[trigger] spec_sorted_variants(v)[i].0.view(),
            ) >= spec_presedence(#[trigger] spec_sorted_variants(v)[j].0.view()),
{
    let a3 = spec_reversed_with_precedence(v, 3);
    let a2 = spec_reversed_with_precedence(v, 2);
    let a1 = spec_reversed_with_precedence(v, 1);
    let a0 = spec_reversed_with_precedence(v, 0);
    let r = spec_sorted_variants(v);
    let l3 = a3.len() as int;
    let l2 = a2.len() as int;
    let l1 = a1.len() as int;
    assert forall|k: int| 0 <= k < r.len() implies spec_presedence(r[k].0.view()) == (if k < l3 {
        3nat
    } else if k < l3 + l2 {
        2nat
    } else if k < l3 + l2 + l1 {
        1nat
    } else {
        0nat
    }) by {
        if k < l3 {
            lemma_reversed_with_precedence(v, 3, k);
        } else if k < l3 + l2 {
            lemma_reversed_with_precedence(v, 2, k - l3);
        } else if k < l3 + l2 + l1 {
            lemma_reversed_with_precedence(v, 1, k - l3 - l2);
        } else {
            lemma_reversed_with_precedence(v, 0, k - l3 - l2 - l1);
        }
    }
}

/// Filtering keeps every copy of an element that passes and none of the
/// others.
proof fn lemma_filter_count<A>(s: Seq<A>, pred: spec_fn(A) -> bool, x: A)
    ensures
        s.filter(pred).to_multiset().count(x) == (if pred(x) {
            s.to_multiset().count(x)
        } else {
            0
        }),
    decreases s.len(),
{
    broadcast use vstd::multiset::group_multiset_axioms;
    reveal(Seq::filter);
    if s.len() == 0 {
        assert(s.to_multiset() =~= vstd::multiset::Multiset::<A>::empty()) by {
            s.to_multiset_ensures();
        }
        assert(s.filter(pred) =~= s);
    } else {
        let t = s.drop_last();
        let a = s.last();
        lemma_filter_count(t, pred, x);
        assert(s =~= t.push(a));
        vstd::seq_lib::to_multiset_build(t, a);
        if pred(a) {
            vstd::seq_lib::to_multiset_build(t.filter(pred), a);
        }
    }
}

/// Sorting keeps every variant, as often as it occurs.
pub proof fn sorted_variants_are_a_permutation<'a, T: Scalar>(v: Seq<(Edge<'a>, Style<T>)>)
    ensures
        spec_sorted_variants(v).to_multiset() =~= v.to_multiset(),
{
    broadcast use vstd::multiset::group_multiset_axioms;
    let rv = v.reverse();
    let a3 = spec_reversed_with_precedence(v, 3);
    let a2 = spec_reversed_with_precedence(v, 2);
    let a1 = spec_reversed_with_precedence(v, 1);
    let a0 = spec_reversed_with_precedence(v, 0);
    vstd::seq_lib::lemma_multiset_commutative(a3, a2);
    vstd::seq_lib::lemma_multiset_commutative(a3 + a2, a1);
    vstd::seq_lib::lemma_multiset_commutative(a3 + a2 + a1, a0);
    v.lemma_reverse_to_multiset();
    assert forall|x: (Edge<'a>, Style<T>)| #[trigger] spec_sorted_variants(v).to_multiset().count(x)
        == v.to_multiset().count(x) by {
        lemma_filter_count(rv, |y: (Edge<'a>, Style<T>)| spec_presedence(y.0.view()) == 3nat, x);
        lemma_filter_count(rv, |y: (Edge<'a>, Style<T>)| spec_presedence(y.0.view()) == 2nat, x);
        lemma_filter_count(rv, |y: (Edge<'a>, Style<T>)| spec_presedence(y.0.view()) == 1nat, x);
        lemma_filter_count(rv, |y: (Edge<'a>, Style<T>)| spec_presedence(y.0.view()) == 0nat, x);
    }
}

/// The variants with precedence at least `p`, by decreasing precedence.
pub open spec fn spec_sorted_prefix<'a, T: Scalar>(v: Seq<(Edge<'a>, Style<T>)>, p: nat) -> Seq<(Edge<'a>, Style<T>)>
    decreases 4 - p,
{
    if p >= 4 {
        Seq::empty()
    } else {
        spec_sorted_prefix(v, p + 1) + spec_reversed_with_precedence(v, p)
    }
}

/// The names with `n` added at the end unless it is there already.
pub open spec fn spec_add_name(names: Seq<Seq<char>>, n: Option<Seq<char>>) -> Seq<Seq<char>> {
    match n {
        Some(x) => if names.contains(x) {
            names
        } else {
            names.push(x)
        },
        None => names,
    }
}

/// The states named by `initial` and by the ends of the first `k` variants,
/// each once, in the order of their first mention.
pub open spec fn spec_state_names<'a, T: Scalar>(v: Seq<(Edge<'a>, Style<T>)>, k: int) -> Seq<Seq<char>>
    decreases k,
{
    if k <= 0 {
        seq!["initial"@]
    } else {
        let e = v[k - 1].0.view();
        spec_add_name(spec_add_name(spec_state_names(v, k - 1), e.from), e.to)
    }
}

/// The characters of each name.
pub open spec fn names_view(names: Seq<&str>) -> Seq<Seq<char>> {
    Seq::new(names.len(), |i: int| names[i]@)
}

/// Adds `n` to the names unless it is there already.
fn add_name<'a>(names: &mut Vec<&'a str>, n: Option<&'a str>)
    ensures
        names_view(final(names)@) == spec_add_name(names_view(old(names)@), name_view(n)),
{
    let ghost before = names_view(names@);
    if let Some(x) = n {
        let mut k: usize = 0;
        while k < names.len()
            invariant
                k <= names@.len(),
                before == names_view(names@),
                before == names_view(old(names)@),
                n == Some(x),
                forall|j: int| 0 <= j < k ==> before[j] != x@,
            decreases names@.len() - k,
        {
            if str_eq(names[k], x) {
                assert(before[k as int] == names@[k as int]@);
                assert(before.contains(x@));
                return;
            }
            k = k + 1;
        }
        names.push(x);
        assert(names_view(names@) =~= before.push(x@));
    }
}

/// The parts of the code generated for a set of variants.
pub struct Codegen<'a, T: Scalar> {
    variants: &'a [(Edge<'a>, Style<T>)],
}

impl<'a, T: Scalar> Codegen<'a, T> {
    /// The variants that the code is generated for.
    pub closed spec fn spec_variants(self) -> Seq<(Edge<'a>, Style<T>)> {
        self.variants@
    }

    /// Returns a code generator for the given variants.
    pub fn new(variants: &'a [(Edge<'a>, Style<T>)]) -> (r: Codegen<'a, T>)
        ensures
            r.spec_variants() == variants@,
    {
        Codegen { variants }
    }

    /// Returns the names of the states: `initial` and every end of every
    /// variant, each once.
    pub fn state_names(&self) -> (r: Vec<&'a str>)
        ensures
            names_view(r@) == spec_state_names(self.spec_variants(), self.spec_variants().len() as int),
    {
        let mut names: Vec<&'a str> = Vec::new();
        names.push("initial");
        proof {
            reveal_strlit("initial");
            assert(names_view(names@) =~= seq!["initial"@]);
        }
        let mut k: usize = 0;
        while k < self.variants.len()
            invariant
                k <= self.variants@.len(),
                names_view(names@) == spec_state_names(self.variants@, k as int),
            decreases self.variants@.len() - k,
        {
            let edge = self.variants[k].0;
            add_name(&mut names, edge.from());
            add_name(&mut names, edge.to());
            k = k + 1;
        }
        names
    }

    /// Returns the names of the variants of the generated type: the names
    /// of the states (see `state_names`) in PascalCase.
    pub fn variant_names(&self) -> (r: Vec<String>)
        ensures
            r@.len() == spec_state_names(self.spec_variants(), self.spec_variants().len() as int).len(),
            forall|i: int| 0 <= i < r@.len() ==> #[trigger] r@[i]@ == pascal_case(
                spec_state_names(self.spec_variants(), self.spec_variants().len() as int)[i],
            ),
    {
        let names = self.state_names();
        let mut result: Vec<String> = Vec::new();
        let mut i: usize = 0;
        while i < names.len()
            invariant
                i <= names@.len(),
                result@.len() == i,
                forall|j: int| 0 <= j < i ==> #[trigger] result@[j]@ == pascal_case(names@[j]@),
            decreases names@.len() - i,
        {
            result.push(variant_name(names[i]));
            i = i + 1;
        }
        proof {
            assert forall|j: int| 0 <= j < result@.len() implies #[trigger] result@[j]@ == pascal_case(
                spec_state_names(self.spec_variants(), self.spec_variants().len() as int)[j],
            ) by {
                assert(names_view(names@)[j] == names@[j]@);
            }
        }
        result
    }

    /// Returns whether one of the states is named `press`.
    pub fn has_press(&self) -> (r: bool)
        ensures
            r == spec_state_names(self.spec_variants(), self.spec_variants().len() as int).contains("press"@),
    {
        let names = self.state_names();
        let mut k: usize = 0;
        while k < names.len()
            invariant
                k <= names@.len(),
                forall|j: int| 0 <= j < k ==> names@[j]@ != "press"@,
                names_view(names@) == spec_state_names(self.spec_variants(), self.spec_variants().len() as int),
            decreases names@.len() - k,
        {
            if str_eq(names[k], "press") {
                assert(names_view(names@)[k as int] == names@[k as int]@);
                assert(names_view(names@).contains("press"@));
                return true;
            }
            k = k + 1;
        }
        assert(!names_view(names@).contains("press"@));
        false
    }

    /// Returns whether one of the states is named `exit`.
    pub fn has_exit(&self) -> (r: bool)
        ensures
            r == spec_state_names(self.spec_variants(), self.spec_variants().len() as int).contains("exit"@),
    {
        let names = self.state_names();
        let mut k: usize = 0;
        while k < names.len()
            invariant
                k <= names@.len(),
                forall|j: int| 0 <= j < k ==> names@[j]@ != "exit"@,
                names_view(names@) == spec_state_names(self.spec_variants(), self.spec_variants().len() as int),
            decreases names@.len() - k,
        {
            if str_eq(names[k], "exit") {
                assert(names_view(names@)[k as int] == names@[k as int]@);
                assert(names_view(names@).contains("exit"@));
                return true;
            }
            k = k + 1;
        }
        assert(!names_view(names@).contains("exit"@));
        false
    }

    /// Returns the style of each state: the target and style of every variant
    /// whose source is left open, in order.
    pub fn style_arms(&self) -> (r: Vec<(Option<&'a str>, Style<T>)>)
        ensures
            r@ == self.spec_variants().filter(|x: (Edge<'a>, Style<T>)| x.0.spec_from() is None).map_values(
                |x: (Edge<'a>, Style<T>)| (x.0.spec_to(), x.1),
            ),
    {
        let mut r: Vec<(Option<&'a str>, Style<T>)> = Vec::new();
        let mut k: usize = 0;
        while k < self.variants.len()
            invariant
                k <= self.variants@.len(),
                r@ == self.variants@.subrange(0, k as int).filter(|x: (Edge<'a>, Style<T>)| x.0.spec_from() is None).map_values(
                    |x: (Edge<'a>, Style<T>)| (x.0.spec_to(), x.1),
                ),
            decreases self.variants@.len() - k,
        {
            let (edge, style) = self.variants[k];
            proof {
                let pred = |x: (Edge<'a>, Style<T>)| x.0.spec_from() is None;
                assert(self.variants@.subrange(0, k as int + 1) =~= self.variants@.subrange(0, k as int).push(self.variants@[k as int]));
                reveal(Seq::filter);
                assert(self.variants@.subrange(0, k as int + 1).drop_last() =~= self.variants@.subrange(0, k as int));
            }
            if edge.from().is_none() {
                r.push((edge.to(), style));
                proof {
                    let pred = |x: (Edge<'a>, Style<T>)| x.0.spec_from() is None;
                    let f = |x: (Edge<'a>, Style<T>)| (x.0.spec_to(), x.1);
                    let prev = self.variants@.subrange(0, k as int).filter(pred);
                    assert(prev.push(self.variants@[k as int]).map_values(f) =~= prev.map_values(f).push(f(self.variants@[k as int])));
                }
            }
            k = k + 1;
        }
        proof {
            assert(self.variants@.subrange(0, self.variants@.len() as int) =~= self.variants@);
        }
        r
    }

    /// Returns the transitions of each pair of states: the source, target and
    /// transitions of every variant, in order.
    pub fn transition_arms(&self) -> (r: Vec<(Option<&'a str>, Option<&'a str>, Transitions<T>)>)
        ensures
            r@.len() == self.spec_variants().len(),
            forall|i: int| 0 <= i < r@.len() ==> #[trigger] r@[i] == (
                self.spec_variants()[i].0.spec_from(),
                self.spec_variants()[i].0.spec_to(),
                self.spec_variants()[i].1.transitions,
            ),
    {
        let mut r: Vec<(Option<&'a str>, Option<&'a str>, Transitions<T>)> = Vec::new();
        let mut k: usize = 0;
        while k < self.variants.len()
            invariant
                k <= self.variants@.len(),
                r@.len() == k,
                forall|i: int| 0 <= i < k ==> #[trigger] r@[i] == (
                    self.variants@[i].0.spec_from(),
                    self.variants@[i].0.spec_to(),
                    self.variants@[i].1.transitions,
                ),
            decreases self.variants@.len() - k,
        {
            let (edge, style) = self.variants[k];
            r.push((edge.from(), edge.to(), style.transitions));
            k = k + 1;
        }
        r
    }
}

} // verus!
