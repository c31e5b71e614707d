//! The automaton of animation variants: for each edge between states, the
//! properties that apply along it.

use vstd::prelude::*;
use crate::scalar::Scalar;
use crate::text::str_eq;
use super::driver::{Item, Property, Rule, Selector};
use super::types::Style;
use super::style::{spec_last, select_opacity, select_transform};

verus! {

/// The names of the two ends of an edge, by their characters.
pub struct EdgeView {
    /// The state that the edge comes from, if it is restricted.
    pub from: Option<Seq<char>>,
    /// The state that the edge goes to, if it is restricted.
    pub to: Option<Seq<char>>,
}

/// The characters of an optional name.
pub open spec fn name_view(name: Option<&str>) -> Option<Seq<char>> {
    match name {
        Some(s) => Some(s@),
        None => None,
    }
}

/// A transition between two states, each of which may be left open (`*`).
#[derive(Copy, Clone, Debug, Eq, PartialEq, Hash)]
pub struct Edge<'a> {
    from: Option<&'a str>,
    to: Option<&'a str>,
}

impl<'a> Edge<'a> {
    /// The state that the edge comes from.
    pub closed spec fn spec_from(self) -> Option<&'a str> {
        self.from
    }

    /// The state that the edge goes to.
    pub closed spec fn spec_to(self) -> Option<&'a str> {
        self.to
    }

    /// The names of both ends by their characters.
    pub open spec fn view(self) -> EdgeView {
        EdgeView { from: name_view(self.spec_from()), to: name_view(self.spec_to()) }
    }

    /// Returns a new edge between the given states.
    pub fn new(from: Option<&'a str>, to: Option<&'a str>) -> (r: Edge<'a>)
        ensures
            r.spec_from() == from,
            r.spec_to() == to,
    {
        Edge { from, to }
    }

    /// Returns the edge between any two states.
    pub fn asterisk() -> (r: Edge<'a>)
        ensures
            r.spec_from() == None::<&'a str>,
            r.spec_to() == None::<&'a str>,
    {
        Edge::new(None, None)
    }

    /// Returns the state that this edge comes from.
    pub fn from(&self) -> (r: Option<&'a str>)
        ensures
            r == self.spec_from(),
    {
        self.from
    }

    /// Returns the state that this edge goes to.
    pub fn to(&self) -> (r: Option<&'a str>)
        ensures
            r == self.spec_to(),
    {
        self.to
    }

    /// Returns how specific this edge is: 3 with both ends, 2 with only a
    /// target, 1 with only a source and 0 with neither.
    pub fn presedence(&self) -> (r: usize)
        ensures
            r == (match (self.spec_from(), self.spec_to()) {
                (Some(_), Some(_)) => 3usize,
                (None, Some(_)) => 2usize,
                (Some(_), None) => 1usize,
                (None, None) => 0usize,
            }),
    {
        match (&self.from, &self.to) {
            (Some(_), Some(_)) => 3,
            (None, Some(_)) => 2,
            (Some(_), None) => 1,
            (None, None) => 0,
        }
    }

    /// Returns this edge with its source left open.
    pub fn without_from(&self) -> (r: Edge<'a>)
        ensures
            r.spec_from() == None::<&'a str>,
            r.spec_to() == self.spec_to(),
    {
        Edge::new(None, self.to)
    }

    /// Returns this edge with its target left open.
    pub fn without_to(&self) -> (r: Edge<'a>)
        ensures
            r.spec_from() == self.spec_from(),
            r.spec_to() == None::<&'a str>,
    {
        Edge::new(self.from, None)
    }
}

/// Returns whether the two optional names hold the same characters.
fn name_eq(a: Option<&str>, b: Option<&str>) -> (r: bool)
    ensures
        r == (name_view(a) == name_view(b)),
{
    match (a, b) {
        (Some(x), Some(y)) => str_eq(x, y),
        (None, None) => true,
        _ => false,
    }
}

/// Returns whether the two edges join states of the same names.
pub fn edge_eq(a: &Edge, b: &Edge) -> (r: bool)
    ensures
        r == (a.view() == b.view()),
{
    name_eq(a.from(), b.from()) && name_eq(a.to(), b.to())
}

/// The name that a selector restricts the source to, if it is a `:from(..)`
/// selector.
pub open spec fn spec_from_name(s: Selector) -> Option<Seq<char>> {
    match s {
        Selector::FromClassName(name) => Some(name@),
        Selector::FromState(name) => Some(name@),
        _ => None,
    }
}

/// The edge of a rule with the given selectors nested in a rule of the given
/// edge: `&` keeps the target of the enclosing edge, a class name or a state
/// sets the target, and a `:from(..)` after either sets the source; a
/// `:from(..)` alone sets only the source. `None` where this is not
/// handled: no selector, or `&` under an edge without a target.
pub open spec fn spec_build_edge(edge: EdgeView, selectors: Seq<Selector>) -> Option<EdgeView> {
    if selectors.len() == 0 {
        None
    } else {
        let from = if selectors.len() > 1 {
            spec_from_name(selectors[1])
        } else {
            None
        };
        match selectors[0] {
            Selector::Ampersand => if edge.to is Some {
                Some(EdgeView { from, to: edge.to })
            } else {
                None
            },
            Selector::ClassName(to) => Some(EdgeView { from, to: Some(to@) }),
            Selector::State(to) => Some(EdgeView { from, to: Some(to@) }),
            Selector::FromClassName(f) => Some(EdgeView { from: Some(f@), to: None }),
            Selector::FromState(f) => Some(EdgeView { from: Some(f@), to: None }),
        }
    }
}

/// No two entries have the same edge.
pub open spec fn spec_keys_unique<P>(styles: Seq<(EdgeView, Seq<P>)>) -> bool {
    forall|i: int, j: int| 0 <= i < j < styles.len() ==> #[trigger] styles[i].0 != #[trigger] styles[j].0
}

/// The entries with the given properties appended to those of `key`, which
/// is added at the end if it has no entry.
pub open spec fn spec_extend<P>(styles: Seq<(EdgeView, Seq<P>)>, key: EdgeView, props: Seq<P>) -> Seq<(EdgeView, Seq<P>)> {
    if exists|i: int| 0 <= i < styles.len() && styles[i].0 == key {
        let i = choose|i: int| 0 <= i < styles.len() && styles[i].0 == key;
        styles.update(i, (key, styles[i].1 + props))
    } else {
        styles.push((key, props))
    }
}

/// The properties of the entry of `key`, none if it has no entry.
pub open spec fn spec_lookup<P>(styles: Seq<(EdgeView, Seq<P>)>, key: EdgeView) -> Seq<P> {
    if exists|i: int| 0 <= i < styles.len() && styles[i].0 == key {
        styles[choose|i: int| 0 <= i < styles.len() && styles[i].0 == key].1
    } else {
        Seq::empty()
    }
}

/// The entries after adding the items of a rule with the given edge: the
/// nested rules first, in order, then the properties of this rule appended
/// to the entry of its edge. `None` where an edge is not handled (see
/// `spec_build_edge`).
pub open spec fn spec_build_items<Sp, T: Scalar>(
    edge: EdgeView,
    items: Seq<Item<Sp, T>>,
    styles: Seq<(EdgeView, Seq<Property<Sp, T>>)>,
) -> Option<Seq<(EdgeView, Seq<Property<Sp, T>>)>>
    decreases items, items.len() + 1,
{
    match spec_items_fold(edge, items, items.len() as int, styles) {
        Some((props, st)) => Some(spec_extend(st, edge, props)),
        None => None,
    }
}

/// The properties among the first `n` items and the entries after the
/// nested rules among them.
pub open spec fn spec_items_fold<Sp, T: Scalar>(
    edge: EdgeView,
    items: Seq<Item<Sp, T>>,
    n: int,
    styles: Seq<(EdgeView, Seq<Property<Sp, T>>)>,
) -> Option<(Seq<Property<Sp, T>>, Seq<(EdgeView, Seq<Property<Sp, T>>)>)>
    decreases items, n,
{
    if n <= 0 || n > items.len() {
        Some((Seq::empty(), styles))
    } else {
        match spec_items_fold(edge, items, n - 1, styles) {
            None => None,
            Some((props, st)) => match items[n - 1] {
                Item::Property(p) => Some((props.push(p), st)),
                Item::Rule(r) => {
                    proof {
                        assert(decreases_to!(items => items[n - 1]));
                    }
                    match spec_build_edge(edge, r.selectors@) {
                        None => None,
                        Some(e) => match spec_build_items(e, r.items@, st) {
                            None => None,
                            Some(st2) => Some((props, st2)),
                        },
                    }
                },
            },
        }
    }
}

/// The entries of a list of edges with their properties, by the names of the
/// edges.
pub open spec fn styles_view<'a, P>(v: Seq<(Edge<'a>, Vec<P>)>) -> Seq<(EdgeView, Seq<P>)> {
    Seq::new(v.len(), |i: int| (v[i].0.view(), v[i].1@))
}

/// A failed fold stays failed: if the first `n` items fold, so do the first
/// `i` for every `i <= n`.
proof fn lemma_fold_prefix<Sp, T: Scalar>(
    edge: EdgeView,
    items: Seq<Item<Sp, T>>,
    i: int,
    n: int,
    styles: Seq<(EdgeView, Seq<Property<Sp, T>>)>,
)
    requires
        0 <= i <= n <= items.len(),
        spec_items_fold(edge, items, n, styles) is Some,
    ensures
        spec_items_fold(edge, items, i, styles) is Some,
    decreases n - i,
{
    if i < n {
        lemma_fold_prefix(edge, items, i, n - 1, styles);
    }
}

/// Appends `props` to the entry of `edge`, adding the entry at the end if
/// there is none.
fn extend_entry<'a, P: Copy>(styles: &mut Vec<(Edge<'a>, Vec<P>)>, edge: Edge<'a>, props: Vec<P>)
    requires
        spec_keys_unique(styles_view(old(styles)@)),
    ensures
        styles_view(final(styles)@) == spec_extend(styles_view(old(styles)@), edge.view(), props@),
        spec_keys_unique(styles_view(final(styles)@)),
{
    let ghost old_view = styles_view(styles@);
    let mut k: usize = 0;
    while k < styles.len()
        invariant
            k <= styles@.len(),
            old_view == styles_view(styles@),
            forall|j: int| 0 <= j < k ==> old_view[j].0 != edge.view(),
        ensures
            k <= styles@.len(),
            old_view == styles_view(styles@),
            forall|j: int| 0 <= j < k ==> old_view[j].0 != edge.view(),
            k < styles@.len() ==> old_view[k as int].0 == edge.view(),
        decreases styles@.len() - k,
    {
        if edge_eq(&styles[k].0, &edge) {
            break;
        }
        k = k + 1;
    }
    if k < styles.len() {
        let (e, mut ps) = styles.remove(k);
        let ghost before = ps@;
        let mut j: usize = 0;
        while j < props.len()
            invariant
                j <= props@.len(),
                ps@ == before + props@.subrange(0, j as int),
            decreases props@.len() - j,
        {
            ps.push(props[j]);
            j = j + 1;
            assert(before + props@.subrange(0, j as int) =~= (before + props@.subrange(0, j as int - 1)).push(props@[j as int - 1]));
        }
        assert(props@.subrange(0, props@.len() as int) =~= props@);
        styles.insert(k, (e, ps));
        proof {
            assert(old_view[k as int].0 == edge.view());
            let i = choose|i: int| 0 <= i < old_view.len() && old_view[i].0 == edge.view();
            assert(i == k);
            assert(styles_view(styles@) =~= old_view.update(k as int, (edge.view(), old_view[k as int].1 + props@)));
        }
    } else {
        styles.push((edge, props));
        proof {
            assert(styles_view(styles@) =~= old_view.push((edge.view(), props@)));
        }
    }
}

/// Returns the edge of a rule with the given selectors nested in a rule of
/// the given edge.
fn build_edge<'a>(edge: Edge<'a>, selectors: &'a [Selector]) -> (r: Edge<'a>)
    requires
        spec_build_edge(edge.view(), selectors@) is Some,
    ensures
        r.view() == spec_build_edge(edge.view(), selectors@)->0,
{
    let from: Option<&'a str> = if selectors.len() > 1 {
        match &selectors[1] {
            Selector::FromClassName(name) => Some(name.as_str()),
            Selector::FromState(name) => Some(name.as_str()),
            _ => None,
        }
    } else {
        None
    };
    match &selectors[0] {
        Selector::Ampersand => Edge::new(from, edge.to()),
        Selector::ClassName(to) => Edge::new(from, Some(to.as_str())),
        Selector::State(to) => Edge::new(from, Some(to.as_str())),
        Selector::FromClassName(f) => Edge::new(Some(f.as_str()), None),
        Selector::FromState(f) => Edge::new(Some(f.as_str()), None),
    }
}

/// Adds the items of a rule with the given edge: the nested rules first, in
/// order, then the properties of this rule.
fn build_items<'a, Sp: Copy, T: Scalar>(
    styles: &mut Vec<(Edge<'a>, Vec<Property<Sp, T>>)>,
    edge: Edge<'a>,
    items: &'a [Item<Sp, T>],
)
    requires
        spec_keys_unique(styles_view(old(styles)@)),
        spec_build_items(edge.view(), items@, styles_view(old(styles)@)) is Some,
    ensures
        spec_keys_unique(styles_view(final(styles)@)),
        Some(styles_view(final(styles)@)) == spec_build_items(edge.view(), items@, styles_view(old(styles)@)),
    decreases items@, items@.len() + 1,
{
    let ghost start = styles_view(styles@);
    let mut properties: Vec<Property<Sp, T>> = Vec::new();
    let mut i: usize = 0;
    while i < items.len()
        invariant
            i <= items@.len(),
            spec_keys_unique(styles_view(styles@)),
            spec_items_fold(edge.view(), items@, items@.len() as int, start) is Some,
            spec_items_fold(edge.view(), items@, i as int, start) == Some((properties@, styles_view(styles@))),
        decreases items@.len() - i,
    {
        proof {
            lemma_fold_prefix(edge.view(), items@, i as int + 1, items@.len() as int, start);
        }
        match &items[i] {
            Item::Property(p) => {
                properties.push(*p);
            },
            Item::Rule(rule) => {
                proof {
                    assert(decreases_to!(items@ => items@[i as int]));
                }
                let e = build_edge(edge, rule.selectors.as_slice());
                build_items(styles, e, rule.items.as_slice());
            },
        }
        i = i + 1;
    }
    extend_entry(styles, edge, properties);
}

/// Every rule among the items has an edge that is handled (see
/// `spec_build_edge`), and so do the rules nested in it.
pub open spec fn spec_edges_handled<Sp, T: Scalar>(edge: EdgeView, items: Seq<Item<Sp, T>>) -> bool
    decreases items, items.len() + 1,
{
    spec_edges_handled_prefix(edge, items, items.len() as int)
}

/// Every rule among the first `n` items has an edge that is handled, and so
/// do the rules nested in it.
pub open spec fn spec_edges_handled_prefix<Sp, T: Scalar>(edge: EdgeView, items: Seq<Item<Sp, T>>, n: int) -> bool
    decreases items, n,
{
    if n <= 0 || n > items.len() {
        true
    } else {
        spec_edges_handled_prefix(edge, items, n - 1) && match items[n - 1] {
            Item::Property(_) => true,
            Item::Rule(r) => {
                proof {
                    assert(decreases_to!(items => items[n - 1]));
                }
                match spec_build_edge(edge, r.selectors@) {
                    None => false,
                    Some(e) => spec_edges_handled(e, r.items@),
                }
            },
        }
    }
}

/// Building the entries succeeds exactly when every edge is handled,
/// whatever the entries are to begin with.
proof fn lemma_build_items_some<Sp, T: Scalar>(
    edge: EdgeView,
    items: Seq<Item<Sp, T>>,
    styles: Seq<(EdgeView, Seq<Property<Sp, T>>)>,
)
    ensures
        spec_build_items(edge, items, styles) is Some <==> spec_edges_handled(edge, items),
    decreases items, items.len() + 1,
{
    lemma_items_fold_some(edge, items, items.len() as int, styles);
}

/// Folding the first `n` items succeeds exactly when every edge among them
/// is handled.
proof fn lemma_items_fold_some<Sp, T: Scalar>(
    edge: EdgeView,
    items: Seq<Item<Sp, T>>,
    n: int,
    styles: Seq<(EdgeView, Seq<Property<Sp, T>>)>,
)
    ensures
        spec_items_fold(edge, items, n, styles) is Some <==> spec_edges_handled_prefix(edge, items, n),
    decreases items, n,
{
    if n <= 0 || n > items.len() {
    } else {
        lemma_items_fold_some(edge, items, n - 1, styles);
        match spec_items_fold(edge, items, n - 1, styles) {
            None => {},
            Some((props, st)) => match items[n - 1] {
                Item::Property(_) => {},
                Item::Rule(r) => {
                    assert(decreases_to!(items => items[n - 1]));
                    match spec_build_edge(edge, r.selectors@) {
                        None => {},
                        Some(e) => {
                            lemma_build_items_some(e, r.items@, st);
                        },
                    }
                },
            },
        }
    }
}

/// If the first `n` items have handled edges, so do the first `i` for every
/// `i <= n`.
proof fn lemma_handled_prefix<Sp, T: Scalar>(edge: EdgeView, items: Seq<Item<Sp, T>>, i: int, n: int)
    requires
        0 <= i <= n <= items.len(),
        spec_edges_handled_prefix(edge, items, n),
    ensures
        spec_edges_handled_prefix(edge, items, i),
    decreases n - i,
{
    if i < n {
        lemma_handled_prefix(edge, items, i, n - 1);
    }
}

/// Returns whether every rule among the items of a rule with the given edge
/// has an edge that is handled, and so do the rules nested in them.
fn edges_handled<'a, Sp, T: Scalar>(edge: Edge<'a>, items: &'a [Item<Sp, T>]) -> (r: bool)
    ensures
        r == spec_edges_handled(edge.view(), items@),
    decreases items@, items@.len() + 1,
{
    let mut i: usize = 0;
    while i < items.len()
        invariant
            i <= items@.len(),
            spec_edges_handled_prefix(edge.view(), items@, i as int),
        decreases items@.len() - i,
    {
        match &items[i] {
            Item::Property(_) => {},
            Item::Rule(rule) => {
                proof {
                    assert(decreases_to!(items@ => items@[i as int]));
                }
                if rule.selectors.len() == 0 {
                    proof {
                        if spec_edges_handled(edge.view(), items@) {
                            lemma_handled_prefix(edge.view(), items@, i as int + 1, items@.len() as int);
                        }
                    }
                    return false;
                }
                if let Selector::Ampersand = &rule.selectors[0] {
                    if edge.to().is_none() {
                        proof {
                        if spec_edges_handled(edge.view(), items@) {
                            lemma_handled_prefix(edge.view(), items@, i as int + 1, items@.len() as int);
                        }
                    }
                    return false;
                    }
                }
                let e = build_edge(edge, rule.selectors.as_slice());
                if !edges_handled(e, rule.items.as_slice()) {
                    proof {
                        if spec_edges_handled(edge.view(), items@) {
                            lemma_handled_prefix(edge.view(), items@, i as int + 1, items@.len() as int);
                        }
                    }
                    return false;
                }
            },
        }
        i = i + 1;
    }
    true
}

/// The style after applying the first `n` properties, in order, to `style`.
pub open spec fn spec_apply_all<Sp, T: Scalar>(props: Seq<Property<Sp, T>>, n: int, style: Style<T>) -> Style<T>
    decreases n,
{
    if n <= 0 {
        style
    } else {
        props[n - 1].value.spec_apply(spec_apply_all(props, n - 1, style))
    }
}

/// The style of a variant: the default, then the properties of the edge
/// between any two states, of the edge from the source, of the edge to the
/// target and of the edge itself.
pub open spec fn spec_style<Sp, T: Scalar>(styles: Seq<(EdgeView, Seq<Property<Sp, T>>)>, edge: EdgeView) -> Style<T> {
    let a = spec_lookup(styles, EdgeView { from: None, to: None });
    let b = spec_lookup(styles, EdgeView { from: edge.from, to: None });
    let c = spec_lookup(styles, EdgeView { from: None, to: edge.to });
    let d = spec_lookup(styles, edge);
    let s0 = spec_apply_all(a, a.len() as int, Style::spec_default());
    let s1 = spec_apply_all(b, b.len() as int, s0);
    let s2 = spec_apply_all(c, c.len() as int, s1);
    spec_apply_all(d, d.len() as int, s2)
}

/// Applying properties in order leaves the opacity of the last one that sets
/// it, and the transforms of the last one that sets them.
pub proof fn applying_properties_keeps_the_last_values<Sp, T: Scalar>(
    props: Seq<Property<Sp, T>>,
    n: int,
    style: Style<T>,
)
    requires
        0 <= n <= props.len(),
    ensures
        spec_apply_all(props, n, style).opacity == spec_last(props, n, |v| select_opacity(v), style.opacity),
        spec_apply_all(props, n, style).transform == spec_last(props, n, |v| select_transform(v), style.transform),
    decreases n,
{
    if n > 0 {
        applying_properties_keeps_the_last_values(props, n - 1, style);
    }
}

/// The opacity of a variant is set by the most specific edge that sets it:
/// the edge itself, then the edge to its target, the edge from its source
/// and the edge between any two states; with none, it is fully opaque.
pub proof fn the_most_specific_opacity_wins<Sp, T: Scalar>(
    styles: Seq<(EdgeView, Seq<Property<Sp, T>>)>,
    edge: EdgeView,
)
    ensures
        ({
            let sel = |v| select_opacity(v);
            let a = spec_lookup(styles, EdgeView { from: None, to: None });
            let b = spec_lookup(styles, EdgeView { from: edge.from, to: None });
            let c = spec_lookup(styles, EdgeView { from: None, to: edge.to });
            let d = spec_lookup(styles, edge);
            spec_style(styles, edge).opacity == spec_last(
                d,
                d.len() as int,
                sel,
                spec_last(
                    c,
                    c.len() as int,
                    sel,
                    spec_last(b, b.len() as int, sel, spec_last(a, a.len() as int, sel, T::spec_one())),
                ),
            )
        }),
{
    let a = spec_lookup(styles, EdgeView { from: None, to: None });
    let b = spec_lookup(styles, EdgeView { from: edge.from, to: None });
    let c = spec_lookup(styles, EdgeView { from: None, to: edge.to });
    let d = spec_lookup(styles, edge);
    let s0 = spec_apply_all(a, a.len() as int, Style::spec_default());
    let s1 = spec_apply_all(b, b.len() as int, s0);
    let s2 = spec_apply_all(c, c.len() as int, s1);
    applying_properties_keeps_the_last_values(a, a.len() as int, Style::spec_default());
    applying_properties_keeps_the_last_values(b, b.len() as int, s0);
    applying_properties_keeps_the_last_values(c, c.len() as int, s1);
    applying_properties_keeps_the_last_values(d, d.len() as int, s2);
}

/// For each edge of a style sheet, the properties that apply along it.
pub struct Automaton<'a, Sp, T: Scalar> {
    styles: Vec<(Edge<'a>, Vec<Property<Sp, T>>)>,
}

impl<'a, Sp, T: Scalar> Automaton<'a, Sp, T> {
    #[verifier::type_invariant]
    spec fn inv(self) -> bool {
        spec_keys_unique(styles_view(self.styles@))
    }

    /// The edges of this automaton, each with its properties in order.
    pub closed spec fn spec_styles(self) -> Seq<(EdgeView, Seq<Property<Sp, T>>)> {
        styles_view(self.styles@)
    }
}

impl<'a, Sp: Copy, T: Scalar> Automaton<'a, Sp, T> {
    /// Returns whether the automaton of the items of a style sheet can be
    /// built: every rule has an edge that is handled (see `spec_build_edge`).
    pub fn is_buildable(items: &'a [Item<Sp, T>]) -> (r: bool)
        ensures
            r == spec_build_items(EdgeView { from: None, to: None }, items@, Seq::empty()) is Some,
    {
        proof {
            lemma_build_items_some(EdgeView { from: None, to: None }, items@, Seq::empty());
        }
        edges_handled(Edge::asterisk(), items)
    }

    /// Builds the automaton of the items of a style sheet, whose own edge is
    /// the edge between any two states.
    pub fn new(items: &'a [Item<Sp, T>]) -> (r: Automaton<'a, Sp, T>)
        requires
            spec_build_items(EdgeView { from: None, to: None }, items@, Seq::empty()) is Some,
        ensures
            Some(r.spec_styles()) == spec_build_items(EdgeView { from: None, to: None }, items@, Seq::empty()),
    {
        let mut styles: Vec<(Edge<'a>, Vec<Property<Sp, T>>)> = Vec::new();
        assert(styles_view(styles@) =~= Seq::<(EdgeView, Seq<Property<Sp, T>>)>::empty());
        build_items(&mut styles, Edge::asterisk(), items);
        Automaton { styles }
    }

    /// Applies the properties of the given edge, in order, to the given
    /// style.
    pub fn apply(&self, edge: Edge, style: &mut Style<T>)
        ensures
            ({
                let props = spec_lookup(self.spec_styles(), edge.view());
                *final(style) == spec_apply_all(props, props.len() as int, *old(style))
            }),
    {
        proof {
            use_type_invariant(self);
        }
        let ghost v = self.spec_styles();
        let mut k: usize = 0;
        while k < self.styles.len()
            invariant
                k <= self.styles@.len(),
                v == styles_view(self.styles@),
                forall|j: int| 0 <= j < k ==> v[j].0 != edge.view(),
            ensures
                k <= self.styles@.len(),
                v == styles_view(self.styles@),
                forall|j: int| 0 <= j < k ==> v[j].0 != edge.view(),
                k < self.styles@.len() ==> v[k as int].0 == edge.view(),
            decreases self.styles@.len() - k,
        {
            if edge_eq(&self.styles[k].0, &edge) {
                break;
            }
            k = k + 1;
        }
        if k < self.styles.len() {
            proof {
                assert(v[k as int].0 == edge.view());
                let i = choose|i: int| 0 <= i < v.len() && v[i].0 == edge.view();
                assert(i == k);
            }
            let props = &self.styles[k].1;
            let ghost start = *style;
            let mut j: usize = 0;
            while j < props.len()
                invariant
                    j <= props@.len(),
                    *style == spec_apply_all(props@, j as int, start),
                decreases props@.len() - j,
            {
                props[j].value.apply(style);
                j = j + 1;
            }
        }
    }

    /// Returns the style of the given edge: the default style with the
    /// properties of the edge between any two states, of the edge from its
    /// source, of the edge to its target and of the edge itself applied in
    /// that order.
    pub fn style(&self, edge: Edge) -> (r: Style<T>)
        ensures
            r == spec_style(self.spec_styles(), edge.view()),
    {
        let mut style = Style::default();
        self.apply(Edge::asterisk(), &mut style);
        self.apply(edge.without_to(), &mut style);
        self.apply(edge.without_from(), &mut style);
        self.apply(edge, &mut style);
        style
    }

    /// Returns every edge of this automaton, in the order in which the edges
    /// were first given properties, with its style.
    pub fn variants(&self) -> (r: Vec<(Edge<'a>, Style<T>)>)
        ensures
            r@.len() == self.spec_styles().len(),
            forall|i: int| 0 <= i < r@.len() ==> (#[trigger] r@[i]).0.view() == self.spec_styles()[i].0
                && r@[i].1 == spec_style(self.spec_styles(), self.spec_styles()[i].0),
    {
        let mut r: Vec<(Edge<'a>, Style<T>)> = Vec::new();
        let mut k: usize = 0;
        while k < self.styles.len()
            invariant
                k <= self.styles@.len(),
                r@.len() == k,
                forall|i: int| 0 <= i < k ==> (#[trigger] r@[i]).0.view() == self.spec_styles()[i].0
                    && r@[i].1 == spec_style(self.spec_styles(), self.spec_styles()[i].0),
            decreases self.styles@.len() - k,
        {
            let edge = self.styles[k].0;
            let style = self.style(edge);
            r.push((edge, style));
            k = k + 1;
        }
        r
    }
}

} // verus!
