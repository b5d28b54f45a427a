use crate::render::{push_type, render_type, type_text};
use crate::seen::{seen_contains, seen_insert, seen_new, seen_texts};
use crate::text::same_text;
use crate::types::{TypeExpr, TypeShape};
use crate::views::{lemma_views_push, views_of};
use fxhash::FxHashSet;
use vstd::prelude::*;

verus! {

/// A requirement on the types that a generated struct and its conversions
/// mention.
#[derive(Clone, Debug, PartialEq, Eq)]
pub enum Bound {
    /// A value of `from` can be converted into one of `to`.
    Converts { from: TypeExpr, to: TypeExpr },
    /// `ty` has a default value.
    HasDefault { ty: TypeExpr },
    /// A requirement that the original struct declares, as it was written.
    Declared { text: String },
}

pub enum BoundView {
    Converts { from: TypeShape, to: TypeShape },
    HasDefault { ty: TypeShape },
    Declared { text: Seq<char> },
}

impl View for Bound {
    type V = BoundView;

    open spec fn view(&self) -> BoundView {
        match self {
            Bound::Converts { from, to } => BoundView::Converts { from: from@, to: to@ },
            Bound::HasDefault { ty } => BoundView::HasDefault { ty: ty@ },
            Bound::Declared { text } => BoundView::Declared { text: text@ },
        }
    }
}

/// A requirement as it is written in a `where` clause.
pub open spec fn bound_text(bound: BoundView) -> Seq<char> {
    match bound {
        BoundView::Converts { from, to } => type_text(from) + ": Into<"@ + type_text(to) + ">"@,
        BoundView::HasDefault { ty } => type_text(ty) + ": Default"@,
        BoundView::Declared { text } => text,
    }
}

/// Whether a list holds a requirement that is written as `text`.
pub open spec fn holds_text_of(bounds: Seq<BoundView>, text: Seq<char>) -> bool {
    exists|i: int| 0 <= i < bounds.len() && bound_text(#[trigger] bounds[i]) == text
}

/// A list of requirements with one more, unless the list holds one that is
/// written the same.
pub open spec fn with_bound(bounds: Seq<BoundView>, bound: BoundView) -> Seq<BoundView> {
    if holds_text_of(bounds, bound_text(bound)) {
        bounds
    } else {
        bounds.push(bound)
    }
}

/// A list of requirements with those of `more` from `from` on, each added in
/// turn unless the list holds by then one that is written the same.
pub open spec fn with_bounds(bounds: Seq<BoundView>, more: Seq<BoundView>, from: int) -> Seq<
    BoundView,
>
    decreases more.len() - from,
{
    if 0 <= from < more.len() {
        with_bounds(with_bound(bounds, more[from]), more, from + 1)
    } else {
        bounds
    }
}

/// Whether no two requirements of a list are written the same.
pub open spec fn no_bound_twice(bounds: Seq<BoundView>) -> bool {
    forall|i: int, j: int|
        0 <= i < j < bounds.len() ==> bound_text(#[trigger] bounds[i]) != bound_text(
            #[trigger] bounds[j],
        )
}

/// Adding a requirement keeps what was there, at the same places; the list
/// then holds one that is written like the new one, and is free of
/// repetitions if it was so before.
pub proof fn lemma_with_bound(bounds: Seq<BoundView>, bound: BoundView)
    ensures
        bounds.is_prefix_of(with_bound(bounds, bound)),
        holds_text_of(with_bound(bounds, bound), bound_text(bound)),
        no_bound_twice(bounds) ==> no_bound_twice(with_bound(bounds, bound)),
{
    let after = with_bound(bounds, bound);
    assert(after.take(bounds.len() as int) =~= bounds);
    if !holds_text_of(bounds, bound_text(bound)) {
        assert(bound_text(after[bounds.len() as int]) == bound_text(bound));
        if no_bound_twice(bounds) {
            assert forall|i: int, j: int| 0 <= i < j < after.len() implies bound_text(
                #[trigger] after[i],
            ) != bound_text(#[trigger] after[j]) by {
                assert(bounds[i] == after[i]);
                if j < bounds.len() {
                    assert(bounds[j] == after[j]);
                }
            }
        }
    } else {
        let i = choose|i: int| 0 <= i < bounds.len() && bound_text(#[trigger] bounds[i]) == bound_text(bound);
        assert(bound_text(after[i]) == bound_text(bound));
    }
}

/// Adding requirements keeps what was there, at the same places, and keeps
/// a list free of repetitions so.
pub proof fn lemma_with_bounds(bounds: Seq<BoundView>, more: Seq<BoundView>, from: int)
    ensures
        bounds.is_prefix_of(with_bounds(bounds, more, from)),
        no_bound_twice(bounds) ==> no_bound_twice(with_bounds(bounds, more, from)),
    decreases more.len() - from,
{
    if 0 <= from < more.len() {
        let next = with_bound(bounds, more[from]);
        lemma_with_bound(bounds, more[from]);
        lemma_with_bounds(next, more, from + 1);
        let all = with_bounds(next, more, from + 1);
        assert(bounds =~= all.take(bounds.len() as int)) by {
            assert(next == all.take(next.len() as int));
            assert(bounds == next.take(bounds.len() as int));
        }
    } else {
        assert(bounds.take(bounds.len() as int) =~= bounds);
    }
}

impl Bound {
    /// A copy of the requirement.
    pub fn duplicate(&self) -> (copy: Bound)
        ensures
            copy@ == self@,
    {
        match self {
            Bound::Converts { from, to } => Bound::Converts {
                from: from.duplicate(),
                to: to.duplicate(),
            },
            Bound::HasDefault { ty } => Bound::HasDefault { ty: ty.duplicate() },
            Bound::Declared { text } => Bound::Declared { text: text.clone() },
        }
    }
}

/// The text of a requirement.
pub fn render_bound(bound: &Bound) -> (text: String)
    ensures
        text@ == bound_text(bound@),
{
    match bound {
        Bound::Converts { from, to } => {
            let mut text = render_type(from);
            text.append(": Into<");
            push_type(&mut text, to);
            text.append(">");
            text
        },
        Bound::HasDefault { ty } => {
            let mut text = render_type(ty);
            text.append(": Default");
            text
        },
        Bound::Declared { text } => text.clone(),
    }
}

/// Tests whether a list holds a requirement that is written like `bound`.
pub fn holds_bound(bounds: &Vec<Bound>, bound: &Bound) -> (holds: bool)
    ensures
        holds == holds_text_of(views_of(bounds@), bound_text(bound@)),
{
    let text = render_bound(bound);
    let mut i: usize = 0;
    while i < bounds.len()
        invariant
            i <= bounds.len(),
            text@ == bound_text(bound@),
            forall|k: int| 0 <= k < i ==> bound_text(#[trigger] views_of(bounds@)[k]) != text@,
        decreases bounds.len() - i,
    {
        let other = render_bound(&bounds[i]);
        assert(views_of(bounds@)[i as int] == bounds[i as int]@);
        if same_text(other.as_str(), text.as_str()) {
            return true;
        }
        i = i + 1;
    }
    false
}

/// Adds a requirement to a list unless the list holds one that is written
/// the same.
pub fn push_unique(bounds: &mut Vec<Bound>, bound: Bound)
    ensures
        views_of(final(bounds)@) == with_bound(views_of(old(bounds)@), bound@),
{
    if !holds_bound(bounds, &bound) {
        proof {
            lemma_views_push(bounds@, bound);
        }
        bounds.push(bound);
    }
}

/// Whether a set of texts holds exactly the texts of the requirements of a
/// list.
pub open spec fn texts_seen(bounds: Seq<BoundView>, seen: Set<Seq<char>>) -> bool {
    forall|text: Seq<char>| #[trigger] seen.contains(text) <==> holds_text_of(bounds, text)
}

/// A list with one more requirement holds what it held, and the text of the
/// new one.
pub proof fn lemma_holds_after_push(bounds: Seq<BoundView>, bound: BoundView, text: Seq<char>)
    ensures
        holds_text_of(bounds.push(bound), text) <==> holds_text_of(bounds, text) || bound_text(bound)
            == text,
{
    let after = bounds.push(bound);
    if holds_text_of(bounds, text) {
        let i = choose|i: int| 0 <= i < bounds.len() && bound_text(#[trigger] bounds[i]) == text;
        assert(bound_text(after[i]) == text);
    }
    if bound_text(bound) == text {
        assert(bound_text(after[bounds.len() as int]) == text);
    }
    if holds_text_of(after, text) {
        let i = choose|i: int| 0 <= i < after.len() && bound_text(#[trigger] after[i]) == text;
        if i < bounds.len() {
            assert(bound_text(bounds[i]) == text);
        }
    }
}

/// The set of the texts of the requirements of a list.
pub fn texts_of(bounds: &Vec<Bound>) -> (seen: FxHashSet<String>)
    ensures
        texts_seen(views_of(bounds@), seen_texts(seen)),
{
    let mut seen = seen_new();
    let ghost all = views_of(bounds@);
    let mut i: usize = 0;
    while i < bounds.len()
        invariant
            i <= bounds.len(),
            all == views_of(bounds@),
            texts_seen(all.take(i as int), seen_texts(seen)),
        decreases bounds.len() - i,
    {
        let text = render_bound(&bounds[i]);
        let ghost before = seen_texts(seen);
        seen_insert(&mut seen, text);
        proof {
            assert(all.take(i + 1) =~= all.take(i as int).push(all[i as int]));
            assert forall|t: Seq<char>| #[trigger]
                seen_texts(seen).contains(t) <==> holds_text_of(all.take(i + 1), t) by {
                lemma_holds_after_push(all.take(i as int), all[i as int], t);
                assert(before.contains(t) <==> holds_text_of(all.take(i as int), t));
            }
        }
        i = i + 1;
    }
    assert(all.take(bounds.len() as int) =~= all);
    seen
}

/// Adds the requirements of `more` to a list, in order, each unless the list
/// holds by then one that is written the same. `seen` holds the texts of the
/// requirements of the list, before and after.
pub fn push_all_unseen(bounds: &mut Vec<Bound>, seen: &mut FxHashSet<String>, more: &Vec<Bound>)
    requires
        texts_seen(views_of(old(bounds)@), seen_texts(*old(seen))),
    ensures
        views_of(final(bounds)@) == with_bounds(views_of(old(bounds)@), views_of(more@), 0),
        texts_seen(views_of(final(bounds)@), seen_texts(*final(seen))),
{
    let mut i: usize = 0;
    while i < more.len()
        invariant
            i <= more.len(),
            texts_seen(views_of(bounds@), seen_texts(*seen)),
            with_bounds(views_of(old(bounds)@), views_of(more@), 0) == with_bounds(
                views_of(bounds@),
                views_of(more@),
                i as int,
            ),
        decreases more.len() - i,
    {
        let text = render_bound(&more[i]);
        assert(views_of(more@)[i as int] == more[i as int]@);
        let found = seen_contains(seen, text.as_str());
        assert(found == holds_text_of(views_of(bounds@), text@));
        if !found {
            let bound = more[i].duplicate();
            let ghost list = views_of(bounds@);
            let ghost texts = seen_texts(*seen);
            proof {
                lemma_views_push(bounds@, bound);
            }
            bounds.push(bound);
            seen_insert(seen, text);
            proof {
                assert forall|t: Seq<char>| #[trigger]
                    seen_texts(*seen).contains(t) <==> holds_text_of(views_of(bounds@), t) by {
                    lemma_holds_after_push(list, bound@, t);
                    assert(texts.contains(t) <==> holds_text_of(list, t));
                }
            }
        }
        i = i + 1;
    }
}

} // verus!
