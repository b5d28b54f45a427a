use crate::types::{lemma_named_args, lemma_tuple_elems, TypeExpr, TypeShape};
use crate::views::views_of;
use vstd::prelude::*;

verus! {

// ---------------------------------------------------------------------------
// Lists of texts
// ---------------------------------------------------------------------------

/// The texts of `parts` one after the other, with `separator` between each
/// two.
pub open spec fn joined(parts: Seq<Seq<char>>, separator: Seq<char>) -> Seq<char>
    decreases parts.len(),
{
    if parts.len() == 0 {
        Seq::empty()
    } else if parts.len() == 1 {
        parts[0]
    } else {
        joined(parts.drop_last(), separator) + separator + parts.last()
    }
}

/// The texts of `parts` one after the other, each between `before` and
/// `after`.
pub open spec fn wrapped(parts: Seq<Seq<char>>, before: Seq<char>, after: Seq<char>) -> Seq<char>
    decreases parts.len(),
{
    if parts.len() == 0 {
        Seq::empty()
    } else {
        wrapped(parts.drop_last(), before, after) + before + parts.last() + after
    }
}

/// Appends the texts of `parts` to `out`, with `separator` between each two.
pub fn push_joined(out: &mut String, parts: &Vec<String>, separator: &str)
    ensures
        final(out)@ == old(out)@ + joined(parts.deep_view(), separator@),
{
    let ghost start = out@;
    let ghost texts = parts.deep_view();
    assert(texts.take(0) =~= Seq::empty());
    assert(out@ =~= start + joined(texts.take(0), separator@));
    let mut i: usize = 0;
    while i < parts.len()
        invariant
            i <= parts.len(),
            texts == parts.deep_view(),
            out@ == start + joined(texts.take(i as int), separator@),
        decreases parts.len() - i,
    {
        if i > 0 {
            out.append(separator);
        }
        out.append(parts[i].as_str());
        proof {
            let now = texts.take(i + 1);
            assert(now.drop_last() =~= texts.take(i as int));
            assert(now.last() == parts[i as int]@);
            if i > 0 {
                assert(out@ =~= start + joined(now, separator@));
            } else {
                assert(joined(texts.take(0), separator@) =~= Seq::<char>::empty());
                assert(out@ =~= start + joined(now, separator@));
            }
        }
        i = i + 1;
    }
    assert(texts.take(parts.len() as int) =~= texts);
}

/// Appends the texts of `parts` to `out`, each between `before` and `after`.
pub fn push_wrapped(out: &mut String, parts: &Vec<String>, before: &str, after: &str)
    ensures
        final(out)@ == old(out)@ + wrapped(parts.deep_view(), before@, after@),
{
    let ghost start = out@;
    let ghost texts = parts.deep_view();
    assert(texts.take(0) =~= Seq::empty());
    assert(out@ =~= start + wrapped(texts.take(0), before@, after@));
    let mut i: usize = 0;
    while i < parts.len()
        invariant
            i <= parts.len(),
            texts == parts.deep_view(),
            out@ == start + wrapped(texts.take(i as int), before@, after@),
        decreases parts.len() - i,
    {
        out.append(before);
        out.append(parts[i].as_str());
        out.append(after);
        proof {
            let now = texts.take(i + 1);
            assert(now.drop_last() =~= texts.take(i as int));
            assert(now.last() == parts[i as int]@);
            assert(out@ =~= start + wrapped(now, before@, after@));
        }
        i = i + 1;
    }
    assert(texts.take(parts.len() as int) =~= texts);
}

// ---------------------------------------------------------------------------
// Types
// ---------------------------------------------------------------------------

/// A type expression as source text.
pub open spec fn type_text(ty: TypeShape) -> Seq<char>
    decreases ty, 0nat,
{
    match ty {
        TypeShape::Named { rooted, qualifier, name, args } => (if rooted {
            "::"@
        } else {
            Seq::empty()
        }) + wrapped(qualifier, Seq::empty(), "::"@) + name + (if args.len() == 0 {
            Seq::empty()
        } else {
            "<"@ + joined(type_texts(args), ", "@) + ">"@
        }),
        TypeShape::Reference { lifetime, mutable, elem } => "&"@ + (match lifetime {
            Some(l) => l + " "@,
            None => Seq::empty(),
        }) + (if mutable {
            "mut "@
        } else {
            Seq::empty()
        }) + type_text(*elem),
        TypeShape::Array { elem, len } => "["@ + type_text(*elem) + "; "@ + len + "]"@,
        TypeShape::Tuple { elems } => "("@ + joined(type_texts(elems), ", "@) + (if elems.len()
            == 1 {
            ",)"@
        } else {
            ")"@
        }),
        TypeShape::Verbatim { text } => text,
        TypeShape::Unsupported { text } => text,
    }
}

/// The source texts of the types of a sequence, in order.
pub open spec fn type_texts(items: Seq<TypeShape>) -> Seq<Seq<char>>
    decreases items, 1nat,
{
    Seq::new(
        items.len(),
        |i: int|
            if 0 <= i < items.len() {
                type_text(items[i])
            } else {
                Seq::empty()
            },
    )
}

/// Appends the source texts of the types of `items` to `out`, with a comma
/// between each two.
fn push_types(out: &mut String, items: &Vec<TypeExpr>)
    ensures
        final(out)@ == old(out)@ + joined(type_texts(views_of(items@)), ", "@),
    decreases items, 0nat,
{
    let ghost start = out@;
    let ghost texts = type_texts(views_of(items@));
    assert(texts.take(0) =~= Seq::empty());
    assert(out@ =~= start + joined(texts.take(0), ", "@));
    let mut i: usize = 0;
    while i < items.len()
        invariant
            i <= items.len(),
            texts == type_texts(views_of(items@)),
            forall|k: int| 0 <= k < items.len() ==> decreases_to!(items => items[k]),
            out@ == start + joined(texts.take(i as int), ", "@),
        decreases items.len() - i,
    {
        if i > 0 {
            out.append(", ");
        }
        push_type(out, &items[i]);
        proof {
            let now = texts.take(i + 1);
            assert(now.drop_last() =~= texts.take(i as int));
            assert(now.last() == type_text(items[i as int]@));
            if i > 0 {
                assert(out@ =~= start + joined(now, ", "@));
            } else {
                assert(joined(texts.take(0), ", "@) =~= Seq::<char>::empty());
                assert(out@ =~= start + joined(now, ", "@));
            }
        }
        i = i + 1;
    }
    assert(texts.take(items.len() as int) =~= texts);
}

/// Appends the source text of a type to `out`.
#[verifier::rlimit(60)]
pub fn push_type(out: &mut String, ty: &TypeExpr)
    ensures
        final(out)@ == old(out)@ + type_text(ty@),
    decreases ty, 1nat,
{
    let ghost start = out@;
    match ty {
        TypeExpr::Named { rooted, qualifier, name, args } => {
            proof {
                lemma_named_args(*ty);
            }
            if *rooted {
                out.append("::");
            }
            proof {
                reveal_strlit("");
                assert(""@ =~= Seq::<char>::empty());
            }
            push_wrapped(out, qualifier, "", "::");
            out.append(name.as_str());
            if args.len() > 0 {
                out.append("<");
                push_types(out, args);
                out.append(">");
            }
            assert(out@ =~= start + type_text(ty@));
        },
        TypeExpr::Reference { lifetime, mutable, elem } => {
            out.append("&");
            match lifetime {
                Some(l) => {
                    out.append(l.as_str());
                    out.append(" ");
                },
                None => {},
            }
            if *mutable {
                out.append("mut ");
            }
            push_type(out, elem);
            assert(out@ =~= start + type_text(ty@));
        },
        TypeExpr::Array { elem, len } => {
            out.append("[");
            push_type(out, elem);
            out.append("; ");
            out.append(len.as_str());
            out.append("]");
            assert(out@ =~= start + type_text(ty@));
        },
        TypeExpr::Tuple { elems } => {
            proof {
                lemma_tuple_elems(*ty);
            }
            out.append("(");
            push_types(out, elems);
            if elems.len() == 1 {
                out.append(",)");
            } else {
                out.append(")");
            }
            assert(out@ =~= start + type_text(ty@));
        },
        TypeExpr::Verbatim { text } => {
            out.append(text.as_str());
        },
        TypeExpr::Unsupported { text } => {
            out.append(text.as_str());
        },
    }
}

/// The source text of a type.
pub fn render_type(ty: &TypeExpr) -> (text: String)
    ensures
        text@ == type_text(ty@),
{
    let mut text = String::new();
    push_type(&mut text, ty);
    assert(text@ =~= type_text(ty@));
    text
}

} // verus!
