use crate::bounds::{push_unique, with_bound, Bound, BoundView};
use crate::config::{GenFieldConfig, GenFieldConfigView, StructConfig, StructConfigView};
use crate::error::{failure, Error, ErrorKind, ErrorView};
use crate::text::{concat3, copy_texts};
use crate::types::{
    basic_name, collection_name, is_basic_name, is_collection_name, is_parameter_name,
    is_pointer_name, lemma_named_args, lemma_tuple_elems, parameter_name,
    pointer_name, TypeExpr, TypeShape,
};
use crate::views::{lemma_views_push, view_of_result, views_of};
use vstd::prelude::*;

verus! {

/// The text of a setting, or `fallback` where it is not set.
pub open spec fn text_or(setting: Option<Seq<char>>, fallback: Seq<char>) -> Seq<char> {
    match setting {
        Some(s) => s,
        None => fallback,
    }
}

/// The new name of a user-defined type. The field's own new name wins; else
/// the field's prefix and suffix, where it sets one of them; else the
/// variant's prefix and suffix, with the suffix `Vo` where the variant sets
/// neither of the two.
pub open spec fn renamed(name: Seq<char>, variant: StructConfigView, field: GenFieldConfigView) -> Seq<
    char,
> {
    if field.explicit_type is Some {
        field.explicit_type->0
    } else if field.type_prefix is None && field.type_suffix is None {
        text_or(variant.prefix, Seq::empty()) + name + text_or(
            variant.suffix,
            if variant.prefix is None {
                "Vo"@
            } else {
                Seq::empty()
            },
        )
    } else {
        text_or(field.type_prefix, Seq::empty()) + name + text_or(field.type_suffix, Seq::empty())
    }
}

/// What the transformation of one type gives: the new type, or why there is
/// none, and the two lists of conversion requirements as they stand then.
pub struct Transformed {
    pub outcome: Result<TypeShape, ErrorView>,
    pub from_impls: Seq<BoundView>,
    pub into_impls: Seq<BoundView>,
}

/// What the transformation of a list of types gives.
pub struct TransformedList {
    pub outcome: Result<Seq<TypeShape>, ErrorView>,
    pub from_impls: Seq<BoundView>,
    pub into_impls: Seq<BoundView>,
}

/// A container or wrapper with its arguments transformed.
pub open spec fn rebuilt_named(ty: TypeShape, inner: TransformedList) -> Transformed {
    Transformed {
        outcome: match inner.outcome {
            Ok(args) => Ok(
                TypeShape::Named {
                    rooted: ty->Named_rooted,
                    qualifier: ty->Named_qualifier,
                    name: ty->Named_name,
                    args,
                },
            ),
            Err(e) => Err(e),
        },
        from_impls: inner.from_impls,
        into_impls: inner.into_impls,
    }
}

/// A tuple with its elements transformed.
pub open spec fn rebuilt_tuple(inner: TransformedList) -> Transformed {
    Transformed {
        outcome: match inner.outcome {
            Ok(elems) => Ok(TypeShape::Tuple { elems }),
            Err(e) => Err(e),
        },
        from_impls: inner.from_impls,
        into_impls: inner.into_impls,
    }
}

/// A reference with its target transformed.
pub open spec fn rebuilt_reference(ty: TypeShape, inner: Transformed) -> Transformed {
    Transformed {
        outcome: match inner.outcome {
            Ok(elem) => Ok(
                TypeShape::Reference {
                    lifetime: ty->Reference_lifetime,
                    mutable: ty->Reference_mutable,
                    elem: Box::new(elem),
                },
            ),
            Err(e) => Err(e),
        },
        from_impls: inner.from_impls,
        into_impls: inner.into_impls,
    }
}

/// An array with its element type transformed.
pub open spec fn rebuilt_array(ty: TypeShape, inner: Transformed) -> Transformed {
    Transformed {
        outcome: match inner.outcome {
            Ok(elem) => Ok(TypeShape::Array { elem: Box::new(elem), len: ty->Array_len }),
            Err(e) => Err(e),
        },
        from_impls: inner.from_impls,
        into_impls: inner.into_impls,
    }
}

/// A user-defined type under its new name: the last segment is replaced, the
/// rest of the path and the arguments stay.
pub open spec fn renamed_type(ty: TypeShape, variant: StructConfigView, field: GenFieldConfigView) -> TypeShape {
    TypeShape::Named {
        rooted: ty->Named_rooted,
        qualifier: ty->Named_qualifier,
        name: renamed(ty->Named_name, variant, field),
        args: ty->Named_args,
    }
}

/// The transformation of a field's type for one variant.
///
/// A primitive type and a generic parameter stay as they are. A container or
/// a wrapper keeps its shape, and each of its type arguments is transformed.
/// So are the target of a reference, the element type of an array and the
/// elements of a tuple. Any other named type is user-defined: it gets its new
/// name, and the requirement that old and new convert into each other is
/// added to the two lists, each unless the list holds it already. A type of
/// any other shape fails, with its text as the subject and `pos` as the
/// position.
pub open spec fn transform(
    ty: TypeShape,
    variant: StructConfigView,
    field: GenFieldConfigView,
    pos: usize,
    from_impls: Seq<BoundView>,
    into_impls: Seq<BoundView>,
) -> Transformed
    decreases ty, 0nat,
{
    match ty {
        TypeShape::Named { rooted, qualifier, name, args } => {
            if is_basic_name(name) {
                Transformed { outcome: Ok(ty), from_impls, into_impls }
            } else if is_collection_name(name) || is_pointer_name(name) {
                rebuilt_named(
                    ty,
                    transform_each(
                        args,
                        0,
                        true,
                        variant,
                        field,
                        pos,
                        Seq::empty(),
                        from_impls,
                        into_impls,
                    ),
                )
            } else if is_parameter_name(name) {
                Transformed { outcome: Ok(ty), from_impls, into_impls }
            } else {
                let new_ty = renamed_type(ty, variant, field);
                Transformed {
                    outcome: Ok(new_ty),
                    from_impls: with_bound(from_impls, BoundView::Converts { from: ty, to: new_ty }),
                    into_impls: with_bound(into_impls, BoundView::Converts { from: new_ty, to: ty }),
                }
            }
        },
        TypeShape::Reference { elem, .. } => rebuilt_reference(
            ty,
            transform(*elem, variant, field, pos, from_impls, into_impls),
        ),
        TypeShape::Array { elem, .. } => rebuilt_array(
            ty,
            transform(*elem, variant, field, pos, from_impls, into_impls),
        ),
        TypeShape::Tuple { elems } => rebuilt_tuple(
            transform_each(
                elems,
                0,
                false,
                variant,
                field,
                pos,
                Seq::empty(),
                from_impls,
                into_impls,
            ),
        ),
        TypeShape::Verbatim { text } => Transformed {
            outcome: Err(failure(ErrorKind::UnsupportedType, pos, text)),
            from_impls,
            into_impls,
        },
        TypeShape::Unsupported { text } => Transformed {
            outcome: Err(failure(ErrorKind::UnsupportedType, pos, text)),
            from_impls,
            into_impls,
        },
    }
}

/// The transformation of the types of `items` from `at` on, in order, behind
/// those already `done`; the first that fails ends it. With `keep_verbatim`,
/// an item that is carried text (a generic argument that is no type) stays as
/// it is.
pub open spec fn transform_each(
    items: Seq<TypeShape>,
    at: int,
    keep_verbatim: bool,
    variant: StructConfigView,
    field: GenFieldConfigView,
    pos: usize,
    done: Seq<TypeShape>,
    from_impls: Seq<BoundView>,
    into_impls: Seq<BoundView>,
) -> TransformedList
    decreases items, items.len() - at,
{
    if 0 <= at < items.len() {
        if keep_verbatim && items[at] is Verbatim {
            transform_each(
                items,
                at + 1,
                keep_verbatim,
                variant,
                field,
                pos,
                done.push(items[at]),
                from_impls,
                into_impls,
            )
        } else {
            let one = transform(items[at], variant, field, pos, from_impls, into_impls);
            match one.outcome {
                Ok(new_ty) => transform_each(
                    items,
                    at + 1,
                    keep_verbatim,
                    variant,
                    field,
                    pos,
                    done.push(new_ty),
                    one.from_impls,
                    one.into_impls,
                ),
                Err(e) => TransformedList {
                    outcome: Err(e),
                    from_impls: one.from_impls,
                    into_impls: one.into_impls,
                },
            }
        }
    } else {
        TransformedList { outcome: Ok(done), from_impls, into_impls }
    }
}

/// The text of a setting, or `fallback` where it is not set.
fn setting_or<'a>(setting: &'a Option<String>, fallback: &'a str) -> (text: &'a str)
    ensures
        text@ == text_or(setting.deep_view(), fallback@),
{
    match setting {
        Some(s) => s.as_str(),
        None => fallback,
    }
}

/// The new name of a user-defined type.
pub fn rename(name: &str, struct_config: &StructConfig, field_config: &GenFieldConfig) -> (new_name:
    String)
    ensures
        new_name@ == renamed(name@, struct_config@, field_config@),
{
    proof {
        reveal_strlit("");
        assert(""@ =~= Seq::<char>::empty());
    }
    match &field_config.explicit_type {
        Some(explicit) => explicit.clone(),
        None => {
            if field_config.type_prefix.is_none() && field_config.type_suffix.is_none() {
                concat3(
                    setting_or(&struct_config.prefix, ""),
                    name,
                    setting_or(
                        &struct_config.suffix,
                        if struct_config.prefix.is_none() {
                            "Vo"
                        } else {
                            ""
                        },
                    ),
                )
            } else {
                concat3(
                    setting_or(&field_config.type_prefix, ""),
                    name,
                    setting_or(&field_config.type_suffix, ""),
                )
            }
        },
    }
}

/// Transforms the types of `items` in order; see [`transform_each`].
fn transform_items(
    items: &Vec<TypeExpr>,
    keep_verbatim: bool,
    struct_config: &StructConfig,
    field_config: &GenFieldConfig,
    pos: usize,
    from_impls: &mut Vec<Bound>,
    into_impls: &mut Vec<Bound>,
) -> (new_items: Result<Vec<TypeExpr>, Error>)
    ensures
        ({
            let expected = transform_each(
                views_of(items@),
                0,
                keep_verbatim,
                struct_config@,
                field_config@,
                pos,
                Seq::empty(),
                views_of(old(from_impls)@),
                views_of(old(into_impls)@),
            );
            &&& match new_items {
                Ok(list) => expected.outcome == Ok::<Seq<TypeShape>, ErrorView>(views_of(list@)),
                Err(e) => expected.outcome == Err::<Seq<TypeShape>, ErrorView>(e@),
            }
            &&& views_of(final(from_impls)@) == expected.from_impls
            &&& views_of(final(into_impls)@) == expected.into_impls
        }),
    decreases items, 0nat,
{
    let ghost expected = transform_each(
        views_of(items@),
        0,
        keep_verbatim,
        struct_config@,
        field_config@,
        pos,
        Seq::empty(),
        views_of(from_impls@),
        views_of(into_impls@),
    );
    let mut done: Vec<TypeExpr> = Vec::new();
    assert(views_of(done@) =~= Seq::empty());
    let mut i: usize = 0;
    while i < items.len()
        invariant
            i <= items.len(),
            forall|k: int| 0 <= k < items.len() ==> decreases_to!(items => items[k]),
            expected == transform_each(
                views_of(items@),
                0,
                keep_verbatim,
                struct_config@,
                field_config@,
                pos,
                Seq::empty(),
                views_of(old(from_impls)@),
                views_of(old(into_impls)@),
            ),
            expected == transform_each(
                views_of(items@),
                i as int,
                keep_verbatim,
                struct_config@,
                field_config@,
                pos,
                views_of(done@),
                views_of(from_impls@),
                views_of(into_impls@),
            ),
        decreases items.len() - i,
    {
        assert(views_of(items@)[i as int] == items[i as int]@);
        let is_verbatim = match &items[i] {
            TypeExpr::Verbatim { .. } => true,
            _ => false,
        };
        if keep_verbatim && is_verbatim {
            let kept = items[i].duplicate();
            proof {
                lemma_views_push(done@, kept);
            }
            done.push(kept);
        } else {
            match transform_type(
                &items[i],
                struct_config,
                field_config,
                pos,
                from_impls,
                into_impls,
            ) {
                Ok(new_ty) => {
                    proof {
                        lemma_views_push(done@, new_ty);
                    }
                    done.push(new_ty);
                },
                Err(e) => {
                    return Err(e);
                },
            }
        }
        i = i + 1;
    }
    Ok(done)
}

/// Transforms a field's type for one variant; see [`transform`]. The
/// requirements that old and new types convert into each other are added to
/// `from_impls` (old into new) and `into_impls` (new into old).
pub fn transform_type(
    ty: &TypeExpr,
    struct_config: &StructConfig,
    field_config: &GenFieldConfig,
    pos: usize,
    from_impls: &mut Vec<Bound>,
    into_impls: &mut Vec<Bound>,
) -> (new_ty: Result<TypeExpr, Error>)
    ensures
        ({
            let expected = transform(
                ty@,
                struct_config@,
                field_config@,
                pos,
                views_of(old(from_impls)@),
                views_of(old(into_impls)@),
            );
            &&& view_of_result(new_ty) == expected.outcome
            &&& views_of(final(from_impls)@) == expected.from_impls
            &&& views_of(final(into_impls)@) == expected.into_impls
        }),
    decreases ty, 1nat,
{
    match ty {
        TypeExpr::Named { rooted, qualifier, name, args } => {
            proof {
                lemma_named_args(*ty);
            }
            if basic_name(name.as_str()) {
                Ok(ty.duplicate())
            } else if collection_name(name.as_str()) || pointer_name(name.as_str()) {
                match transform_items(
                    args,
                    true,
                    struct_config,
                    field_config,
                    pos,
                    from_impls,
                    into_impls,
                ) {
                    Ok(new_args) => {
                        let new_ty = TypeExpr::Named {
                            rooted: *rooted,
                            qualifier: copy_texts(qualifier),
                            name: name.clone(),
                            args: new_args,
                        };
                        proof {
                            lemma_named_args(new_ty);
                        }
                        Ok(new_ty)
                    },
                    Err(e) => Err(e),
                }
            } else if parameter_name(name.as_str()) {
                Ok(ty.duplicate())
            } else {
                let mut new_args: Vec<TypeExpr> = Vec::new();
                let mut i: usize = 0;
                while i < args.len()
                    invariant
                        i <= args.len(),
                        new_args.len() == i,
                        forall|k: int| 0 <= k < i ==> new_args[k]@ == args[k]@,
                    decreases args.len() - i,
                {
                    new_args.push(args[i].duplicate());
                    i = i + 1;
                }
                assert(views_of(new_args@) =~= views_of(args@));
                let new_ty = TypeExpr::Named {
                    rooted: *rooted,
                    qualifier: copy_texts(qualifier),
                    name: rename(name.as_str(), struct_config, field_config),
                    args: new_args,
                };
                proof {
                    lemma_named_args(new_ty);
                }
                push_unique(
                    from_impls,
                    Bound::Converts { from: ty.duplicate(), to: new_ty.duplicate() },
                );
                push_unique(
                    into_impls,
                    Bound::Converts { from: new_ty.duplicate(), to: ty.duplicate() },
                );
                Ok(new_ty)
            }
        },
        TypeExpr::Reference { lifetime, mutable, elem } => {
            match transform_type(elem, struct_config, field_config, pos, from_impls, into_impls) {
                Ok(new_elem) => Ok(
                    TypeExpr::Reference {
                        lifetime: crate::text::copy_optional(lifetime),
                        mutable: *mutable,
                        elem: Box::new(new_elem),
                    },
                ),
                Err(e) => Err(e),
            }
        },
        TypeExpr::Array { elem, len } => {
            match transform_type(elem, struct_config, field_config, pos, from_impls, into_impls) {
                Ok(new_elem) => Ok(TypeExpr::Array { elem: Box::new(new_elem), len: len.clone() }),
                Err(e) => Err(e),
            }
        },
        TypeExpr::Tuple { elems } => {
            proof {
                lemma_tuple_elems(*ty);
            }
            match transform_items(
                elems,
                false,
                struct_config,
                field_config,
                pos,
                from_impls,
                into_impls,
            ) {
                Ok(new_elems) => {
                    let new_ty = TypeExpr::Tuple { elems: new_elems };
                    proof {
                        lemma_tuple_elems(new_ty);
                    }
                    Ok(new_ty)
                },
                Err(e) => Err(e),
            }
        },
        TypeExpr::Verbatim { text } => Err(
            Error::new(ErrorKind::UnsupportedType, pos, text.as_str()),
        ),
        TypeExpr::Unsupported { text } => Err(
            Error::new(ErrorKind::UnsupportedType, pos, text.as_str()),
        ),
    }
}

} // verus!
