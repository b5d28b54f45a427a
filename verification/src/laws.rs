use crate::bounds::{
    lemma_with_bound, lemma_with_bounds, no_bound_twice, with_bounds, BoundView,
};
use crate::config::{
    blank_variant, AddFieldConfigView, GenFieldConfigView, StructConfigView,
};
use crate::convert::{all_filled, converted, filled, find_entry};
use crate::error::ErrorView;
use crate::index::additions_for;
use crate::expand::{expanded, generate_each};
use crate::generate::{
    blank_assembly, conversion_of, generated, new_struct_name, with_addition, with_additions,
    with_field, with_fields, AssemblyView,
};
use crate::parse::{field_configs_of, struct_configs_of, Planned};
use crate::schema::{
    distinct_targets, target_of,
    Conversion, FieldEntryView, FillView, GeneratedStructView, GenericsView, OriginalStructView,
};
use crate::transform::{renamed_type, transform, transform_each};
use crate::types::{
    is_basic_name, is_collection_name, is_parameter_name, is_pointer_name, TypeShape,
};
use crate::value::{lemma_sequence_view, Entry, Value};
use crate::views::views_of;
use vstd::prelude::*;

verus! {

// ---------------------------------------------------------------------------
// The two conversions of a generated struct
// ---------------------------------------------------------------------------

/// Whether two fills convert the same field in opposite directions, in the
/// same way.
pub open spec fn mirrored(there: FillView, back: FillView) -> bool {
    &&& there is Convert
    &&& back is Convert
    &&& there->Convert_target == back->Convert_source
    &&& there->Convert_source == back->Convert_target
    &&& there->Convert_mode == back->Convert_mode
}

/// Whether the first `kept` fills of two conversions mirror each other, and
/// all the others fill in default values.
pub open spec fn conversions_mirror(forward: Seq<FillView>, backward: Seq<FillView>, kept: int) -> bool {
    &&& 0 <= kept <= forward.len()
    &&& kept <= backward.len()
    &&& forall|i: int| 0 <= i < kept ==> mirrored(#[trigger] forward[i], backward[i])
    &&& forall|i: int| kept <= i < forward.len() ==> #[trigger] forward[i] is Default
    &&& forall|i: int| kept <= i < backward.len() ==> #[trigger] backward[i] is Default
}

/// Whether an assembly converts every kept field both ways and fills every
/// field that was left out with a default value.
spec fn assembly_mirrors(assembly: AssemblyView) -> bool {
    &&& conversions_mirror(assembly.forward, assembly.backward, assembly.backward.len() as int)
    &&& assembly.forward.len() == assembly.backward.len()
    &&& forall|i: int| 0 <= i < assembly.skipped.len() ==> #[trigger] assembly.skipped[i] is Default
}

proof fn lemma_fields_mirror(
    assembly: AssemblyView,
    entries: Seq<FieldEntryView>,
    from: int,
    variant: StructConfigView,
)
    requires
        assembly_mirrors(assembly),
        with_fields(assembly, entries, from, variant) is Ok,
    ensures
        assembly_mirrors(with_fields(assembly, entries, from, variant)->Ok_0),
    decreases entries.len() - from,
{
    if 0 <= from < entries.len() {
        let next = with_field(
            assembly,
            entries[from],
            variant,
            crate::casing::lower_camel_case(entries[from].name),
        )->Ok_0;
        lemma_fields_mirror(next, entries, from + 1, variant);
    }
}

proof fn lemma_additions_mirror(
    assembly: AssemblyView,
    additions: Seq<AddFieldConfigView>,
    from: int,
    vis: Seq<char>,
    kept: int,
)
    requires
        conversions_mirror(assembly.forward, assembly.backward, kept),
        kept == assembly.backward.len(),
        forall|i: int| 0 <= i < assembly.skipped.len() ==> #[trigger] assembly.skipped[i] is Default,
    ensures
        ({
            let after = with_additions(assembly, additions, from, vis);
            &&& conversions_mirror(after.forward, after.backward, kept)
            &&& after.backward == assembly.backward
            &&& after.skipped == assembly.skipped
        }),
    decreases additions.len() - from,
{
    if 0 <= from < additions.len() {
        let next = with_addition(assembly, additions[from], vis);
        lemma_additions_mirror(next, additions, from + 1, vis, kept);
    }
}

/// The two conversions of a generated struct mirror each other: for some
/// number of kept fields, the conversion from the original and the
/// conversion back convert the same fields in the same order and in the same
/// way, each in its direction, and every other fill of either is a default
/// value.
pub proof fn lemma_conversions_mirror(
    variant: StructConfigView,
    attrs: Seq<Seq<char>>,
    entries: Seq<FieldEntryView>,
    additions: Seq<Seq<AddFieldConfigView>>,
    original: Seq<char>,
    generics: GenericsView,
    vis: Seq<char>,
    pos: usize,
) -> (kept: int)
    requires
        generated(variant, attrs, entries, additions, original, generics, vis, pos) is Ok,
    ensures
        ({
            let new_struct = generated(
                variant,
                attrs,
                entries,
                additions,
                original,
                generics,
                vis,
                pos,
            )->Ok_0;
            conversions_mirror(new_struct.forward, new_struct.backward, kept)
        }),
{
    let start = blank_assembly(generics.bounds);
    lemma_fields_mirror(start, entries, 0, variant);
    let fields_done = with_fields(start, entries, 0, variant)->Ok_0;
    let kept = fields_done.backward.len() as int;
    lemma_additions_mirror(fields_done, additions_for(additions, variant.id), 0, vis, kept);
    kept
}

/// Converting a value of the original struct into the generated struct and
/// back gives, for every field that both structs have, the value that the
/// field had.
///
/// `x` is the value of the original struct, `y` what the conversion from the
/// original makes of it, `z` what the conversion back makes of `y`; `there`
/// and `back` say what the conversion of one value may give, and are such
/// that converting back what was converted gives the first value again. No
/// two fields of the generated struct have one name. Then the field of `z` at
/// any place `i` where the conversion back converts has the name and the
/// value of a field of `x`.
pub proof fn lemma_round_trip(
    variant: StructConfigView,
    attrs: Seq<Seq<char>>,
    entries: Seq<FieldEntryView>,
    additions: Seq<Seq<AddFieldConfigView>>,
    original: Seq<char>,
    generics: GenericsView,
    vis: Seq<char>,
    pos: usize,
    x: Seq<Entry>,
    y: Seq<Entry>,
    z: Seq<Entry>,
    there: spec_fn(Value, Value) -> bool,
    back: spec_fn(Value, Value) -> bool,
    i: int,
)
    requires
        generated(variant, attrs, entries, additions, original, generics, vis, pos) is Ok,
        ({
            let new_struct = generated(
                variant,
                attrs,
                entries,
                additions,
                original,
                generics,
                vis,
                pos,
            )->Ok_0;
            &&& distinct_targets(new_struct.forward)
            &&& all_filled(new_struct.forward, x, y, there)
            &&& all_filled(new_struct.backward, y, z, back)
            &&& 0 <= i < new_struct.backward.len()
            &&& new_struct.backward[i] is Convert
        }),
        forall|a: Value, b: Value, c: Value| #[trigger] there(a, b) && #[trigger] back(b, c) ==> c@ == a@,
    ensures
        ({
            let new_struct = generated(
                variant,
                attrs,
                entries,
                additions,
                original,
                generics,
                vis,
                pos,
            )->Ok_0;
            let name = target_of(new_struct.backward[i]);
            &&& find_entry(x, name) is Some
            &&& z[i].name@ == name
            &&& z[i].value@ == x[find_entry(x, name)->0].value@
        }),
{
    let new_struct = generated(variant, attrs, entries, additions, original, generics, vis, pos)->Ok_0;
    let kept = lemma_conversions_mirror(
        variant,
        attrs,
        entries,
        additions,
        original,
        generics,
        vis,
        pos,
    );
    let forward = new_struct.forward;
    let backward = new_struct.backward;
    assert(i < kept) by {
        if i >= kept {
            assert(backward[i] is Default);
        }
    }
    assert(mirrored(forward[i], backward[i]));
    let name = backward[i]->Convert_target;
    let new_name = backward[i]->Convert_source;
    let mode = backward[i]->Convert_mode;
    assert(filled(forward[i], x, y[i], there));
    assert(filled(backward[i], y, z[i], back));
    let k = find_entry(x, name)->0;
    let k2 = find_entry(y, new_name)->0;
    assert(k2 == i) by {
        assert(filled(forward[k2], x, y[k2], there));
        assert(target_of(forward[k2]) == y[k2].name@);
        assert(target_of(forward[i]) == y[i].name@);
        if k2 < i {
            assert(target_of(forward[k2]) != target_of(forward[i]));
        } else if i < k2 {
            assert(target_of(forward[i]) != target_of(forward[k2]));
        }
    }
    assert(converted(mode, x[k].value, y[i].value, there));
    assert(converted(mode, y[i].value, z[i].value, back));
    match mode {
        Conversion::Direct => {},
        Conversion::ElementWise => {
            let xs = x[k].value->Sequence_0;
            let ys = y[i].value->Sequence_0;
            let zs = z[i].value->Sequence_0;
            lemma_sequence_view(x[k].value);
            lemma_sequence_view(z[i].value);
            assert forall|j: int| 0 <= j < xs.len() implies zs[j]@ == xs[j]@ by {
                assert(there(xs[j], ys[j]));
                assert(back(ys[j], zs[j]));
            }
            assert(views_of(zs@) =~= views_of(xs@));
        },
    }
}

/// Whether an assembly that has left out no field converts back the first
/// `count` fields of the original, one by one and in their order.
spec fn assembly_follows(assembly: AssemblyView, entries: Seq<FieldEntryView>, count: int) -> bool {
    &&& assembly.backward.len() + assembly.skipped.len() == count
    &&& forall|i: int| 0 <= i < assembly.skipped.len() ==> #[trigger] assembly.skipped[i] is Default
    &&& assembly.skipped.len() == 0 ==> forall|i: int|
        0 <= i < count ==> target_of(#[trigger] assembly.backward[i]) == entries[i].name
}

proof fn lemma_fields_follow(
    assembly: AssemblyView,
    entries: Seq<FieldEntryView>,
    from: int,
    variant: StructConfigView,
)
    requires
        0 <= from <= entries.len(),
        assembly_follows(assembly, entries, from),
        with_fields(assembly, entries, from, variant) is Ok,
    ensures
        assembly_follows(
            with_fields(assembly, entries, from, variant)->Ok_0,
            entries,
            entries.len() as int,
        ),
    decreases entries.len() - from,
{
    if from < entries.len() {
        let next = with_field(
            assembly,
            entries[from],
            variant,
            crate::casing::lower_camel_case(entries[from].name),
        )->Ok_0;
        lemma_fields_follow(next, entries, from + 1, variant);
    }
}

proof fn lemma_additions_follow(
    assembly: AssemblyView,
    additions: Seq<AddFieldConfigView>,
    from: int,
    vis: Seq<char>,
)
    ensures
        with_additions(assembly, additions, from, vis).backward == assembly.backward,
        with_additions(assembly, additions, from, vis).skipped == assembly.skipped,
    decreases additions.len() - from,
{
    if 0 <= from < additions.len() {
        lemma_additions_follow(with_addition(assembly, additions[from], vis), additions, from + 1, vis);
    }
}

/// Where a variant leaves out no field, converting a value of the original
/// struct into the generated struct and back gives the value again: the same
/// fields in the same order, each with the value that it had.
///
/// `x` holds the named fields of the original in their order, and no two of
/// them have one name; the rest is as in [`lemma_round_trip`].
pub proof fn lemma_round_trip_whole(
    variant: StructConfigView,
    attrs: Seq<Seq<char>>,
    entries: Seq<FieldEntryView>,
    additions: Seq<Seq<AddFieldConfigView>>,
    original: Seq<char>,
    generics: GenericsView,
    vis: Seq<char>,
    pos: usize,
    x: Seq<Entry>,
    y: Seq<Entry>,
    z: Seq<Entry>,
    there: spec_fn(Value, Value) -> bool,
    back: spec_fn(Value, Value) -> bool,
)
    requires
        generated(variant, attrs, entries, additions, original, generics, vis, pos) is Ok,
        ({
            let new_struct = generated(
                variant,
                attrs,
                entries,
                additions,
                original,
                generics,
                vis,
                pos,
            )->Ok_0;
            &&& distinct_targets(new_struct.forward)
            &&& all_filled(new_struct.forward, x, y, there)
            &&& all_filled(new_struct.backward, y, z, back)
            &&& forall|i: int|
                0 <= i < new_struct.backward.len() ==> #[trigger] new_struct.backward[i] is Convert
        }),
        x.len() == entries.len(),
        forall|i: int| 0 <= i < entries.len() ==> (#[trigger] x[i]).name@ == entries[i].name,
        forall|i: int, j: int|
            0 <= i < j < entries.len() ==> (#[trigger] entries[i]).name != (#[trigger] entries[j]).name,
        forall|a: Value, b: Value, c: Value| #[trigger] there(a, b) && #[trigger] back(b, c) ==> c@ == a@,
    ensures
        z.len() == x.len(),
        forall|i: int| 0 <= i < x.len() ==> (#[trigger] z[i])@ == x[i]@,
{
    let new_struct = generated(variant, attrs, entries, additions, original, generics, vis, pos)->Ok_0;
    let start = blank_assembly(generics.bounds);
    lemma_fields_follow(start, entries, 0, variant);
    let kept = with_fields(start, entries, 0, variant)->Ok_0;
    lemma_additions_follow(kept, additions_for(additions, variant.id), 0, vis);
    assert(kept.skipped.len() == 0) by {
        if kept.skipped.len() > 0 {
            let k = kept.backward.len() as int;
            assert(new_struct.backward[k] == kept.skipped[0]);
            assert(kept.skipped[0] is Default);
            assert(new_struct.backward[k] is Convert);
        }
    }
    assert(new_struct.backward =~= kept.backward);
    assert forall|i: int| 0 <= i < x.len() implies (#[trigger] z[i])@ == x[i]@ by {
        lemma_round_trip(
            variant,
            attrs,
            entries,
            additions,
            original,
            generics,
            vis,
            pos,
            x,
            y,
            z,
            there,
            back,
            i,
        );
        let name = target_of(new_struct.backward[i]);
        assert(name == entries[i].name);
        let k = find_entry(x, name)->0;
        assert(x[k].name@ == name);
        if k < i {
            assert(entries[k].name != entries[i].name);
        } else if i < k {
            assert(entries[i].name != entries[k].name);
        }
    }
}

// ---------------------------------------------------------------------------
// What the conversions fill
// ---------------------------------------------------------------------------

/// Whether the conversion from the original fills the fields of an assembly
/// one by one, in order, and the conversion back has a fill for each of
/// `count` fields of the original.
spec fn assembly_covers(assembly: AssemblyView, count: int) -> bool {
    &&& assembly.forward.len() == assembly.fields.len()
    &&& forall|i: int|
        0 <= i < assembly.fields.len() ==> target_of(#[trigger] assembly.forward[i])
            == assembly.fields[i].name
    &&& assembly.backward.len() + assembly.skipped.len() == count
}

proof fn lemma_fields_cover(
    assembly: AssemblyView,
    entries: Seq<FieldEntryView>,
    from: int,
    variant: StructConfigView,
)
    requires
        0 <= from <= entries.len(),
        assembly_covers(assembly, from),
        with_fields(assembly, entries, from, variant) is Ok,
    ensures
        assembly_covers(with_fields(assembly, entries, from, variant)->Ok_0, entries.len() as int),
    decreases entries.len() - from,
{
    if from < entries.len() {
        let next = with_field(
            assembly,
            entries[from],
            variant,
            crate::casing::lower_camel_case(entries[from].name),
        )->Ok_0;
        lemma_fields_cover(next, entries, from + 1, variant);
    }
}

proof fn lemma_additions_cover(
    assembly: AssemblyView,
    additions: Seq<AddFieldConfigView>,
    from: int,
    vis: Seq<char>,
    count: int,
)
    requires
        assembly_covers(assembly, count),
    ensures
        assembly_covers(with_additions(assembly, additions, from, vis), count),
    decreases additions.len() - from,
{
    if 0 <= from < additions.len() {
        let next = with_addition(assembly, additions[from], vis);
        lemma_additions_cover(next, additions, from + 1, vis, count);
    }
}

/// The conversion from the original fills every field of the generated
/// struct, one by one and in the order of the fields; the conversion back
/// has as many fills as the original struct has named fields.
pub proof fn lemma_conversions_cover(
    variant: StructConfigView,
    attrs: Seq<Seq<char>>,
    entries: Seq<FieldEntryView>,
    additions: Seq<Seq<AddFieldConfigView>>,
    original: Seq<char>,
    generics: GenericsView,
    vis: Seq<char>,
    pos: usize,
)
    requires
        generated(variant, attrs, entries, additions, original, generics, vis, pos) is Ok,
    ensures
        ({
            let new_struct = generated(
                variant,
                attrs,
                entries,
                additions,
                original,
                generics,
                vis,
                pos,
            )->Ok_0;
            &&& new_struct.forward.len() == new_struct.fields.len()
            &&& forall|i: int|
                0 <= i < new_struct.fields.len() ==> target_of(#[trigger] new_struct.forward[i])
                    == new_struct.fields[i].name
            &&& new_struct.backward.len() == entries.len()
        }),
{
    let start = blank_assembly(generics.bounds);
    lemma_fields_cover(start, entries, 0, variant);
    let kept = with_fields(start, entries, 0, variant)->Ok_0;
    lemma_additions_cover(kept, additions_for(additions, variant.id), 0, vis, entries.len() as int);
}

// ---------------------------------------------------------------------------
// The requirements of a generated struct
// ---------------------------------------------------------------------------

/// A prefix of a prefix is a prefix.
proof fn lemma_prefix_of_prefix(a: Seq<BoundView>, b: Seq<BoundView>, c: Seq<BoundView>)
    requires
        a.is_prefix_of(b),
        b.is_prefix_of(c),
    ensures
        a.is_prefix_of(c),
{
    assert(a =~= c.take(a.len() as int)) by {
        assert(b == c.take(b.len() as int));
        assert(a == b.take(a.len() as int));
    }
}

proof fn lemma_fields_keep_bounds(
    assembly: AssemblyView,
    entries: Seq<FieldEntryView>,
    from: int,
    variant: StructConfigView,
)
    requires
        with_fields(assembly, entries, from, variant) is Ok,
    ensures
        ({
            let after = with_fields(assembly, entries, from, variant)->Ok_0;
            &&& assembly.bounds.is_prefix_of(after.bounds)
            &&& no_bound_twice(assembly.bounds) ==> no_bound_twice(after.bounds)
        }),
    decreases entries.len() - from,
{
    if 0 <= from < entries.len() {
        let next = with_field(
            assembly,
            entries[from],
            variant,
            crate::casing::lower_camel_case(entries[from].name),
        )->Ok_0;
        lemma_with_bound(assembly.bounds, BoundView::HasDefault { ty: entries[from].ty });
        assert(assembly.bounds.is_prefix_of(next.bounds)) by {
            assert(assembly.bounds.take(assembly.bounds.len() as int) =~= assembly.bounds);
        }
        lemma_fields_keep_bounds(next, entries, from + 1, variant);
        lemma_prefix_of_prefix(
            assembly.bounds,
            next.bounds,
            with_fields(assembly, entries, from, variant)->Ok_0.bounds,
        );
    } else {
        assert(assembly.bounds.take(assembly.bounds.len() as int) =~= assembly.bounds);
    }
}

proof fn lemma_additions_keep_bounds(
    assembly: AssemblyView,
    additions: Seq<AddFieldConfigView>,
    from: int,
    vis: Seq<char>,
)
    ensures
        ({
            let after = with_additions(assembly, additions, from, vis);
            &&& assembly.bounds.is_prefix_of(after.bounds)
            &&& after.from_impls == assembly.from_impls
            &&& after.into_impls == assembly.into_impls
            &&& no_bound_twice(assembly.bounds) ==> no_bound_twice(after.bounds)
        }),
    decreases additions.len() - from,
{
    if 0 <= from < additions.len() {
        let next = with_addition(assembly, additions[from], vis);
        lemma_with_bound(
            assembly.bounds,
            BoundView::HasDefault { ty: TypeShape::Verbatim { text: additions[from].ty } },
        );
        assert(assembly.bounds.is_prefix_of(next.bounds)) by {
            assert(assembly.bounds.take(assembly.bounds.len() as int) =~= assembly.bounds);
        }
        lemma_additions_keep_bounds(next, additions, from + 1, vis);
        lemma_prefix_of_prefix(
            assembly.bounds,
            next.bounds,
            with_additions(assembly, additions, from, vis).bounds,
        );
    } else {
        assert(assembly.bounds.take(assembly.bounds.len() as int) =~= assembly.bounds);
    }
}

/// The requirements of a generated struct start with those that the
/// original struct declares, in their order; and where no two of those are
/// written the same, no two requirements of the generated struct are.
pub proof fn lemma_requirements_once(
    variant: StructConfigView,
    attrs: Seq<Seq<char>>,
    entries: Seq<FieldEntryView>,
    additions: Seq<Seq<AddFieldConfigView>>,
    original: Seq<char>,
    generics: GenericsView,
    vis: Seq<char>,
    pos: usize,
)
    requires
        generated(variant, attrs, entries, additions, original, generics, vis, pos) is Ok,
    ensures
        ({
            let new_struct = generated(
                variant,
                attrs,
                entries,
                additions,
                original,
                generics,
                vis,
                pos,
            )->Ok_0;
            &&& new_struct.generics.params == generics.params
            &&& generics.bounds.is_prefix_of(new_struct.generics.bounds)
            &&& no_bound_twice(generics.bounds) ==> no_bound_twice(new_struct.generics.bounds)
        }),
{
    let start = blank_assembly(generics.bounds);
    lemma_fields_keep_bounds(start, entries, 0, variant);
    let kept = with_fields(start, entries, 0, variant)->Ok_0;
    lemma_additions_keep_bounds(kept, additions_for(additions, variant.id), 0, vis);
    let all = with_additions(kept, additions_for(additions, variant.id), 0, vis);
    lemma_prefix_of_prefix(generics.bounds, kept.bounds, all.bounds);
    let with_from = with_bounds(all.bounds, all.from_impls, 0);
    lemma_with_bounds(all.bounds, all.from_impls, 0);
    lemma_with_bounds(with_from, all.into_impls, 0);
    lemma_prefix_of_prefix(generics.bounds, all.bounds, with_from);
    lemma_prefix_of_prefix(generics.bounds, with_from, with_bounds(with_from, all.into_impls, 0));
}

// ---------------------------------------------------------------------------
// The shapes of transformed types
// ---------------------------------------------------------------------------

/// Every type of a list that is transformed gives one type.
proof fn lemma_transform_each_len(
    items: Seq<TypeShape>,
    at: int,
    keep_verbatim: bool,
    variant: StructConfigView,
    field: GenFieldConfigView,
    pos: usize,
    done: Seq<TypeShape>,
    from_impls: Seq<BoundView>,
    into_impls: Seq<BoundView>,
)
    requires
        0 <= at <= items.len(),
        transform_each(
            items,
            at,
            keep_verbatim,
            variant,
            field,
            pos,
            done,
            from_impls,
            into_impls,
        ).outcome is Ok,
    ensures
        transform_each(
            items,
            at,
            keep_verbatim,
            variant,
            field,
            pos,
            done,
            from_impls,
            into_impls,
        ).outcome->Ok_0.len() == done.len() + items.len() - at,
    decreases items.len() - at,
{
    if at < items.len() {
        if keep_verbatim && items[at] is Verbatim {
            lemma_transform_each_len(
                items,
                at + 1,
                keep_verbatim,
                variant,
                field,
                pos,
                done.push(items[at]),
                from_impls,
                into_impls,
            );
        } else {
            let one = transform(items[at], variant, field, pos, from_impls, into_impls);
            lemma_transform_each_len(
                items,
                at + 1,
                keep_verbatim,
                variant,
                field,
                pos,
                done.push(one.outcome->Ok_0),
                one.from_impls,
                one.into_impls,
            );
        }
    }
}

/// A transformed type has the shape of the type it was made from: a named
/// type stays a named type with the same path before its last segment and as
/// many arguments, and keeps its name unless it is user-defined; a reference
/// stays a reference of the same kind, an array an array of the same length,
/// a tuple a tuple of as many elements.
pub proof fn lemma_shape_is_kept(
    ty: TypeShape,
    variant: StructConfigView,
    field: GenFieldConfigView,
    pos: usize,
    from_impls: Seq<BoundView>,
    into_impls: Seq<BoundView>,
)
    requires
        transform(ty, variant, field, pos, from_impls, into_impls).outcome is Ok,
    ensures
        ({
            let new_ty = transform(ty, variant, field, pos, from_impls, into_impls).outcome->Ok_0;
            match ty {
                TypeShape::Named { rooted, qualifier, name, args } => {
                    &&& new_ty is Named
                    &&& new_ty->Named_rooted == rooted
                    &&& new_ty->Named_qualifier == qualifier
                    &&& new_ty->Named_args.len() == args.len()
                    &&& !is_user_defined(ty) ==> new_ty->Named_name == name
                },
                TypeShape::Reference { lifetime, mutable, .. } => {
                    &&& new_ty is Reference
                    &&& new_ty->Reference_lifetime == lifetime
                    &&& new_ty->Reference_mutable == mutable
                },
                TypeShape::Array { len, .. } => new_ty is Array && new_ty->Array_len == len,
                TypeShape::Tuple { elems } => new_ty is Tuple && new_ty->Tuple_elems.len()
                    == elems.len(),
                _ => false,
            }
        }),
{
    match ty {
        TypeShape::Named { name, args, .. } => {
            if !is_basic_name(name) && (is_collection_name(name) || is_pointer_name(name)) {
                lemma_transform_each_len(
                    args,
                    0,
                    true,
                    variant,
                    field,
                    pos,
                    Seq::empty(),
                    from_impls,
                    into_impls,
                );
            }
        },
        TypeShape::Tuple { elems } => {
            lemma_transform_each_len(
                elems,
                0,
                false,
                variant,
                field,
                pos,
                Seq::empty(),
                from_impls,
                into_impls,
            );
        },
        _ => {},
    }
}

/// No container has the name of a primitive type.
pub proof fn lemma_collection_not_basic(name: Seq<char>)
    requires
        is_collection_name(name),
    ensures
        !is_basic_name(name),
{
    reveal_strlit("Vec");
    reveal_strlit("HashMap");
    reveal_strlit("HashSet");
    reveal_strlit("BTreeMap");
    reveal_strlit("BTreeSet");
    reveal_strlit("LinkedList");
    reveal_strlit("i8");
    reveal_strlit("i16");
    reveal_strlit("i32");
    reveal_strlit("i64");
    reveal_strlit("i128");
    reveal_strlit("isize");
    reveal_strlit("u8");
    reveal_strlit("u16");
    reveal_strlit("u32");
    reveal_strlit("u64");
    reveal_strlit("u128");
    reveal_strlit("usize");
    reveal_strlit("f32");
    reveal_strlit("f64");
    reveal_strlit("bool");
    reveal_strlit("char");
    reveal_strlit("str");
    reveal_strlit("String");
    assert(name[0] == 'V' || name[0] == 'H' || name[0] == 'B' || name[0] == 'L');
}

/// Whether a type is user-defined: a name that is no primitive type, no
/// container, no wrapper and no generic parameter.
pub open spec fn is_user_defined(ty: TypeShape) -> bool {
    &&& ty is Named
    &&& !is_basic_name(ty->Named_name)
    &&& !is_collection_name(ty->Named_name)
    &&& !is_pointer_name(ty->Named_name)
    &&& !is_parameter_name(ty->Named_name)
}

/// A container of a user-defined type keeps its shape, its type parameter
/// gets its new name, and the field is converted item by item.
pub proof fn lemma_container_of_user_type(
    container: TypeShape,
    variant: StructConfigView,
    field: GenFieldConfigView,
    pos: usize,
    from_impls: Seq<BoundView>,
    into_impls: Seq<BoundView>,
)
    requires
        container is Named,
        is_collection_name(container->Named_name),
        container->Named_args.len() == 1,
        is_user_defined(container->Named_args[0]),
    ensures
        transform(container, variant, field, pos, from_impls, into_impls).outcome == Ok::<
            TypeShape,
            ErrorView,
        >(
            TypeShape::Named {
                rooted: container->Named_rooted,
                qualifier: container->Named_qualifier,
                name: container->Named_name,
                args: seq![renamed_type(container->Named_args[0], variant, field)],
            },
        ),
        conversion_of(container) == Conversion::ElementWise,
{
    lemma_collection_not_basic(container->Named_name);
    let args = container->Named_args;
    let inner = args[0];
    let one = transform(inner, variant, field, pos, from_impls, into_impls);
    assert(one.outcome == Ok::<TypeShape, ErrorView>(renamed_type(inner, variant, field)));
    let rest = transform_each(
        args,
        1,
        true,
        variant,
        field,
        pos,
        Seq::<TypeShape>::empty().push(renamed_type(inner, variant, field)),
        one.from_impls,
        one.into_impls,
    );
    assert(rest.outcome == Ok::<Seq<TypeShape>, ErrorView>(
        Seq::<TypeShape>::empty().push(renamed_type(inner, variant, field)),
    ));
    let all = transform_each(
        args,
        0,
        true,
        variant,
        field,
        pos,
        Seq::empty(),
        from_impls,
        into_impls,
    );
    assert(all == rest);
    assert(Seq::<TypeShape>::empty().push(renamed_type(inner, variant, field)) =~= seq![
        renamed_type(inner, variant, field),
    ]);
}

// ---------------------------------------------------------------------------
// How many structs are generated
// ---------------------------------------------------------------------------

proof fn lemma_generate_each_len(
    variants: Seq<StructConfigView>,
    from: int,
    attrs: Seq<Seq<char>>,
    planned: Planned,
    original: Seq<char>,
    generics: GenericsView,
    vis: Seq<char>,
    pos: usize,
    done: Seq<GeneratedStructView>,
)
    requires
        0 <= from <= variants.len(),
        done.len() == from,
        generate_each(variants, from, attrs, planned, original, generics, vis, pos, done) is Ok,
        forall|k: int|
            0 <= k < from ==> new_struct_name(original, variants[k], pos) == Ok::<
                Seq<char>,
                ErrorView,
            >((#[trigger] done[k]).name),
    ensures
        ({
            let all = generate_each(
                variants,
                from,
                attrs,
                planned,
                original,
                generics,
                vis,
                pos,
                done,
            )->Ok_0;
            &&& all.len() == variants.len()
            &&& forall|k: int|
                0 <= k < variants.len() ==> new_struct_name(original, variants[k], pos) == Ok::<
                    Seq<char>,
                    ErrorView,
                >((#[trigger] all[k]).name)
        }),
    decreases variants.len() - from,
{
    if from < variants.len() {
        let new_struct = generated(
            variants[from],
            attrs,
            planned.entries,
            planned.additions,
            original,
            generics,
            vis,
            pos,
        )->Ok_0;
        lemma_generate_each_len(
            variants,
            from + 1,
            attrs,
            planned,
            original,
            generics,
            vis,
            pos,
            done.push(new_struct),
        );
    }
}

/// A struct generates one struct for each variant that its directives
/// declare, in the order of the variants, each under the name that the
/// variant gives it; there is always at least one. This holds whatever the
/// verdicts on the source text of the directives are.
pub proof fn lemma_one_struct_per_variant(
    input: OriginalStructView,
    struct_verdicts: Seq<Seq<bool>>,
    field_verdicts: Seq<Seq<Seq<bool>>>,
)
    requires
        input.body is Struct,
        expanded(input, struct_verdicts, field_verdicts) is Ok,
    ensures
        struct_configs_of(input.directives, struct_verdicts) is Ok,
        ({
            let variants = struct_configs_of(input.directives, struct_verdicts)->Ok_0.variants;
            let all = expanded(input, struct_verdicts, field_verdicts)->Ok_0;
            &&& all.len() == variants.len()
            &&& all.len() >= 1
            &&& forall|k: int|
                0 <= k < variants.len() ==> new_struct_name(input.name, variants[k], input.pos)
                    == Ok::<Seq<char>, ErrorView>((#[trigger] all[k]).name)
        }),
{
    let declared = struct_configs_of(input.directives, struct_verdicts)->Ok_0;
    let planned = field_configs_of(
        input.body->Struct_fields,
        declared.variants,
        field_verdicts,
    )->Ok_0;
    lemma_generate_each_len(
        declared.variants,
        0,
        declared.attrs,
        planned,
        input.name,
        input.generics,
        input.vis,
        input.pos,
        Seq::empty(),
    );
}

/// A struct without directives of its own generates exactly one struct,
/// that of the default variant: its name is the name of the original
/// followed by `Vo`.
pub proof fn lemma_default_variant(
    input: OriginalStructView,
    struct_verdicts: Seq<Seq<bool>>,
    field_verdicts: Seq<Seq<Seq<bool>>>,
)
    requires
        input.body is Struct,
        input.directives.len() == 0,
        expanded(input, struct_verdicts, field_verdicts) is Ok,
    ensures
        expanded(input, struct_verdicts, field_verdicts)->Ok_0.len() == 1,
        expanded(input, struct_verdicts, field_verdicts)->Ok_0[0].name == input.name + "Vo"@,
{
    lemma_one_struct_per_variant(input, struct_verdicts, field_verdicts);
    let declared = struct_configs_of(input.directives, struct_verdicts)->Ok_0;
    assert(declared.variants =~= seq![blank_variant()]);
    assert(Seq::<char>::empty() + input.name =~= input.name);
}

} // verus!
