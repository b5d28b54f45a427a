use crate::bounds::{
    push_all_unseen, push_unique, texts_of, with_bound, with_bounds, Bound, BoundView,
};
use crate::casing::{lower_camel_case, to_lower_camel};
use crate::config::{
    blank_field_config, renames_type, skips_field, AddFieldConfig, AddFieldConfigView,
    GenFieldConfig, GenFieldConfigView, StructConfig, StructConfigView,
};
use crate::error::{failure, Error, ErrorKind, ErrorView};
use crate::index::{additions_for, AddedFields};
use crate::schema::{
    Conversion, FieldEntry, FieldEntryView, Fill, FillView, GeneratedField, GeneratedFieldView,
    GeneratedStruct, GeneratedStructView, Generics, GenericsView,
};
use crate::text::{concat3, copy_texts, distinct_texts, same_text, without_repetitions};
use crate::transform::{text_or, transform, transform_type};
use crate::types::{
    is_basic, is_basic_type, is_collection, is_std_collection_type, TypeExpr, TypeShape,
};
use crate::views::{lemma_views_push, view_of_result, views_of};
use vstd::prelude::*;

verus! {

// ---------------------------------------------------------------------------
// The name of a generated struct
// ---------------------------------------------------------------------------

/// The name of the struct that a variant generates from the struct
/// `original`: the variant's explicit name; else prefix, original name and
/// suffix, where the suffix is `Vo` if the variant sets neither prefix nor
/// suffix. An empty name is a failure.
pub open spec fn new_struct_name(original: Seq<char>, variant: StructConfigView, pos: usize) -> Result<
    Seq<char>,
    ErrorView,
> {
    let name = match variant.name {
        Some(explicit) => explicit,
        None => text_or(variant.prefix, Seq::empty()) + original + text_or(
            variant.suffix,
            if variant.prefix is None {
                "Vo"@
            } else {
                Seq::empty()
            },
        ),
    };
    if name.len() == 0 {
        Err(failure(ErrorKind::EmptyName, pos, original))
    } else {
        Ok(name)
    }
}

/// The name of the struct that a variant generates; see [`new_struct_name`].
pub fn generate_new_struct_ident(original: &str, config: &StructConfig, pos: usize) -> (name: Result<
    String,
    Error,
>)
    ensures
        (match name {
            Ok(n) => new_struct_name(original@, config@, pos) == Ok::<Seq<char>, ErrorView>(n@),
            Err(e) => new_struct_name(original@, config@, pos) == Err::<Seq<char>, ErrorView>(
                e@,
            ),
        }),
{
    proof {
        reveal_strlit("");
        assert(""@ =~= Seq::<char>::empty());
    }
    let name = match &config.name {
        Some(explicit) => explicit.clone(),
        None => {
            let prefix = match &config.prefix {
                Some(p) => p.as_str(),
                None => "",
            };
            let suffix = match &config.suffix {
                Some(s) => s.as_str(),
                None => if config.prefix.is_none() {
                    "Vo"
                } else {
                    ""
                },
            };
            concat3(prefix, original, suffix)
        },
    };
    if name.as_str().unicode_len() == 0 {
        Err(Error::new(ErrorKind::EmptyName, pos, original))
    } else {
        Ok(name)
    }
}

// ---------------------------------------------------------------------------
// The configuration that applies to a field
// ---------------------------------------------------------------------------

/// The last of the first `upto` configurations that has the given id.
pub open spec fn last_config(configs: Seq<GenFieldConfigView>, id: Seq<char>, upto: int) -> Option<
    GenFieldConfigView,
>
    decreases upto,
{
    if upto <= 0 || upto > configs.len() {
        None
    } else if configs[upto - 1].id == id {
        Some(configs[upto - 1])
    } else {
        last_config(configs, id, upto - 1)
    }
}

/// The configuration that applies to a field in the variant `id`: the one
/// for that id; else the one for the empty id, which stands for every
/// variant without one of its own; else one that asks for nothing.
pub open spec fn chosen_config(configs: Seq<GenFieldConfigView>, id: Seq<char>) -> GenFieldConfigView {
    match last_config(configs, id, configs.len() as int) {
        Some(config) => config,
        None => match last_config(configs, Seq::empty(), configs.len() as int) {
            Some(config) => config,
            None => blank_field_config(id),
        },
    }
}

/// The place of the last configuration that has the given id.
fn find_config(configs: &Vec<GenFieldConfig>, id: &str) -> (place: Option<usize>)
    ensures
        (match place {
            Some(k) => k < configs.len() && last_config(
                views_of(configs@),
                id@,
                configs.len() as int,
            ) == Some(configs[k as int]@),
            None => last_config(views_of(configs@), id@, configs.len() as int) is None,
        }),
{
    let mut place: Option<usize> = None;
    let mut i: usize = 0;
    while i < configs.len()
        invariant
            i <= configs.len(),
            (match place {
                Some(k) => k < configs.len() && last_config(views_of(configs@), id@, i as int)
                    == Some(configs[k as int]@),
                None => last_config(views_of(configs@), id@, i as int) is None,
            }),
        decreases configs.len() - i,
    {
        assert(views_of(configs@)[i as int] == configs[i as int]@);
        if same_text(configs[i].id.as_str(), id) {
            place = Some(i);
        }
        i = i + 1;
    }
    place
}

/// The configuration that applies to a field in the variant `id`; see
/// [`chosen_config`].
pub fn choose_config(configs: &Vec<GenFieldConfig>, id: &str) -> (config: GenFieldConfig)
    ensures
        config@ == chosen_config(views_of(configs@), id@),
{
    proof {
        reveal_strlit("");
        assert(""@ =~= Seq::<char>::empty());
    }
    match find_config(configs, id) {
        Some(k) => configs[k].duplicate(),
        None => match find_config(configs, "") {
            Some(k) => configs[k].duplicate(),
            None => GenFieldConfig::new(id),
        },
    }
}

// ---------------------------------------------------------------------------
// Assembling a generated struct
// ---------------------------------------------------------------------------

/// A generated struct while it is put together.
#[derive(Clone, Debug, PartialEq, Eq)]
pub struct Assembly {
    /// The fields so far.
    pub fields: Vec<GeneratedField>,
    /// How the conversion from the original fills the fields so far.
    pub forward: Vec<Fill>,
    /// How the conversion to the original fills the fields that were kept.
    pub backward: Vec<Fill>,
    /// How the conversion to the original fills the fields that were left
    /// out.
    pub skipped: Vec<Fill>,
    /// The requirements on the struct so far.
    pub bounds: Vec<Bound>,
    /// The requirements that an original type converts into its new type.
    pub from_impls: Vec<Bound>,
    /// The requirements that a new type converts into its original type.
    pub into_impls: Vec<Bound>,
}

pub struct AssemblyView {
    pub fields: Seq<GeneratedFieldView>,
    pub forward: Seq<FillView>,
    pub backward: Seq<FillView>,
    pub skipped: Seq<FillView>,
    pub bounds: Seq<BoundView>,
    pub from_impls: Seq<BoundView>,
    pub into_impls: Seq<BoundView>,
}

impl View for Assembly {
    type V = AssemblyView;

    open spec fn view(&self) -> AssemblyView {
        AssemblyView {
            fields: views_of(self.fields@),
            forward: views_of(self.forward@),
            backward: views_of(self.backward@),
            skipped: views_of(self.skipped@),
            bounds: views_of(self.bounds@),
            from_impls: views_of(self.from_impls@),
            into_impls: views_of(self.into_impls@),
        }
    }
}

/// The assembly without fields, with the requirements that the original
/// struct declares.
pub open spec fn blank_assembly(bounds: Seq<BoundView>) -> AssemblyView {
    AssemblyView {
        fields: Seq::empty(),
        forward: Seq::empty(),
        backward: Seq::empty(),
        skipped: Seq::empty(),
        bounds,
        from_impls: Seq::empty(),
        into_impls: Seq::empty(),
    }
}

/// How a field is converted: a container item by item, anything else whole.
pub open spec fn conversion_of(ty: TypeShape) -> Conversion {
    if is_collection(ty) {
        Conversion::ElementWise
    } else {
        Conversion::Direct
    }
}

/// An assembly after one more field of the original struct, for the given
/// variant; `new_name` is the field's name in the generated struct.
///
/// A field that the applying configuration leaves out gets no field in the
/// generated struct: the conversion back fills it with its type's default
/// value, and the requirement that the type has one is added. A primitive
/// type with a renaming option fails. Else the field's type is transformed,
/// the field is added under its new name, and both conversions convert it.
pub open spec fn with_field(
    assembly: AssemblyView,
    entry: FieldEntryView,
    variant: StructConfigView,
    new_name: Seq<char>,
) -> Result<AssemblyView, ErrorView> {
    let config = chosen_config(entry.configs, variant.id);
    if skips_field(config) {
        Ok(
            AssemblyView {
                skipped: assembly.skipped.push(
                    FillView::Default { target: entry.name, ty: entry.ty },
                ),
                bounds: with_bound(assembly.bounds, BoundView::HasDefault { ty: entry.ty }),
                ..assembly
            },
        )
    } else if is_basic(entry.ty) && renames_type(config) {
        Err(failure(ErrorKind::PrimitiveRenamed, entry.pos, entry.name))
    } else {
        let transformed = transform(
            entry.ty,
            variant,
            config,
            entry.pos,
            assembly.from_impls,
            assembly.into_impls,
        );
        match transformed.outcome {
            Err(e) => Err(e),
            Ok(new_ty) => Ok(
                AssemblyView {
                    fields: assembly.fields.push(
                        GeneratedFieldView {
                            attrs: entry.attrs,
                            vis: entry.vis,
                            name: new_name,
                            ty: new_ty,
                        },
                    ),
                    forward: assembly.forward.push(
                        FillView::Convert {
                            target: new_name,
                            source: entry.name,
                            mode: conversion_of(entry.ty),
                        },
                    ),
                    backward: assembly.backward.push(
                        FillView::Convert {
                            target: entry.name,
                            source: new_name,
                            mode: conversion_of(entry.ty),
                        },
                    ),
                    from_impls: transformed.from_impls,
                    into_impls: transformed.into_impls,
                    ..assembly
                },
            ),
        }
    }
}

/// An assembly after an added field: the field is appended with the
/// visibility of the struct, the conversion from the original fills it with
/// its type's default value, and the requirement that the type has one is
/// added.
pub open spec fn with_addition(assembly: AssemblyView, addition: AddFieldConfigView, vis: Seq<char>) -> AssemblyView {
    let ty = TypeShape::Verbatim { text: addition.ty };
    AssemblyView {
        fields: assembly.fields.push(
            GeneratedFieldView { attrs: Seq::empty(), vis, name: addition.ident, ty },
        ),
        forward: assembly.forward.push(FillView::Default { target: addition.ident, ty }),
        bounds: with_bound(assembly.bounds, BoundView::HasDefault { ty }),
        ..assembly
    }
}

impl Assembly {
    /// The assembly without fields, with the given requirements.
    pub fn new(bounds: Vec<Bound>) -> (assembly: Assembly)
        ensures
            assembly@ == blank_assembly(views_of(bounds@)),
    {
        let assembly = Assembly {
            fields: Vec::new(),
            forward: Vec::new(),
            backward: Vec::new(),
            skipped: Vec::new(),
            bounds,
            from_impls: Vec::new(),
            into_impls: Vec::new(),
        };
        assert(views_of(assembly.fields@) =~= Seq::empty());
        assert(views_of(assembly.forward@) =~= Seq::empty());
        assert(views_of(assembly.backward@) =~= Seq::empty());
        assert(views_of(assembly.skipped@) =~= Seq::empty());
        assert(views_of(assembly.from_impls@) =~= Seq::empty());
        assert(views_of(assembly.into_impls@) =~= Seq::empty());
        assembly
    }

    /// The assembly after one more field of the original struct; see
    /// [`with_field`]. `new_name` is the field's name in the generated
    /// struct.
    pub fn with_field(self, entry: &FieldEntry, struct_config: &StructConfig, new_name: String) -> (next:
        Result<Assembly, Error>)
        ensures
            view_of_result(next) == with_field(self@, entry@, struct_config@, new_name@),
    {
        let mut assembly = self;
        let config = choose_config(&entry.configs, struct_config.id.as_str());
        if let Some(true) = config.field_skip {
            let fill = Fill::Default { target: entry.name.clone(), ty: entry.ty.duplicate() };
            proof {
                lemma_views_push(assembly.skipped@, fill);
            }
            assembly.skipped.push(fill);
            push_unique(&mut assembly.bounds, Bound::HasDefault { ty: entry.ty.duplicate() });
            return Ok(assembly);
        }
        if is_basic_type(&entry.ty) && config.renames_type() {
            return Err(Error::new(ErrorKind::PrimitiveRenamed, entry.pos, entry.name.as_str()));
        }
        let new_ty = match transform_type(
            &entry.ty,
            struct_config,
            &config,
            entry.pos,
            &mut assembly.from_impls,
            &mut assembly.into_impls,
        ) {
            Ok(t) => t,
            Err(e) => {
                return Err(e);
            },
        };
        let mode = if is_std_collection_type(&entry.ty) {
            Conversion::ElementWise
        } else {
            Conversion::Direct
        };
        let field = GeneratedField {
            attrs: copy_texts(&entry.attrs),
            vis: entry.vis.clone(),
            name: new_name.clone(),
            ty: new_ty,
        };
        let there = Fill::Convert { target: new_name.clone(), source: entry.name.clone(), mode };
        let back = Fill::Convert { target: entry.name.clone(), source: new_name, mode };
        proof {
            lemma_views_push(assembly.fields@, field);
            lemma_views_push(assembly.forward@, there);
            lemma_views_push(assembly.backward@, back);
        }
        assembly.fields.push(field);
        assembly.forward.push(there);
        assembly.backward.push(back);
        Ok(assembly)
    }

    /// The assembly after an added field; see [`with_addition`].
    pub fn with_addition(self, addition: &AddFieldConfig, vis: &str) -> (next: Assembly)
        ensures
            next@ == with_addition(self@, addition@, vis@),
    {
        let mut assembly = self;
        let attrs: Vec<String> = Vec::new();
        assert(attrs.deep_view() =~= Seq::empty());
        let field = GeneratedField {
            attrs,
            vis: String::from_str(vis),
            name: addition.ident.clone(),
            ty: TypeExpr::Verbatim { text: addition.ty.clone() },
        };
        let fill = Fill::Default {
            target: addition.ident.clone(),
            ty: TypeExpr::Verbatim { text: addition.ty.clone() },
        };
        proof {
            lemma_views_push(assembly.fields@, field);
            lemma_views_push(assembly.forward@, fill);
        }
        assembly.fields.push(field);
        assembly.forward.push(fill);
        push_unique(
            &mut assembly.bounds,
            Bound::HasDefault { ty: TypeExpr::Verbatim { text: addition.ty.clone() } },
        );
        assembly
    }
}

// ---------------------------------------------------------------------------
// One generated struct
// ---------------------------------------------------------------------------

/// An assembly after the fields from `from` on, in the order declared, each
/// under its lower camel case name; the first that fails ends it.
pub open spec fn with_fields(
    assembly: AssemblyView,
    entries: Seq<FieldEntryView>,
    from: int,
    variant: StructConfigView,
) -> Result<AssemblyView, ErrorView>
    decreases entries.len() - from,
{
    if 0 <= from < entries.len() {
        match with_field(assembly, entries[from], variant, lower_camel_case(entries[from].name)) {
            Ok(next) => with_fields(next, entries, from + 1, variant),
            Err(e) => Err(e),
        }
    } else {
        Ok(assembly)
    }
}

/// An assembly after the additions from `from` on, in the order declared.
pub open spec fn with_additions(
    assembly: AssemblyView,
    additions: Seq<AddFieldConfigView>,
    from: int,
    vis: Seq<char>,
) -> AssemblyView
    decreases additions.len() - from,
{
    if 0 <= from < additions.len() {
        with_additions(with_addition(assembly, additions[from], vis), additions, from + 1, vis)
    } else {
        assembly
    }
}

/// The requirements of a generated struct: those gathered while its fields
/// were assembled, then the conversions of original types into new ones,
/// then those of new types into original ones, none of them twice.
pub open spec fn gathered_bounds(assembly: AssemblyView) -> Seq<BoundView> {
    with_bounds(with_bounds(assembly.bounds, assembly.from_impls, 0), assembly.into_impls, 0)
}

/// The struct that a finished assembly stands for.
pub open spec fn assembled(
    assembly: AssemblyView,
    name: Seq<char>,
    variant: StructConfigView,
    attrs: Seq<Seq<char>>,
    original: Seq<char>,
    generics: GenericsView,
    vis: Seq<char>,
) -> GeneratedStructView {
    GeneratedStructView {
        name,
        original,
        vis,
        derives: distinct_texts(variant.derives, 0, Seq::empty()),
        attrs,
        generics: GenericsView { params: generics.params, bounds: gathered_bounds(assembly) },
        fields: assembly.fields,
        forward: assembly.forward,
        backward: assembly.backward + assembly.skipped,
    }
}

/// The struct that one variant generates, with its conversions.
///
/// Its name is that of [`new_struct_name`]. Its fields are the fields of the
/// original that the variant keeps, in the order declared, each under its
/// lower camel case name and with its type transformed, and behind them the
/// fields added for this variant (those of its group among `additions`), in
/// the order declared. The conversion from
/// the original converts each kept field and fills each added field with a
/// default value; the conversion back converts each kept field and fills each
/// field that was left out with a default value. The capabilities are those
/// of the variant, each once. The generic parameters are those of the
/// original; the requirements are those of the original, then the default
/// values that are needed, then the conversions between old and new types.
pub open spec fn generated(
    variant: StructConfigView,
    attrs: Seq<Seq<char>>,
    entries: Seq<FieldEntryView>,
    additions: Seq<Seq<AddFieldConfigView>>,
    original: Seq<char>,
    generics: GenericsView,
    vis: Seq<char>,
    pos: usize,
) -> Result<GeneratedStructView, ErrorView> {
    match new_struct_name(original, variant, pos) {
        Err(e) => Err(e),
        Ok(name) => match with_fields(blank_assembly(generics.bounds), entries, 0, variant) {
            Err(e) => Err(e),
            Ok(kept) => Ok(
                assembled(
                    with_additions(kept, additions_for(additions, variant.id), 0, vis),
                    name,
                    variant,
                    attrs,
                    original,
                    generics,
                    vis,
                ),
            ),
        },
    }
}

/// Adds the conversion requirements to the requirements of a struct: first
/// those of `from_impls`, then those of `into_impls`, each unless one that is
/// written the same is there already.
pub fn add_where_clauses(generics: &mut Generics, from_impls: &Vec<Bound>, into_impls: &Vec<Bound>)
    ensures
        final(generics)@.params == old(generics)@.params,
        final(generics)@.bounds == with_bounds(
            with_bounds(old(generics)@.bounds, views_of(from_impls@), 0),
            views_of(into_impls@),
            0,
        ),
{
    let mut existing_preds = texts_of(&generics.bounds);
    push_all_unseen(&mut generics.bounds, &mut existing_preds, from_impls);
    push_all_unseen(&mut generics.bounds, &mut existing_preds, into_impls);
}

/// The fills of `first` followed by those of `second`.
fn join_fills(first: Vec<Fill>, second: Vec<Fill>) -> (joined: Vec<Fill>)
    ensures
        views_of(joined@) == views_of(first@) + views_of(second@),
{
    let mut joined = first;
    let mut rest = second;
    let ghost before = joined@;
    let ghost added = rest@;
    joined.append(&mut rest);
    assert(joined@ == before + added);
    assert(views_of(joined@) =~= views_of(before) + views_of(added));
    joined
}

/// Generates the struct of one variant, with its conversions; see
/// [`generated`].
pub fn generate_struct(
    struct_config: &StructConfig,
    filtered_struct_attrs: &Vec<String>,
    gen_field_vec: &Vec<FieldEntry>,
    add_fields: &AddedFields,
    original_struct_ident: &str,
    original_struct_generics: &Generics,
    original_struct_vis: &str,
    pos: usize,
) -> (new_struct: Result<GeneratedStruct, Error>)
    requires
        add_fields.wf(),
    ensures
        view_of_result(new_struct) == generated(
            struct_config@,
            filtered_struct_attrs.deep_view(),
            views_of(gen_field_vec@),
            add_fields@,
            original_struct_ident@,
            original_struct_generics@,
            original_struct_vis@,
            pos,
        ),
{
    let name = match generate_new_struct_ident(original_struct_ident, struct_config, pos) {
        Ok(n) => n,
        Err(e) => {
            return Err(e);
        },
    };
    let generics = original_struct_generics.duplicate();
    let Generics { params, bounds } = generics;
    let mut assembly = Assembly::new(bounds);
    let ghost start = assembly@;
    let mut i: usize = 0;
    while i < gen_field_vec.len()
        invariant
            i <= gen_field_vec.len(),
            with_fields(start, views_of(gen_field_vec@), 0, struct_config@) == with_fields(
                assembly@,
                views_of(gen_field_vec@),
                i as int,
                struct_config@,
            ),
            new_struct_name(original_struct_ident@, struct_config@, pos) == Ok::<
                Seq<char>,
                ErrorView,
            >(name@),
            start == blank_assembly(original_struct_generics@.bounds),
        decreases gen_field_vec.len() - i,
    {
        assert(views_of(gen_field_vec@)[i as int] == gen_field_vec[i as int]@);
        let new_name = to_lower_camel(gen_field_vec[i].name.as_str());
        match assembly.with_field(&gen_field_vec[i], struct_config, new_name) {
            Ok(next) => {
                assembly = next;
            },
            Err(e) => {
                return Err(e);
            },
        }
        i = i + 1;
    }
    let ghost kept = assembly@;
    match add_fields.get(struct_config.id.as_str()) {
        Some(extra_fields) => {
            let mut j: usize = 0;
            while j < extra_fields.len()
                invariant
                    j <= extra_fields.len(),
                    with_additions(kept, views_of(extra_fields@), 0, original_struct_vis@)
                        == with_additions(
                        assembly@,
                        views_of(extra_fields@),
                        j as int,
                        original_struct_vis@,
                    ),
                decreases extra_fields.len() - j,
            {
                assert(views_of(extra_fields@)[j as int] == extra_fields[j as int]@);
                assembly = assembly.with_addition(&extra_fields[j], original_struct_vis);
                j = j + 1;
            }
        },
        None => {},
    }
    let Assembly { fields, forward, backward, skipped, bounds, from_impls, into_impls } = assembly;
    let mut new_generics = Generics { params, bounds };
    add_where_clauses(&mut new_generics, &from_impls, &into_impls);
    Ok(
        GeneratedStruct {
            name,
            original: String::from_str(original_struct_ident),
            vis: String::from_str(original_struct_vis),
            derives: without_repetitions(&struct_config.derives),
            attrs: copy_texts(filtered_struct_attrs),
            generics: new_generics,
            fields,
            forward,
            backward: join_fills(backward, skipped),
        },
    )
}

} // verus!
