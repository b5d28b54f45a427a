use crate::config::StructConfigView;
use crate::error::{Error, ErrorView};
use crate::generate::{generate_struct, generated};
use crate::parse::{
    all_verdicts_hold, field_configs_of, field_verdicts_hold, gather_field_verdicts,
    gather_verdicts, parse_field_config_with, parse_struct_config_with, rows_of,
    struct_configs_of, tables_of, Planned,
};
use crate::schema::{
    GeneratedStruct, GeneratedStructView, GenericsView, ItemBody, ItemBodyView, OriginalStruct,
    OriginalStructView,
};
use crate::views::{lemma_views_push, views_of};
use vstd::prelude::*;

verus! {

/// The structs that the variants from `from` on generate, in the order of
/// the variants, behind those already `done`; the first that fails ends it.
pub open spec fn generate_each(
    variants: Seq<StructConfigView>,
    from: int,
    attrs: Seq<Seq<char>>,
    planned: Planned,
    original: Seq<char>,
    generics: GenericsView,
    vis: Seq<char>,
    pos: usize,
    done: Seq<GeneratedStructView>,
) -> Result<Seq<GeneratedStructView>, ErrorView>
    decreases variants.len() - from,
{
    if 0 <= from < variants.len() {
        match generated(
            variants[from],
            attrs,
            planned.entries,
            planned.additions,
            original,
            generics,
            vis,
            pos,
        ) {
            Ok(new_struct) => generate_each(
                variants,
                from + 1,
                attrs,
                planned,
                original,
                generics,
                vis,
                pos,
                done.push(new_struct),
            ),
            Err(e) => Err(e),
        }
    } else {
        Ok(done)
    }
}

/// What an item generates, given the verdicts on the source text that its
/// directives hold (`struct_verdicts` for the directives of the struct,
/// `field_verdicts` for those of its fields): nothing where it is no struct;
/// else one struct for each variant that its directives declare, in the order
/// of the first declaration of each variant, or the first failure.
pub open spec fn expanded(
    input: OriginalStructView,
    struct_verdicts: Seq<Seq<bool>>,
    field_verdicts: Seq<Seq<Seq<bool>>>,
) -> Result<Seq<GeneratedStructView>, ErrorView> {
    match input.body {
        ItemBodyView::NotStruct => Ok(Seq::empty()),
        ItemBodyView::Struct { fields } => match struct_configs_of(input.directives, struct_verdicts) {
            Err(e) => Err(e),
            Ok(declared) => match field_configs_of(fields, declared.variants, field_verdicts) {
                Err(e) => Err(e),
                Ok(planned) => generate_each(
                    declared.variants,
                    0,
                    declared.attrs,
                    planned,
                    input.name,
                    input.generics,
                    input.vis,
                    input.pos,
                    Seq::empty(),
                ),
            },
        },
    }
}

/// What holds of the verdicts on the source text that the directives of an
/// item hold: nothing where it is no struct; else [`all_verdicts_hold`] of
/// those of the struct and [`field_verdicts_hold`] of those of its fields.
pub open spec fn item_verdicts_hold(
    input: OriginalStructView,
    struct_verdicts: Seq<Seq<bool>>,
    field_verdicts: Seq<Seq<Seq<bool>>>,
) -> bool {
    match input.body {
        ItemBodyView::NotStruct => true,
        ItemBodyView::Struct { fields } => all_verdicts_hold(input.directives, struct_verdicts)
            && field_verdicts_hold(fields, field_verdicts),
    }
}

/// Whether `outcome` is what an item generates for some verdicts on the
/// source text that its directives hold.
pub open spec fn expansion_read(
    input: OriginalStructView,
    outcome: Result<Seq<GeneratedStructView>, ErrorView>,
) -> bool {
    exists|struct_verdicts: Seq<Seq<bool>>, field_verdicts: Seq<Seq<Seq<bool>>>|
        item_verdicts_hold(input, struct_verdicts, field_verdicts) && outcome == #[trigger] expanded(
            input,
            struct_verdicts,
            field_verdicts,
        )
}

/// The view of what a generation gave.
pub open spec fn view_of_expansion(generated_code: Result<Vec<GeneratedStruct>, Error>) -> Result<
    Seq<GeneratedStructView>,
    ErrorView,
> {
    match generated_code {
        Ok(list) => Ok(views_of(list@)),
        Err(e) => Err(e@),
    }
}

/// Generates the structs of all variants of an item, with their
/// conversions, given the verdicts on the source text that its directives
/// hold; see [`expanded`].
pub fn expand_with(
    input: &OriginalStruct,
    struct_verdicts: &Vec<Vec<bool>>,
    field_verdicts: &Vec<Vec<Vec<bool>>>,
) -> (generated_code: Result<Vec<GeneratedStruct>, Error>)
    ensures
        view_of_expansion(generated_code) == expanded(
            input@,
            rows_of(struct_verdicts@),
            tables_of(field_verdicts@),
        ),
{
    let mut generated_code: Vec<GeneratedStruct> = Vec::new();
    assert(views_of(generated_code@) =~= Seq::empty());
    match &input.body {
        ItemBody::NotStruct => Ok(generated_code),
        ItemBody::Struct { fields } => {
            let (table, attrs) = match parse_struct_config_with(&input.directives, struct_verdicts) {
                Ok(pair) => pair,
                Err(e) => {
                    return Err(e);
                },
            };
            let (additions, entries) = match parse_field_config_with(fields, &table, field_verdicts) {
                Ok(pair) => pair,
                Err(e) => {
                    return Err(e);
                },
            };
            let ghost planned = Planned {
                additions: additions@,
                entries: views_of(entries@),
            };
            let mut i: usize = 0;
            while i < table.len()
                invariant
                    i <= table@.len(),
                    additions.wf(),
                    planned == (Planned {
                        additions: additions@,
                        entries: views_of(entries@),
                    }),
                    expanded(input@, rows_of(struct_verdicts@), tables_of(field_verdicts@))
                        == generate_each(
                        table@,
                        i as int,
                        attrs.deep_view(),
                        planned,
                        input@.name,
                        input@.generics,
                        input@.vis,
                        input@.pos,
                        views_of(generated_code@),
                    ),
                decreases table@.len() - i,
            {
                match generate_struct(
                    table.get(i),
                    &attrs,
                    &entries,
                    &additions,
                    input.name.as_str(),
                    &input.generics,
                    input.vis.as_str(),
                    input.pos,
                ) {
                    Ok(new_struct) => {
                        proof {
                            lemma_views_push(generated_code@, new_struct);
                        }
                        generated_code.push(new_struct);
                    },
                    Err(e) => {
                        return Err(e);
                    },
                }
                i = i + 1;
            }
            Ok(generated_code)
        },
    }
}

/// Generates the structs of all variants of an item, with their
/// conversions. The source text that the directives hold is read on the way;
/// the result is what [`expanded`] gives for the verdicts that came back.
pub fn expand_derive_generate_struct(input: &OriginalStruct) -> (generated_code: Result<
    Vec<GeneratedStruct>,
    Error,
>)
    ensures
        expansion_read(input@, view_of_expansion(generated_code)),
{
    match &input.body {
        ItemBody::NotStruct => {
            let none: Vec<Vec<bool>> = Vec::new();
            let no_fields: Vec<Vec<Vec<bool>>> = Vec::new();
            expand_with(input, &none, &no_fields)
        },
        ItemBody::Struct { fields } => {
            let struct_verdicts = gather_verdicts(&input.directives);
            let field_verdicts = gather_field_verdicts(fields);
            expand_with(input, &struct_verdicts, &field_verdicts)
        },
    }
}

} // verus!
