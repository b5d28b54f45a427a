use crate::config::{
    addition_of, blank_variant, field_config_of, merged_field_config, merged_variant,
    struct_config_of, syntax_verdicts, verdicts_hold, AddFieldConfig, AddFieldConfigView,
    GenFieldConfig, GenFieldConfigView, StructConfig, StructConfigView,
};
use crate::directive::{Directive, DirectiveView};
use crate::error::{failure, Error, ErrorKind, ErrorView};
use crate::index::{added, position_of, AddedFields, VariantTable};
use crate::schema::{Field, FieldEntry, FieldEntryView, FieldView};
use crate::text::same_text;
use crate::views::{lemma_views_push, views_of};
use vstd::prelude::*;

verus! {

// ---------------------------------------------------------------------------
// Verdicts on the source text that directives hold
// ---------------------------------------------------------------------------

/// The verdicts on the options of the directive at `i`; a directive that
/// the list lacks has none.
pub open spec fn row_at(rows: Seq<Seq<bool>>, i: int) -> Seq<bool> {
    if 0 <= i < rows.len() {
        rows[i]
    } else {
        Seq::empty()
    }
}

/// The verdicts on the directives of the field at `i`; a field that the
/// list lacks has none.
pub open spec fn table_at(tables: Seq<Seq<Seq<bool>>>, i: int) -> Seq<Seq<bool>> {
    if 0 <= i < tables.len() {
        tables[i]
    } else {
        Seq::empty()
    }
}

/// Lists of verdicts as sequences.
pub open spec fn rows_of(rows: Seq<Vec<bool>>) -> Seq<Seq<bool>> {
    Seq::new(rows.len(), |i: int| rows[i]@)
}

/// Lists of lists of verdicts as sequences.
pub open spec fn tables_of(tables: Seq<Vec<Vec<bool>>>) -> Seq<Seq<Seq<bool>>> {
    Seq::new(tables.len(), |i: int| rows_of(tables[i]@))
}

/// What holds of the verdicts on a list of directives: there is a list for
/// each directive, and [`verdicts_hold`] of each.
pub open spec fn all_verdicts_hold(directives: Seq<DirectiveView>, verdicts: Seq<Seq<bool>>) -> bool {
    &&& verdicts.len() == directives.len()
    &&& forall|i: int|
        0 <= i < directives.len() ==> verdicts_hold(directives[i], #[trigger] verdicts[i])
}

/// What holds of the verdicts on the directives of a list of fields.
pub open spec fn field_verdicts_hold(fields: Seq<FieldView>, verdicts: Seq<Seq<Seq<bool>>>) -> bool {
    &&& verdicts.len() == fields.len()
    &&& forall|i: int|
        0 <= i < fields.len() ==> all_verdicts_hold(fields[i].directives, #[trigger] verdicts[i])
}

/// Reads the source text that a list of directives holds; see
/// [`syntax_verdicts`].
pub fn gather_verdicts(attrs: &Vec<Directive>) -> (verdicts: Vec<Vec<bool>>)
    ensures
        all_verdicts_hold(views_of(attrs@), rows_of(verdicts@)),
{
    let mut verdicts: Vec<Vec<bool>> = Vec::new();
    let mut i: usize = 0;
    while i < attrs.len()
        invariant
            i <= attrs.len(),
            verdicts.len() == i,
            forall|k: int| 0 <= k < i ==> verdicts_hold(attrs[k]@, #[trigger] verdicts[k]@),
        decreases attrs.len() - i,
    {
        let row = syntax_verdicts(&attrs[i]);
        verdicts.push(row);
        i = i + 1;
    }
    assert forall|k: int| 0 <= k < views_of(attrs@).len() implies verdicts_hold(
        views_of(attrs@)[k],
        #[trigger] rows_of(verdicts@)[k],
    ) by {
        assert(verdicts_hold(attrs[k]@, verdicts[k]@));
    }
    verdicts
}

/// Reads the source text that the directives of a list of fields hold.
pub fn gather_field_verdicts(fields: &Vec<Field>) -> (verdicts: Vec<Vec<Vec<bool>>>)
    ensures
        field_verdicts_hold(views_of(fields@), tables_of(verdicts@)),
{
    let mut verdicts: Vec<Vec<Vec<bool>>> = Vec::new();
    let mut i: usize = 0;
    while i < fields.len()
        invariant
            i <= fields.len(),
            verdicts.len() == i,
            forall|k: int|
                0 <= k < i ==> all_verdicts_hold(
                    fields[k]@.directives,
                    rows_of(#[trigger] verdicts[k]@),
                ),
        decreases fields.len() - i,
    {
        let rows = gather_verdicts(&fields[i].directives);
        verdicts.push(rows);
        i = i + 1;
    }
    assert forall|k: int| 0 <= k < views_of(fields@).len() implies all_verdicts_hold(
        views_of(fields@)[k].directives,
        #[trigger] tables_of(verdicts@)[k],
    ) by {
        assert(all_verdicts_hold(fields[k]@.directives, rows_of(verdicts[k]@)));
    }
    verdicts
}

// ---------------------------------------------------------------------------
// The directives of the struct
// ---------------------------------------------------------------------------

/// What the directives of a struct have given so far: the variants in the
/// order of their first declaration, and the directives that are handed on
/// as they were written.
pub struct Declared {
    pub variants: Seq<StructConfigView>,
    pub attrs: Seq<Seq<char>>,
}

/// The variants after the declaration of one more: a second declaration of
/// an id is merged into the first, a new id comes last.
pub open spec fn declare_variant(variants: Seq<StructConfigView>, config: StructConfigView, pos: usize) -> Result<
    Seq<StructConfigView>,
    ErrorView,
> {
    match position_of(variants, config.id) {
        Some(k) => match merged_variant(variants[k], config, pos) {
            Ok(merged) => Ok(variants.update(k, merged)),
            Err(e) => Err(e),
        },
        None => Ok(variants.push(config)),
    }
}

/// What the directives of a struct have given after one more directive,
/// given the verdicts on its options. A `gen_camel` directive declares a
/// variant; `add_field` and `gen_field` do not belong on a struct; any other
/// directive is handed on.
pub open spec fn struct_directive(declared: Declared, directive: DirectiveView, verdicts: Seq<bool>) -> Result<
    Declared,
    ErrorView,
> {
    match struct_config_of(directive, verdicts) {
        Err(e) => Err(e),
        Ok(Some(config)) => match declare_variant(declared.variants, config, directive.pos) {
            Ok(variants) => Ok(Declared { variants, attrs: declared.attrs }),
            Err(e) => Err(e),
        },
        Ok(None) => if directive.name == "add_field"@ || directive.name == "gen_field"@ {
            Err(failure(ErrorKind::Misplaced, directive.pos, directive.name))
        } else {
            Ok(Declared { variants: declared.variants, attrs: declared.attrs.push(directive.text) })
        },
    }
}

/// What the directives from `from` on give, in the order written; the first
/// that fails ends it.
pub open spec fn struct_directives(
    declared: Declared,
    directives: Seq<DirectiveView>,
    from: int,
    verdicts: Seq<Seq<bool>>,
) -> Result<Declared, ErrorView>
    decreases directives.len() - from,
{
    if 0 <= from < directives.len() {
        match struct_directive(declared, directives[from], row_at(verdicts, from)) {
            Ok(next) => struct_directives(next, directives, from + 1, verdicts),
            Err(e) => Err(e),
        }
    } else {
        Ok(declared)
    }
}

/// The variants that the directives of a struct declare, and the directives
/// that are handed on, given the verdicts on the options of each directive.
/// Where no directive declares a variant, there is the one default variant:
/// the empty id and nothing set.
pub open spec fn struct_configs_of(directives: Seq<DirectiveView>, verdicts: Seq<Seq<bool>>) -> Result<
    Declared,
    ErrorView,
> {
    match struct_directives(
        Declared { variants: Seq::empty(), attrs: Seq::empty() },
        directives,
        0,
        verdicts,
    ) {
        Err(e) => Err(e),
        Ok(declared) => if declared.variants.len() == 0 {
            Ok(Declared { variants: seq![blank_variant()], attrs: declared.attrs })
        } else {
            Ok(declared)
        },
    }
}

/// Declares one more variant in a table; see [`declare_variant`].
pub fn declare(table: VariantTable, config: StructConfig, pos: usize) -> (next: Result<
    VariantTable,
    Error,
>)
    requires
        table.wf(),
    ensures
        (match next {
            Ok(t) => t.wf() && declare_variant(table@, config@, pos) == Ok::<
                Seq<StructConfigView>,
                ErrorView,
            >(t@),
            Err(e) => declare_variant(table@, config@, pos) == Err::<
                Seq<StructConfigView>,
                ErrorView,
            >(e@),
        }),
{
    let mut table = table;
    match table.position(config.id.as_str()) {
        Some(k) => {
            let mut merged = table.get(k).duplicate();
            match merged.merge(config, pos) {
                Ok(_) => {
                    table.replace(k, merged);
                    Ok(table)
                },
                Err(e) => Err(e),
            }
        },
        None => {
            table.push(config);
            Ok(table)
        },
    }
}

/// Whether `parsed` is what the directives of a struct give for the given
/// verdicts: the table of the variants, well-formed, and the directives that
/// are handed on; or the failure.
pub open spec fn struct_configs_parsed(
    parsed: Result<(VariantTable, Vec<String>), Error>,
    directives: Seq<DirectiveView>,
    verdicts: Seq<Seq<bool>>,
) -> bool {
    match parsed {
        Ok((table, kept)) => table.wf() && struct_configs_of(directives, verdicts) == Ok::<
            Declared,
            ErrorView,
        >(Declared { variants: table@, attrs: kept.deep_view() }),
        Err(e) => struct_configs_of(directives, verdicts) == Err::<Declared, ErrorView>(e@),
    }
}

/// Whether `parsed` is what the directives of a struct give for some
/// verdicts on the source text that they hold.
pub open spec fn struct_configs_read(
    parsed: Result<(VariantTable, Vec<String>), Error>,
    directives: Seq<DirectiveView>,
) -> bool {
    exists|verdicts: Seq<Seq<bool>>|
        all_verdicts_hold(directives, verdicts) && #[trigger] struct_configs_parsed(
            parsed,
            directives,
            verdicts,
        )
}

/// Reads the directives of a struct, given the verdicts on the options of
/// each: the variants that they declare, and the directives that are handed
/// on as they were written; see [`struct_configs_of`].
pub fn parse_struct_config_with(attrs: &Vec<Directive>, verdicts: &Vec<Vec<bool>>) -> (parsed: Result<
    (VariantTable, Vec<String>),
    Error,
>)
    ensures
        struct_configs_parsed(parsed, views_of(attrs@), rows_of(verdicts@)),
{
    let mut table = VariantTable::new();
    let mut kept: Vec<String> = Vec::new();
    assert(kept.deep_view() =~= Seq::empty());
    let none: Vec<bool> = Vec::new();
    let ghost start = Declared { variants: Seq::empty(), attrs: Seq::empty() };
    let mut i: usize = 0;
    while i < attrs.len()
        invariant
            i <= attrs.len(),
            table.wf(),
            none@.len() == 0,
            start == (Declared { variants: Seq::empty(), attrs: Seq::empty() }),
            struct_directives(start, views_of(attrs@), 0, rows_of(verdicts@)) == struct_directives(
                Declared { variants: table@, attrs: kept.deep_view() },
                views_of(attrs@),
                i as int,
                rows_of(verdicts@),
            ),
        decreases attrs.len() - i,
    {
        let attr = &attrs[i];
        assert(views_of(attrs@)[i as int] == attr@);
        let row = if i < verdicts.len() {
            &verdicts[i]
        } else {
            &none
        };
        assert(row@ =~= row_at(rows_of(verdicts@), i as int));
        match StructConfig::from_attr_with(attr, row) {
            Err(e) => {
                return Err(e);
            },
            Ok(Some(config)) => {
                match declare(table, config, attr.pos) {
                    Ok(next) => {
                        table = next;
                    },
                    Err(e) => {
                        return Err(e);
                    },
                }
            },
            Ok(None) => {
                if attr.is_named("add_field") || attr.is_named("gen_field") {
                    return Err(Error::new(ErrorKind::Misplaced, attr.pos, attr.name.as_str()));
                }
                let ghost before = kept.deep_view();
                kept.push(attr.text.clone());
                assert(kept.deep_view() =~= before.push(attr@.text));
            },
        }
        i = i + 1;
    }
    if table.len() == 0 {
        table.push(StructConfig::new());
        assert(table@ =~= seq![blank_variant()]);
    }
    Ok((table, kept))
}

/// Reads the directives of a struct: the variants that they declare, and
/// the directives that are handed on as they were written. The source text
/// that the directives hold is read on the way; the result is what
/// [`struct_configs_of`] gives for the verdicts that came back.
pub fn parse_struct_config(attrs: &Vec<Directive>) -> (parsed: Result<
    (VariantTable, Vec<String>),
    Error,
>)
    ensures
        struct_configs_read(parsed, views_of(attrs@)),
{
    let verdicts = gather_verdicts(attrs);
    parse_struct_config_with(attrs, &verdicts)
}

// ---------------------------------------------------------------------------
// The directives of the fields
// ---------------------------------------------------------------------------

/// What the directives of the fields have given so far: the additions, in
/// a group for each variant, and the named fields, both in the order
/// declared.
pub struct Planned {
    pub additions: Seq<Seq<AddFieldConfigView>>,
    pub entries: Seq<FieldEntryView>,
}

/// What the directives of one field have given so far: the additions, the
/// field's configurations, one for each id, and the directives that are
/// handed on.
pub struct FieldDraft {
    pub additions: Seq<Seq<AddFieldConfigView>>,
    pub configs: Seq<GenFieldConfigView>,
    pub attrs: Seq<Seq<char>>,
}

/// The first place in `configs` of the configuration with the given id.
pub open spec fn config_position(configs: Seq<GenFieldConfigView>, id: Seq<char>) -> Option<int> {
    if exists|i: int| 0 <= i < configs.len() && configs[i].id == id {
        Some(choose|i: int| 0 <= i < configs.len() && configs[i].id == id && forall|j: int|
            0 <= j < i ==> configs[j].id != id)
    } else {
        None
    }
}

/// The configurations of a field after one more: a second one for an id is
/// merged into the first, a new id comes last.
pub open spec fn configure_field(configs: Seq<GenFieldConfigView>, config: GenFieldConfigView, pos: usize) -> Result<
    Seq<GenFieldConfigView>,
    ErrorView,
> {
    match config_position(configs, config.id) {
        Some(k) => match merged_field_config(configs[k], config, pos) {
            Ok(merged) => Ok(configs.update(k, merged)),
            Err(e) => Err(e),
        },
        None => Ok(configs.push(config)),
    }
}

/// What the directives of a field have given after one more directive.
///
/// An `add_field` directive adds a field to the variant that it names, which
/// must be declared. Every other directive needs a named field. A
/// `gen_field` directive configures the field for the variant that it names,
/// which must be declared unless the id is empty; `gen_camel` does not belong
/// on a field; any other directive is handed on.
pub open spec fn field_directive(
    draft: FieldDraft,
    named: bool,
    directive: DirectiveView,
    variants: Seq<StructConfigView>,
    verdicts: Seq<bool>,
) -> Result<FieldDraft, ErrorView> {
    match addition_of(directive, verdicts) {
        Err(e) => Err(e),
        Ok(Some(addition)) => if position_of(variants, addition.id) is None {
            Err(failure(ErrorKind::UnknownVariant, addition.pos, addition.id))
        } else {
            Ok(FieldDraft { additions: added(draft.additions, addition), ..draft })
        },
        Ok(None) => if !named {
            Err(failure(ErrorKind::UnnamedField, directive.pos, directive.name))
        } else {
            match field_config_of(directive) {
                Err(e) => Err(e),
                Ok(Some(config)) => if config.id.len() > 0 && position_of(variants, config.id) is None {
                    Err(failure(ErrorKind::UnknownVariant, directive.pos, config.id))
                } else {
                    match configure_field(draft.configs, config, directive.pos) {
                        Ok(configs) => Ok(FieldDraft { configs, ..draft }),
                        Err(e) => Err(e),
                    }
                },
                Ok(None) => if directive.name == "gen_camel"@ {
                    Err(failure(ErrorKind::Misplaced, directive.pos, directive.name))
                } else {
                    Ok(FieldDraft { attrs: draft.attrs.push(directive.text), ..draft })
                },
            }
        },
    }
}

/// What the directives of a field give from `from` on, in the order written;
/// the first that fails ends it.
pub open spec fn field_directives(
    draft: FieldDraft,
    named: bool,
    directives: Seq<DirectiveView>,
    from: int,
    variants: Seq<StructConfigView>,
    verdicts: Seq<Seq<bool>>,
) -> Result<FieldDraft, ErrorView>
    decreases directives.len() - from,
{
    if 0 <= from < directives.len() {
        match field_directive(draft, named, directives[from], variants, row_at(verdicts, from)) {
            Ok(next) => field_directives(next, named, directives, from + 1, variants, verdicts),
            Err(e) => Err(e),
        }
    } else {
        Ok(draft)
    }
}

/// What the fields have given after one more field. A named field is
/// entered with what its directives ask of it. A field without a name is
/// entered nowhere: it may only carry additions, and without any directive it
/// fails.
pub open spec fn plan_field(
    planned: Planned,
    field: FieldView,
    variants: Seq<StructConfigView>,
    verdicts: Seq<Seq<bool>>,
) -> Result<Planned, ErrorView> {
    match field_directives(
        FieldDraft { additions: planned.additions, configs: Seq::empty(), attrs: Seq::empty() },
        field.name is Some,
        field.directives,
        0,
        variants,
        verdicts,
    ) {
        Err(e) => Err(e),
        Ok(draft) => match field.name {
            Some(name) => Ok(
                Planned {
                    additions: draft.additions,
                    entries: planned.entries.push(
                        FieldEntryView {
                            name,
                            vis: field.vis,
                            ty: field.ty,
                            pos: field.pos,
                            configs: draft.configs,
                            attrs: draft.attrs,
                        },
                    ),
                },
            ),
            None => if field.directives.len() == 0 {
                Err(failure(ErrorKind::UnnamedField, field.pos, Seq::empty()))
            } else {
                Ok(Planned { additions: draft.additions, entries: planned.entries })
            },
        },
    }
}

/// What the fields from `from` on give, in the order declared; the first
/// that fails ends it.
pub open spec fn plan_fields(
    planned: Planned,
    fields: Seq<FieldView>,
    from: int,
    variants: Seq<StructConfigView>,
    verdicts: Seq<Seq<Seq<bool>>>,
) -> Result<Planned, ErrorView>
    decreases fields.len() - from,
{
    if 0 <= from < fields.len() {
        match plan_field(planned, fields[from], variants, table_at(verdicts, from)) {
            Ok(next) => plan_fields(next, fields, from + 1, variants, verdicts),
            Err(e) => Err(e),
        }
    } else {
        Ok(planned)
    }
}

/// What the directives of the fields of a struct give, given the verdicts
/// on the options of each directive of each field: the additions and the
/// named fields, both in the order declared.
pub open spec fn field_configs_of(
    fields: Seq<FieldView>,
    variants: Seq<StructConfigView>,
    verdicts: Seq<Seq<Seq<bool>>>,
) -> Result<Planned, ErrorView> {
    plan_fields(
        Planned { additions: Seq::empty(), entries: Seq::empty() },
        fields,
        0,
        variants,
        verdicts,
    )
}

/// Whether `parsed` is what the directives of the fields give for the given
/// verdicts.
pub open spec fn field_configs_parsed(
    parsed: Result<(AddedFields, Vec<FieldEntry>), Error>,
    fields: Seq<FieldView>,
    variants: Seq<StructConfigView>,
    verdicts: Seq<Seq<Seq<bool>>>,
) -> bool {
    match parsed {
        Ok((additions, entries)) => additions.wf() && field_configs_of(fields, variants, verdicts)
            == Ok::<Planned, ErrorView>(Planned { additions: additions@, entries: views_of(entries@) }),
        Err(e) => field_configs_of(fields, variants, verdicts) == Err::<Planned, ErrorView>(e@),
    }
}

/// Whether `parsed` is what the directives of the fields give for some
/// verdicts on the source text that they hold.
pub open spec fn field_configs_read(
    parsed: Result<(AddedFields, Vec<FieldEntry>), Error>,
    fields: Seq<FieldView>,
    variants: Seq<StructConfigView>,
) -> bool {
    exists|verdicts: Seq<Seq<Seq<bool>>>|
        field_verdicts_hold(fields, verdicts) && #[trigger] field_configs_parsed(
            parsed,
            fields,
            variants,
            verdicts,
        )
}

/// The place of the configuration with the given id.
fn find_position(configs: &Vec<GenFieldConfig>, id: &str) -> (place: Option<usize>)
    ensures
        (match place {
            Some(k) => k < configs.len() && config_position(views_of(configs@), id@) == Some(
                k as int,
            ),
            None => config_position(views_of(configs@), id@) is None,
        }),
{
    let mut i: usize = 0;
    while i < configs.len()
        invariant
            i <= configs.len(),
            forall|k: int| 0 <= k < i ==> views_of(configs@)[k].id != id@,
        decreases configs.len() - i,
    {
        if same_text(configs[i].id.as_str(), id) {
            assert(views_of(configs@)[i as int].id == id@);
            return Some(i);
        }
        i = i + 1;
    }
    None
}

/// Adds one more configuration to those of a field; see
/// [`configure_field`].
pub fn configure(configs: Vec<GenFieldConfig>, config: GenFieldConfig, pos: usize) -> (next: Result<
    Vec<GenFieldConfig>,
    Error,
>)
    ensures
        (match next {
            Ok(list) => configure_field(views_of(configs@), config@, pos) == Ok::<
                Seq<GenFieldConfigView>,
                ErrorView,
            >(views_of(list@)),
            Err(e) => configure_field(views_of(configs@), config@, pos) == Err::<
                Seq<GenFieldConfigView>,
                ErrorView,
            >(e@),
        }),
{
    let mut list = configs;
    match find_position(&list, config.id.as_str()) {
        Some(k) => {
            assert(views_of(list@)[k as int] == list[k as int]@);
            let mut merged = list[k].duplicate();
            match merged.merge(config, pos) {
                Ok(_) => {
                    let ghost before = list@;
                    list.set(k, merged);
                    assert(views_of(list@) =~= views_of(before).update(k as int, merged@));
                    Ok(list)
                },
                Err(e) => Err(e),
            }
        },
        None => {
            proof {
                lemma_views_push(list@, config);
            }
            list.push(config);
            Ok(list)
        },
    }
}

/// Reads the directives of the fields of a struct whose variants are those
/// of `table`, given the verdicts on the options of each directive of each
/// field: the additions and the named fields, both in the order declared;
/// see [`field_configs_of`].
pub fn parse_field_config_with(
    fields: &Vec<Field>,
    table: &VariantTable,
    verdicts: &Vec<Vec<Vec<bool>>>,
) -> (parsed: Result<(AddedFields, Vec<FieldEntry>), Error>)
    requires
        table.wf(),
    ensures
        field_configs_parsed(parsed, views_of(fields@), table@, tables_of(verdicts@)),
{
    let mut additions = AddedFields::new();
    let mut entries: Vec<FieldEntry> = Vec::new();
    assert(views_of(entries@) =~= Seq::empty());
    let none: Vec<bool> = Vec::new();
    let no_rows: Vec<Vec<bool>> = Vec::new();
    let mut i: usize = 0;
    while i < fields.len()
        invariant
            i <= fields.len(),
            table.wf(),
            additions.wf(),
            none@.len() == 0,
            no_rows@.len() == 0,
            field_configs_of(views_of(fields@), table@, tables_of(verdicts@)) == plan_fields(
                Planned { additions: additions@, entries: views_of(entries@) },
                views_of(fields@),
                i as int,
                table@,
                tables_of(verdicts@),
            ),
        decreases fields.len() - i,
    {
        let field = &fields[i];
        assert(views_of(fields@)[i as int] == field@);
        let named = field.name.is_some();
        let rows = if i < verdicts.len() {
            &verdicts[i]
        } else {
            &no_rows
        };
        assert(rows_of(rows@) =~= table_at(tables_of(verdicts@), i as int));
        let mut configs: Vec<GenFieldConfig> = Vec::new();
        let mut attrs: Vec<String> = Vec::new();
        assert(views_of(configs@) =~= Seq::empty());
        assert(attrs.deep_view() =~= Seq::empty());
        let ghost start = FieldDraft {
            additions: additions@,
            configs: Seq::empty(),
            attrs: Seq::empty(),
        };
        let ghost planned = Planned {
            additions: additions@,
            entries: views_of(entries@),
        };
        let mut j: usize = 0;
        while j < field.directives.len()
            invariant
                j <= field.directives.len(),
                i < fields.len(),
                table.wf(),
                additions.wf(),
                none@.len() == 0,
                rows_of(rows@) == table_at(tables_of(verdicts@), i as int),
                field == &fields[i as int],
                views_of(fields@)[i as int] == field@,
                named == (field@.name is Some),
                planned.additions == start.additions,
                planned.entries == views_of(entries@),
                start.configs == Seq::<GenFieldConfigView>::empty(),
                start.attrs == Seq::<Seq<char>>::empty(),
                field_configs_of(views_of(fields@), table@, tables_of(verdicts@)) == plan_fields(
                    planned,
                    views_of(fields@),
                    i as int,
                    table@,
                    tables_of(verdicts@),
                ),
                field_directives(start, named, field@.directives, 0, table@, rows_of(rows@))
                    == field_directives(
                    FieldDraft {
                        additions: additions@,
                        configs: views_of(configs@),
                        attrs: attrs.deep_view(),
                    },
                    named,
                    field@.directives,
                    j as int,
                    table@,
                    rows_of(rows@),
                ),
            decreases field.directives.len() - j,
        {
            let attr = &field.directives[j];
            assert(field@.directives[j as int] == attr@);
            let row = if j < rows.len() {
                &rows[j]
            } else {
                &none
            };
            assert(row@ =~= row_at(rows_of(rows@), j as int));
            match AddFieldConfig::from_attr_with(attr, row) {
                Err(e) => {
                    return Err(e);
                },
                Ok(Some(addition)) => {
                    if table.position(addition.id.as_str()).is_none() {
                        return Err(
                            Error::new(
                                ErrorKind::UnknownVariant,
                                addition.pos,
                                addition.id.as_str(),
                            ),
                        );
                    }
                    additions.add(addition);
                },
                Ok(None) => {
                    if !named {
                        return Err(
                            Error::new(ErrorKind::UnnamedField, attr.pos, attr.name.as_str()),
                        );
                    }
                    match GenFieldConfig::from_attr(attr) {
                        Err(e) => {
                            return Err(e);
                        },
                        Ok(Some(config)) => {
                            if config.id.as_str().unicode_len() > 0 && table.position(
                                config.id.as_str(),
                            ).is_none() {
                                return Err(
                                    Error::new(
                                        ErrorKind::UnknownVariant,
                                        attr.pos,
                                        config.id.as_str(),
                                    ),
                                );
                            }
                            match configure(configs, config, attr.pos) {
                                Ok(next) => {
                                    configs = next;
                                },
                                Err(e) => {
                                    return Err(e);
                                },
                            }
                        },
                        Ok(None) => {
                            if attr.is_named("gen_camel") {
                                return Err(
                                    Error::new(ErrorKind::Misplaced, attr.pos, attr.name.as_str()),
                                );
                            }
                            let ghost before = attrs.deep_view();
                            attrs.push(attr.text.clone());
                            assert(attrs.deep_view() =~= before.push(attr@.text));
                        },
                    }
                },
            }
            j = j + 1;
        }
        match &field.name {
            Some(name) => {
                let entry = FieldEntry {
                    name: name.clone(),
                    vis: field.vis.clone(),
                    ty: field.ty.duplicate(),
                    pos: field.pos,
                    configs,
                    attrs,
                };
                proof {
                    lemma_views_push(entries@, entry);
                }
                entries.push(entry);
            },
            None => {
                if field.directives.len() == 0 {
                    proof {
                        reveal_strlit("");
                        assert(""@ =~= Seq::<char>::empty());
                    }
                    return Err(Error::new(ErrorKind::UnnamedField, field.pos, ""));
                }
            },
        }
        i = i + 1;
    }
    Ok((additions, entries))
}

/// Reads the directives of the fields of a struct whose variants are those
/// of `table`: the additions and the named fields, both in the order
/// declared. The source text that the directives hold is read on the way;
/// the result is what [`field_configs_of`] gives for the verdicts that came
/// back.
pub fn parse_field_config(fields: &Vec<Field>, table: &VariantTable) -> (parsed: Result<
    (AddedFields, Vec<FieldEntry>),
    Error,
>)
    requires
        table.wf(),
    ensures
        field_configs_read(parsed, views_of(fields@), table@),
{
    let verdicts = gather_field_verdicts(fields);
    parse_field_config_with(fields, table, &verdicts)
}

} // verus!
