use crate::directive::{
    bare_flag, explicit_type_option, literal_string, required_string, Directive, DirectiveOption,
    DirectiveOptionView, DirectiveView, OptionValue, OptionValueView,
};
use crate::error::{failure, Error, ErrorKind, ErrorView, Setting};
use crate::syntax::{is_ident, is_path, is_type, within_limit};
use crate::text::{copy_optional, copy_texts, join_texts, list_entries, split_list};
use crate::views::{view_of_option, view_of_optional_result, view_of_result};
use vstd::prelude::*;

verus! {

/// The configuration of one variant: the struct that is generated for one id.
#[derive(Clone, Debug, PartialEq, Eq)]
pub struct StructConfig {
    pub id: String,
    pub prefix: Option<String>,
    pub suffix: Option<String>,
    pub name: Option<String>,
    pub derives: Vec<String>,
}

pub struct StructConfigView {
    pub id: Seq<char>,
    pub prefix: Option<Seq<char>>,
    pub suffix: Option<Seq<char>>,
    pub name: Option<Seq<char>>,
    pub derives: Seq<Seq<char>>,
}

impl View for StructConfig {
    type V = StructConfigView;

    open spec fn view(&self) -> StructConfigView {
        StructConfigView {
            id: self.id@,
            prefix: self.prefix.deep_view(),
            suffix: self.suffix.deep_view(),
            name: self.name.deep_view(),
            derives: self.derives.deep_view(),
        }
    }
}

/// What a field directive asks of one field in one variant.
#[derive(Clone, Debug, PartialEq, Eq)]
pub struct GenFieldConfig {
    pub id: String,
    pub type_prefix: Option<String>,
    pub type_suffix: Option<String>,
    pub explicit_type: Option<String>,
    pub field_skip: Option<bool>,
}

pub struct GenFieldConfigView {
    pub id: Seq<char>,
    pub type_prefix: Option<Seq<char>>,
    pub type_suffix: Option<Seq<char>>,
    pub explicit_type: Option<Seq<char>>,
    pub field_skip: Option<bool>,
}

impl View for GenFieldConfig {
    type V = GenFieldConfigView;

    open spec fn view(&self) -> GenFieldConfigView {
        GenFieldConfigView {
            id: self.id@,
            type_prefix: self.type_prefix.deep_view(),
            type_suffix: self.type_suffix.deep_view(),
            explicit_type: self.explicit_type.deep_view(),
            field_skip: self.field_skip,
        }
    }
}

/// A field that exists only in the variant `id`. `pos` is the position tag of
/// the option that names the field.
#[derive(Clone, Debug, PartialEq, Eq)]
pub struct AddFieldConfig {
    pub id: String,
    pub ident: String,
    pub ty: String,
    pub pos: usize,
}

pub struct AddFieldConfigView {
    pub id: Seq<char>,
    pub ident: Seq<char>,
    pub ty: Seq<char>,
    pub pos: usize,
}

impl View for AddFieldConfig {
    type V = AddFieldConfigView;

    open spec fn view(&self) -> AddFieldConfigView {
        AddFieldConfigView { id: self.id@, ident: self.ident@, ty: self.ty@, pos: self.pos }
    }
}

/// An addition while its options are read: the name and the type may still
/// be missing.
#[derive(Clone, Debug, PartialEq, Eq)]
pub struct AddFieldDraft {
    pub id: String,
    pub ident: Option<String>,
    pub ty: Option<String>,
    pub pos: usize,
}

pub struct AddFieldDraftView {
    pub id: Seq<char>,
    pub ident: Option<Seq<char>>,
    pub ty: Option<Seq<char>>,
    pub pos: usize,
}

impl View for AddFieldDraft {
    type V = AddFieldDraftView;

    open spec fn view(&self) -> AddFieldDraftView {
        AddFieldDraftView {
            id: self.id@,
            ident: self.ident.deep_view(),
            ty: self.ty.deep_view(),
            pos: self.pos,
        }
    }
}

// ---------------------------------------------------------------------------
// Struct directives
// ---------------------------------------------------------------------------

/// The variant that no option has touched: the empty id and nothing set.
pub open spec fn blank_variant() -> StructConfigView {
    StructConfigView {
        id: Seq::empty(),
        prefix: None,
        suffix: None,
        name: None,
        derives: Seq::empty(),
    }
}

/// The verdict at one place of a list of verdicts; a place that the list
/// lacks counts as accepted.
pub open spec fn verdict_at(verdicts: Seq<bool>, i: int) -> bool {
    if 0 <= i < verdicts.len() {
        verdicts[i]
    } else {
        true
    }
}

/// What holds of the verdict on whether a `derive` option lists paths only,
/// however the reading of its entries went: a list without entries is
/// accepted, a list with an entry that is too heavy to be read is refused.
/// Of any other option the verdict is that it is accepted.
pub open spec fn paths_verdict(option: DirectiveOptionView, ok: bool) -> bool {
    match option.value {
        OptionValueView::Str(s) => if option.name == "derive"@ {
            let entries = list_entries(s, 0);
            &&& entries.len() == 0 ==> ok
            &&& (exists|i: int| 0 <= i < entries.len() && !within_limit(#[trigger] entries[i]))
                ==> !ok
        } else {
            ok
        },
        _ => ok,
    }
}

/// A variant after one more option of a struct directive. `paths_ok` says
/// whether the entries of a `derive` list are all paths.
pub open spec fn struct_option(
    config: StructConfigView,
    option: DirectiveOptionView,
    paths_ok: bool,
) -> Result<StructConfigView, ErrorView> {
    if option.name == "id"@ {
        match required_string(option) {
            Ok(s) => Ok(StructConfigView { id: s, ..config }),
            Err(e) => Err(e),
        }
    } else if option.name == "prefix"@ {
        match literal_string(option) {
            Ok(Some(s)) => Ok(StructConfigView { prefix: Some(s), ..config }),
            Ok(None) => Ok(config),
            Err(e) => Err(e),
        }
    } else if option.name == "suffix"@ {
        match literal_string(option) {
            Ok(Some(s)) => Ok(StructConfigView { suffix: Some(s), ..config }),
            Ok(None) => Ok(config),
            Err(e) => Err(e),
        }
    } else if option.name == "name"@ {
        match literal_string(option) {
            Ok(Some(s)) => Ok(StructConfigView { name: Some(s), ..config }),
            Ok(None) => Ok(config),
            Err(e) => Err(e),
        }
    } else if option.name == "derive"@ {
        match required_string(option) {
            Ok(s) => if paths_ok {
                Ok(StructConfigView { derives: list_entries(s, 0), ..config })
            } else {
                Err(failure(ErrorKind::InvalidDerivePath, option.pos, s))
            },
            Err(e) => Err(e),
        }
    } else {
        Err(failure(ErrorKind::UnknownOption, option.pos, option.name))
    }
}

/// A variant after the options from `from` on, in the order written; the
/// first option that fails ends it. `verdicts` holds, for each option, the
/// verdict on its paths.
pub open spec fn struct_options(
    config: StructConfigView,
    options: Seq<DirectiveOptionView>,
    from: int,
    verdicts: Seq<bool>,
) -> Result<StructConfigView, ErrorView>
    decreases options.len() - from,
{
    if 0 <= from < options.len() {
        match struct_option(config, options[from], verdict_at(verdicts, from)) {
            Ok(next) => struct_options(next, options, from + 1, verdicts),
            Err(e) => Err(e),
        }
    } else {
        Ok(config)
    }
}

/// Whether a variant sets at least one of name, prefix, suffix and derive.
pub open spec fn variant_says_something(config: StructConfigView) -> bool {
    config.name is Some || config.prefix is Some || config.suffix is Some || config.derives.len()
        > 0
}

/// What a directive declares as a variant, given the verdicts on its
/// options: nothing where it is no `gen_camel` directive; else the variant
/// that its options give, which must say something.
pub open spec fn struct_config_of(directive: DirectiveView, verdicts: Seq<bool>) -> Result<
    Option<StructConfigView>,
    ErrorView,
> {
    if directive.name != "gen_camel"@ {
        Ok(None)
    } else {
        match struct_options(blank_variant(), directive.options, 0, verdicts) {
            Err(e) => Err(e),
            Ok(config) => if variant_says_something(config) {
                Ok(Some(config))
            } else {
                Err(failure(ErrorKind::NothingSpecified, directive.pos, directive.name))
            },
        }
    }
}

/// Whether two settings of one sub-option conflict: both are set, to
/// different values.
pub open spec fn texts_conflict(old: Option<Seq<char>>, new: Option<Seq<char>>) -> bool {
    old is Some && new is Some && old->0 != new->0
}

/// A sub-option after a merge: the new setting where there is one.
pub open spec fn merged_text(old: Option<Seq<char>>, new: Option<Seq<char>>) -> Option<Seq<char>> {
    if new is Some {
        new
    } else {
        old
    }
}

/// The merge of a second directive of the same id into a variant: a conflict
/// in prefix, suffix or name (looked for in this order) fails; the derive
/// lists are joined.
pub open spec fn merged_variant(old: StructConfigView, new: StructConfigView, pos: usize) -> Result<
    StructConfigView,
    ErrorView,
> {
    if texts_conflict(old.prefix, new.prefix) {
        Err(failure(ErrorKind::Conflict(Setting::Prefix), pos, old.id))
    } else if texts_conflict(old.suffix, new.suffix) {
        Err(failure(ErrorKind::Conflict(Setting::Suffix), pos, old.id))
    } else if texts_conflict(old.name, new.name) {
        Err(failure(ErrorKind::Conflict(Setting::Name), pos, old.id))
    } else {
        Ok(
            StructConfigView {
                id: old.id,
                prefix: merged_text(old.prefix, new.prefix),
                suffix: merged_text(old.suffix, new.suffix),
                name: merged_text(old.name, new.name),
                derives: old.derives + new.derives,
            },
        )
    }
}

/// Tests whether two settings of one sub-option conflict.
pub fn conflicting(old: &Option<String>, new: &Option<String>) -> (conflict: bool)
    ensures
        conflict == texts_conflict(old.deep_view(), new.deep_view()),
{
    match (old, new) {
        (Some(a), Some(b)) => !(*a == *b),
        _ => false,
    }
}

/// The new setting where there is one, else the old one.
fn merge_text(old: &Option<String>, new: Option<String>) -> (merged: Option<String>)
    ensures
        merged.deep_view() == merged_text(old.deep_view(), new.deep_view()),
{
    match new {
        Some(s) => Some(s),
        None => copy_optional(old),
    }
}

impl StructConfig {
    /// The variant that no option has touched.
    pub fn new() -> (config: StructConfig)
        ensures
            config@ == blank_variant(),
    {
        let config = StructConfig {
            id: String::new(),
            prefix: None,
            suffix: None,
            name: None,
            derives: Vec::new(),
        };
        assert(config.derives.deep_view() =~= Seq::empty());
        config
    }

    /// A copy of the variant.
    pub fn duplicate(&self) -> (copy: StructConfig)
        ensures
            copy@ == self@,
    {
        StructConfig {
            id: self.id.clone(),
            prefix: copy_optional(&self.prefix),
            suffix: copy_optional(&self.suffix),
            name: copy_optional(&self.name),
            derives: copy_texts(&self.derives),
        }
    }

    /// Reads the entries of a `derive` option and says whether all are
    /// paths; of any other option it says yes. See [`paths_verdict`] for what
    /// holds of the answer.
    pub fn derive_paths_ok(option: &DirectiveOption) -> (ok: bool)
        ensures
            paths_verdict(option@, ok),
    {
        match &option.value {
            OptionValue::Str(s) => {
                if option.is_named("derive") {
                    let names = split_list(s.as_str());
                    let mut i: usize = 0;
                    while i < names.len()
                        invariant
                            i <= names.len(),
                            option@.name == "derive"@,
                            option@.value == OptionValueView::Str(s@),
                            names.deep_view() == list_entries(s@, 0),
                            forall|k: int| 0 <= k < i ==> within_limit(#[trigger] names.deep_view()[k]),
                        decreases names.len() - i,
                    {
                        assert(names.deep_view()[i as int] == names[i as int]@);
                        if !is_path(names[i].as_str()) {
                            return false;
                        }
                        i = i + 1;
                    }
                    true
                } else {
                    true
                }
            },
            _ => true,
        }
    }

    /// The variant after one more option. `paths_ok` says whether the entries
    /// of a `derive` list are all paths; no other option reads it.
    pub fn with_option(self, option: &DirectiveOption, paths_ok: bool) -> (next: Result<
        StructConfig,
        Error,
    >)
        ensures
            view_of_result(next) == struct_option(self@, option@, paths_ok),
    {
        let mut config = self;
        if option.is_named("id") {
            match option.required_string() {
                Ok(s) => {
                    config.id = s;
                    Ok(config)
                },
                Err(e) => Err(e),
            }
        } else if option.is_named("prefix") {
            match option.literal_string() {
                Ok(Some(s)) => {
                    config.prefix = Some(s);
                    Ok(config)
                },
                Ok(None) => Ok(config),
                Err(e) => Err(e),
            }
        } else if option.is_named("suffix") {
            match option.literal_string() {
                Ok(Some(s)) => {
                    config.suffix = Some(s);
                    Ok(config)
                },
                Ok(None) => Ok(config),
                Err(e) => Err(e),
            }
        } else if option.is_named("name") {
            match option.literal_string() {
                Ok(Some(s)) => {
                    config.name = Some(s);
                    Ok(config)
                },
                Ok(None) => Ok(config),
                Err(e) => Err(e),
            }
        } else if option.is_named("derive") {
            match option.required_string() {
                Ok(s) => {
                    if paths_ok {
                        config.derives = split_list(s.as_str());
                        Ok(config)
                    } else {
                        Err(Error::new(ErrorKind::InvalidDerivePath, option.pos, s.as_str()))
                    }
                },
                Err(e) => Err(e),
            }
        } else {
            Err(Error::new(ErrorKind::UnknownOption, option.pos, option.name.as_str()))
        }
    }

    /// Reads a struct directive, given the verdicts on its options:
    /// `Ok(None)` where it is no `gen_camel` directive, else the variant that
    /// it declares, or why it declares none.
    pub fn from_attr_with(attr: &Directive, verdicts: &Vec<bool>) -> (parsed: Result<
        Option<StructConfig>,
        Error,
    >)
        ensures
            view_of_optional_result(parsed) == struct_config_of(attr@, verdicts@),
    {
        if !attr.is_named("gen_camel") {
            return Ok(None);
        }
        let mut config = StructConfig::new();
        let mut i: usize = 0;
        while i < attr.options.len()
            invariant
                i <= attr.options.len(),
                attr@.name == "gen_camel"@,
                struct_options(blank_variant(), attr@.options, 0, verdicts@) == struct_options(
                    config@,
                    attr@.options,
                    i as int,
                    verdicts@,
                ),
            decreases attr.options.len() - i,
        {
            assert(attr@.options[i as int] == attr.options[i as int]@);
            let ok = if i < verdicts.len() {
                verdicts[i]
            } else {
                true
            };
            match config.with_option(&attr.options[i], ok) {
                Ok(next) => {
                    config = next;
                },
                Err(e) => {
                    return Err(e);
                },
            }
            i = i + 1;
        }
        if config.name.is_some() || config.prefix.is_some() || config.suffix.is_some()
            || config.derives.len() > 0 {
            Ok(Some(config))
        } else {
            Err(Error::new(ErrorKind::NothingSpecified, attr.pos, attr.name.as_str()))
        }
    }

    /// Reads a struct directive: `Ok(None)` where it is no `gen_camel`
    /// directive, else the variant that it declares, or why it declares none.
    /// The entries of a `derive` list are read as paths on the way; the
    /// result is what [`struct_config_of`] gives for the verdicts that came
    /// back.
    pub fn from_attr(attr: &Directive) -> (parsed: Result<Option<StructConfig>, Error>)
        ensures
            struct_config_read(attr@, view_of_optional_result(parsed)),
    {
        let verdicts = syntax_verdicts(attr);
        StructConfig::from_attr_with(attr, &verdicts)
    }

    /// Merges a second directive of the same id into this variant. A
    /// sub-option that both set to different values is a conflict, and the
    /// variant stays as it was.
    pub fn merge(&mut self, new_config: StructConfig, pos: usize) -> (merged: Result<(), Error>)
        ensures
            (match merged {
                Ok(_) => merged_variant(old(self)@, new_config@, pos) == Ok::<
                    StructConfigView,
                    ErrorView,
                >(final(self)@),
                Err(e) => merged_variant(old(self)@, new_config@, pos) == Err::<
                    StructConfigView,
                    ErrorView,
                >(e@) && final(self)@ == old(self)@,
            }),
    {
        if conflicting(&self.prefix, &new_config.prefix) {
            return Err(Error::new(ErrorKind::Conflict(Setting::Prefix), pos, self.id.as_str()));
        }
        if conflicting(&self.suffix, &new_config.suffix) {
            return Err(Error::new(ErrorKind::Conflict(Setting::Suffix), pos, self.id.as_str()));
        }
        if conflicting(&self.name, &new_config.name) {
            return Err(Error::new(ErrorKind::Conflict(Setting::Name), pos, self.id.as_str()));
        }
        let StructConfig { id: _, prefix, suffix, name, derives } = new_config;
        self.prefix = merge_text(&self.prefix, prefix);
        self.suffix = merge_text(&self.suffix, suffix);
        self.name = merge_text(&self.name, name);
        self.derives = join_texts(&self.derives, &derives);
        Ok(())
    }
}

// ---------------------------------------------------------------------------
// Field directives
// ---------------------------------------------------------------------------

/// The field configuration that no option has touched, for the variant `id`.
pub open spec fn blank_field_config(id: Seq<char>) -> GenFieldConfigView {
    GenFieldConfigView {
        id,
        type_prefix: None,
        type_suffix: None,
        explicit_type: None,
        field_skip: None,
    }
}

/// Whether a field configuration renames the field's type in any way.
pub open spec fn renames_type(config: GenFieldConfigView) -> bool {
    config.type_prefix is Some || config.type_suffix is Some || config.explicit_type is Some
}

/// Whether a field configuration leaves the field out.
pub open spec fn skips_field(config: GenFieldConfigView) -> bool {
    config.field_skip == Some(true)
}

/// A field configuration after one more option of a field directive.
pub open spec fn field_option(config: GenFieldConfigView, option: DirectiveOptionView) -> Result<
    GenFieldConfigView,
    ErrorView,
> {
    if option.name == "id"@ {
        match required_string(option) {
            Ok(s) => Ok(GenFieldConfigView { id: s, ..config }),
            Err(e) => Err(e),
        }
    } else if option.name == "field_skip"@ {
        match bare_flag(option) {
            Ok(_) => Ok(GenFieldConfigView { field_skip: Some(true), ..config }),
            Err(e) => Err(e),
        }
    } else if option.name == "type_prefix"@ {
        match literal_string(option) {
            Ok(Some(s)) => Ok(GenFieldConfigView { type_prefix: Some(s), ..config }),
            Ok(None) => Ok(config),
            Err(e) => Err(e),
        }
    } else if option.name == "type_suffix"@ {
        match literal_string(option) {
            Ok(Some(s)) => Ok(GenFieldConfigView { type_suffix: Some(s), ..config }),
            Ok(None) => Ok(config),
            Err(e) => Err(e),
        }
    } else if option.name == explicit_type_option() {
        match literal_string(option) {
            Ok(Some(s)) => Ok(GenFieldConfigView { explicit_type: Some(s), ..config }),
            Ok(None) => Ok(config),
            Err(e) => Err(e),
        }
    } else {
        Err(failure(ErrorKind::UnknownOption, option.pos, option.name))
    }
}

/// A field configuration after the options from `from` on, in the order
/// written; the first option that fails ends it.
pub open spec fn field_options(
    config: GenFieldConfigView,
    options: Seq<DirectiveOptionView>,
    from: int,
) -> Result<GenFieldConfigView, ErrorView>
    decreases options.len() - from,
{
    if 0 <= from < options.len() {
        match field_option(config, options[from]) {
            Ok(next) => field_options(next, options, from + 1),
            Err(e) => Err(e),
        }
    } else {
        Ok(config)
    }
}

/// The rules that a field configuration must keep, in the order in which
/// they are looked at: a skip excludes every renaming; without a skip there
/// is a renaming; a new name outright excludes prefix and suffix.
pub open spec fn field_rule_broken(config: GenFieldConfigView) -> Option<ErrorKind> {
    if config.field_skip is Some && renames_type(config) {
        Some(ErrorKind::SkipWithRename)
    } else if config.field_skip is None && !renames_type(config) {
        Some(ErrorKind::NothingSpecified)
    } else if config.explicit_type is Some && (config.type_prefix is Some || config.type_suffix is Some) {
        Some(ErrorKind::NameWithAffix)
    } else {
        None
    }
}

/// What a directive asks of a field: nothing where it is no `gen_field`
/// directive; else the configuration that its options give, which must keep
/// the rules.
pub open spec fn field_config_of(directive: DirectiveView) -> Result<
    Option<GenFieldConfigView>,
    ErrorView,
> {
    if directive.name != "gen_field"@ {
        Ok(None)
    } else {
        match field_options(blank_field_config(Seq::empty()), directive.options, 0) {
            Err(e) => Err(e),
            Ok(config) => match field_rule_broken(config) {
                Some(kind) => Err(failure(kind, directive.pos, directive.name)),
                None => Ok(Some(config)),
            },
        }
    }
}

/// Whether two settings of the skip flag conflict.
pub open spec fn flags_conflict(old: Option<bool>, new: Option<bool>) -> bool {
    old is Some && new is Some && old->0 != new->0
}

/// The merge of a second directive of the same id into a field
/// configuration: a conflict in type prefix, type suffix, type name or skip
/// (looked for in this order) fails, and so does a merged configuration that
/// breaks the rules on what may stand together.
pub open spec fn merged_field_config(
    old: GenFieldConfigView,
    new: GenFieldConfigView,
    pos: usize,
) -> Result<GenFieldConfigView, ErrorView> {
    let merged = GenFieldConfigView {
        id: old.id,
        type_prefix: merged_text(old.type_prefix, new.type_prefix),
        type_suffix: merged_text(old.type_suffix, new.type_suffix),
        explicit_type: merged_text(old.explicit_type, new.explicit_type),
        field_skip: if new.field_skip is Some {
            new.field_skip
        } else {
            old.field_skip
        },
    };
    if texts_conflict(old.type_prefix, new.type_prefix) {
        Err(failure(ErrorKind::Conflict(Setting::TypePrefix), pos, old.id))
    } else if texts_conflict(old.type_suffix, new.type_suffix) {
        Err(failure(ErrorKind::Conflict(Setting::TypeSuffix), pos, old.id))
    } else if texts_conflict(old.explicit_type, new.explicit_type) {
        Err(failure(ErrorKind::Conflict(Setting::TypeName), pos, old.id))
    } else if flags_conflict(old.field_skip, new.field_skip) {
        Err(failure(ErrorKind::Conflict(Setting::FieldSkip), pos, old.id))
    } else if merged.field_skip is Some && renames_type(merged) {
        Err(failure(ErrorKind::SkipWithRename, pos, old.id))
    } else if merged.explicit_type is Some && (merged.type_prefix is Some || merged.type_suffix is Some) {
        Err(failure(ErrorKind::NameWithAffix, pos, old.id))
    } else {
        Ok(merged)
    }
}

impl GenFieldConfig {
    /// The field configuration that no option has touched, for the variant
    /// `id`.
    pub fn new(id: &str) -> (config: GenFieldConfig)
        ensures
            config@ == blank_field_config(id@),
    {
        GenFieldConfig {
            id: String::from_str(id),
            type_prefix: None,
            type_suffix: None,
            explicit_type: None,
            field_skip: None,
        }
    }

    /// A copy of the field configuration.
    pub fn duplicate(&self) -> (copy: GenFieldConfig)
        ensures
            copy@ == self@,
    {
        GenFieldConfig {
            id: self.id.clone(),
            type_prefix: copy_optional(&self.type_prefix),
            type_suffix: copy_optional(&self.type_suffix),
            explicit_type: copy_optional(&self.explicit_type),
            field_skip: self.field_skip,
        }
    }

    /// Whether the configuration renames the field's type in any way.
    pub fn renames_type(&self) -> (renames: bool)
        ensures
            renames == renames_type(self@),
    {
        self.type_prefix.is_some() || self.type_suffix.is_some() || self.explicit_type.is_some()
    }

    /// The field configuration after one more option.
    pub fn with_option(self, option: &DirectiveOption) -> (next: Result<GenFieldConfig, Error>)
        ensures
            view_of_result(next) == field_option(self@, option@),
    {
        let mut config = self;
        if option.is_named("id") {
            match option.required_string() {
                Ok(s) => {
                    config.id = s;
                    Ok(config)
                },
                Err(e) => Err(e),
            }
        } else if option.is_named("field_skip") {
            match option.bare_flag() {
                Ok(_) => {
                    config.field_skip = Some(true);
                    Ok(config)
                },
                Err(e) => Err(e),
            }
        } else if option.is_named("type_prefix") {
            match option.literal_string() {
                Ok(Some(s)) => {
                    config.type_prefix = Some(s);
                    Ok(config)
                },
                Ok(None) => Ok(config),
                Err(e) => Err(e),
            }
        } else if option.is_named("type_suffix") {
            match option.literal_string() {
                Ok(Some(s)) => {
                    config.type_suffix = Some(s);
                    Ok(config)
                },
                Ok(None) => Ok(config),
                Err(e) => Err(e),
            }
        } else if option.is_explicit_type() {
            match option.literal_string() {
                Ok(Some(s)) => {
                    config.explicit_type = Some(s);
                    Ok(config)
                },
                Ok(None) => Ok(config),
                Err(e) => Err(e),
            }
        } else {
            Err(Error::new(ErrorKind::UnknownOption, option.pos, option.name.as_str()))
        }
    }

    /// The first rule that the configuration breaks, if it breaks one.
    pub fn rule_broken(&self) -> (broken: Option<ErrorKind>)
        ensures
            broken == field_rule_broken(self@),
    {
        let renames = self.renames_type();
        if self.field_skip.is_some() && renames {
            Some(ErrorKind::SkipWithRename)
        } else if self.field_skip.is_none() && !renames {
            Some(ErrorKind::NothingSpecified)
        } else if self.explicit_type.is_some() && (self.type_prefix.is_some()
            || self.type_suffix.is_some()) {
            Some(ErrorKind::NameWithAffix)
        } else {
            None
        }
    }

    /// Reads a field directive: `Ok(None)` where it is no `gen_field`
    /// directive, else the configuration that it gives, or why it gives none.
    pub fn from_attr(attr: &Directive) -> (parsed: Result<Option<GenFieldConfig>, Error>)
        ensures
            view_of_optional_result(parsed) == field_config_of(attr@),
    {
        if !attr.is_named("gen_field") {
            return Ok(None);
        }
        let mut config = GenFieldConfig::new("");
        proof {
            reveal_strlit("");
            assert(""@ =~= Seq::<char>::empty());
        }
        let mut i: usize = 0;
        while i < attr.options.len()
            invariant
                i <= attr.options.len(),
                attr@.name == "gen_field"@,
                field_options(blank_field_config(Seq::empty()), attr@.options, 0) == field_options(
                    config@,
                    attr@.options,
                    i as int,
                ),
            decreases attr.options.len() - i,
        {
            assert(attr@.options[i as int] == attr.options[i as int]@);
            match config.with_option(&attr.options[i]) {
                Ok(next) => {
                    config = next;
                },
                Err(e) => {
                    return Err(e);
                },
            }
            i = i + 1;
        }
        match config.rule_broken() {
            Some(kind) => Err(Error::new(kind, attr.pos, attr.name.as_str())),
            None => Ok(Some(config)),
        }
    }

    /// Merges a second directive of the same id into this configuration. A
    /// sub-option that both set to different values is a conflict; a merged
    /// configuration that breaks the rules on what may stand together fails
    /// too. On failure the configuration stays as it was.
    pub fn merge(&mut self, new_config: GenFieldConfig, pos: usize) -> (merged: Result<(), Error>)
        ensures
            (match merged {
                Ok(_) => merged_field_config(old(self)@, new_config@, pos) == Ok::<
                    GenFieldConfigView,
                    ErrorView,
                >(final(self)@),
                Err(e) => merged_field_config(old(self)@, new_config@, pos) == Err::<
                    GenFieldConfigView,
                    ErrorView,
                >(e@) && final(self)@ == old(self)@,
            }),
    {
        if conflicting(&self.type_prefix, &new_config.type_prefix) {
            return Err(
                Error::new(ErrorKind::Conflict(Setting::TypePrefix), pos, self.id.as_str()),
            );
        }
        if conflicting(&self.type_suffix, &new_config.type_suffix) {
            return Err(
                Error::new(ErrorKind::Conflict(Setting::TypeSuffix), pos, self.id.as_str()),
            );
        }
        if conflicting(&self.explicit_type, &new_config.explicit_type) {
            return Err(Error::new(ErrorKind::Conflict(Setting::TypeName), pos, self.id.as_str()));
        }
        let skip_conflict = match (self.field_skip, new_config.field_skip) {
            (Some(a), Some(b)) => a != b,
            _ => false,
        };
        if skip_conflict {
            return Err(Error::new(ErrorKind::Conflict(Setting::FieldSkip), pos, self.id.as_str()));
        }
        let skip = new_config.field_skip.is_some() || self.field_skip.is_some();
        let prefix = new_config.type_prefix.is_some() || self.type_prefix.is_some();
        let suffix = new_config.type_suffix.is_some() || self.type_suffix.is_some();
        let named = new_config.explicit_type.is_some() || self.explicit_type.is_some();
        if skip && (prefix || suffix || named) {
            return Err(Error::new(ErrorKind::SkipWithRename, pos, self.id.as_str()));
        }
        if named && (prefix || suffix) {
            return Err(Error::new(ErrorKind::NameWithAffix, pos, self.id.as_str()));
        }
        let GenFieldConfig { id: _, type_prefix, type_suffix, explicit_type, field_skip } =
            new_config;
        self.type_prefix = merge_text(&self.type_prefix, type_prefix);
        self.type_suffix = merge_text(&self.type_suffix, type_suffix);
        self.explicit_type = merge_text(&self.explicit_type, explicit_type);
        if field_skip.is_some() {
            self.field_skip = field_skip;
        }
        Ok(())
    }
}

// ---------------------------------------------------------------------------
// Additions
// ---------------------------------------------------------------------------

/// The addition that no option has touched.
pub open spec fn blank_addition() -> AddFieldDraftView {
    AddFieldDraftView { id: Seq::empty(), ident: None, ty: None, pos: 0 }
}

/// What holds of the verdict on the text of an option of an addition,
/// however the reading went: the text of `field_name` (read as an
/// identifier) or of `field_type` (read as a type) is refused where it is
/// too heavy to be read. Of any other option the verdict is that it is
/// accepted.
pub open spec fn addition_verdict(option: DirectiveOptionView, ok: bool) -> bool {
    match option.value {
        OptionValueView::Str(s) => if option.name == "field_name"@ || option.name
            == "field_type"@ {
            !within_limit(s) ==> !ok
        } else {
            ok
        },
        _ => ok,
    }
}

/// What holds of the verdicts on the options of a directive: there is one
/// for each option; those of a `gen_camel` directive are verdicts on paths,
/// those of an `add_field` directive verdicts on the name and the type.
pub open spec fn verdicts_hold(directive: DirectiveView, verdicts: Seq<bool>) -> bool {
    &&& verdicts.len() == directive.options.len()
    &&& directive.name == "gen_camel"@ ==> forall|i: int|
        0 <= i < verdicts.len() ==> paths_verdict(directive.options[i], #[trigger] verdicts[i])
    &&& directive.name == "add_field"@ ==> forall|i: int|
        0 <= i < verdicts.len() ==> addition_verdict(directive.options[i], #[trigger] verdicts[i])
}

/// Whether `result` is what a struct directive declares for some verdicts
/// on its options.
pub open spec fn struct_config_read(
    directive: DirectiveView,
    result: Result<Option<StructConfigView>, ErrorView>,
) -> bool {
    exists|verdicts: Seq<bool>|
        verdicts_hold(directive, verdicts) && result == #[trigger] struct_config_of(
            directive,
            verdicts,
        )
}

/// Whether `result` is what an addition directive adds for some verdicts on
/// its options.
pub open spec fn addition_read(
    directive: DirectiveView,
    result: Result<Option<AddFieldConfigView>, ErrorView>,
) -> bool {
    exists|verdicts: Seq<bool>|
        verdicts_hold(directive, verdicts) && result == #[trigger] addition_of(directive, verdicts)
}

/// Reads the texts of the options of a directive that are source text: the
/// entries of a `derive` list of a `gen_camel` directive as paths, the name
/// and the type of an `add_field` directive as an identifier and a type.
/// There is one verdict for each option; an option without such a text is
/// accepted.
pub fn syntax_verdicts(attr: &Directive) -> (verdicts: Vec<bool>)
    ensures
        verdicts_hold(attr@, verdicts@),
{
    let variant = attr.is_named("gen_camel");
    let addition = attr.is_named("add_field");
    proof {
        reveal_strlit("gen_camel");
        reveal_strlit("add_field");
        assert("gen_camel"@[0] != "add_field"@[0]);
    }
    let mut verdicts: Vec<bool> = Vec::new();
    let mut i: usize = 0;
    while i < attr.options.len()
        invariant
            i <= attr.options.len(),
            verdicts.len() == i,
            variant == (attr@.name == "gen_camel"@),
            addition == (attr@.name == "add_field"@),
            !(variant && addition),
            variant ==> forall|k: int|
                0 <= k < i ==> paths_verdict(attr@.options[k], #[trigger] verdicts[k]),
            addition ==> forall|k: int|
                0 <= k < i ==> addition_verdict(attr@.options[k], #[trigger] verdicts[k]),
        decreases attr.options.len() - i,
    {
        assert(attr@.options[i as int] == attr.options[i as int]@);
        let ok = if variant {
            StructConfig::derive_paths_ok(&attr.options[i])
        } else if addition {
            AddFieldDraft::syntax_ok(&attr.options[i])
        } else {
            true
        };
        verdicts.push(ok);
        i = i + 1;
    }
    verdicts
}

/// An addition after one more option of an addition directive. `syntax_ok`
/// says whether the option's text passed the syntax that the option asks for.
pub open spec fn addition_option(
    draft: AddFieldDraftView,
    option: DirectiveOptionView,
    syntax_ok: bool,
) -> Result<AddFieldDraftView, ErrorView> {
    if option.name == "id"@ {
        match required_string(option) {
            Ok(s) => Ok(AddFieldDraftView { id: s, ..draft }),
            Err(e) => Err(e),
        }
    } else if option.name == "field_name"@ {
        match required_string(option) {
            Ok(s) => if syntax_ok {
                Ok(AddFieldDraftView { ident: Some(s), pos: option.pos, ..draft })
            } else {
                Err(failure(ErrorKind::InvalidFieldName, option.pos, s))
            },
            Err(e) => Err(e),
        }
    } else if option.name == "field_type"@ {
        match required_string(option) {
            Ok(s) => if syntax_ok {
                Ok(AddFieldDraftView { ty: Some(s), ..draft })
            } else {
                Err(failure(ErrorKind::InvalidFieldType, option.pos, s))
            },
            Err(e) => Err(e),
        }
    } else {
        Err(failure(ErrorKind::UnknownOption, option.pos, option.name))
    }
}

/// An addition after the options from `from` on, in the order written; the
/// first option that fails ends it. `verdicts` holds, for each option, the
/// verdict on its text.
pub open spec fn addition_options(
    draft: AddFieldDraftView,
    options: Seq<DirectiveOptionView>,
    from: int,
    verdicts: Seq<bool>,
) -> Result<AddFieldDraftView, ErrorView>
    decreases options.len() - from,
{
    if 0 <= from < options.len() {
        match addition_option(draft, options[from], verdict_at(verdicts, from)) {
            Ok(next) => addition_options(next, options, from + 1, verdicts),
            Err(e) => Err(e),
        }
    } else {
        Ok(draft)
    }
}

/// The addition that a finished draft stands for: it needs both the name and
/// the type.
pub open spec fn finished_addition(draft: AddFieldDraftView) -> Option<AddFieldConfigView> {
    if draft.ident is Some && draft.ty is Some {
        Some(
            AddFieldConfigView { id: draft.id, ident: draft.ident->0, ty: draft.ty->0, pos: draft.pos },
        )
    } else {
        None
    }
}

/// What a directive adds, given the verdicts on its options: nothing where
/// it is no `add_field` directive; else the addition that its options give,
/// which needs a name and a type.
pub open spec fn addition_of(directive: DirectiveView, verdicts: Seq<bool>) -> Result<
    Option<AddFieldConfigView>,
    ErrorView,
> {
    if directive.name != "add_field"@ {
        Ok(None)
    } else {
        match addition_options(blank_addition(), directive.options, 0, verdicts) {
            Err(e) => Err(e),
            Ok(draft) => match finished_addition(draft) {
                Some(addition) => Ok(Some(addition)),
                None => Err(failure(ErrorKind::MissingNameOrType, directive.pos, directive.name)),
            },
        }
    }
}

impl AddFieldDraft {
    /// The addition that no option has touched.
    pub fn new() -> (draft: AddFieldDraft)
        ensures
            draft@ == blank_addition(),
    {
        AddFieldDraft { id: String::new(), ident: None, ty: None, pos: 0 }
    }

    /// Reads the text of `field_name` as an identifier, or that of
    /// `field_type` as a type, and says whether it is one; of any other
    /// option it says yes. See [`addition_verdict`] for what holds of the
    /// answer.
    pub fn syntax_ok(option: &DirectiveOption) -> (ok: bool)
        ensures
            addition_verdict(option@, ok),
    {
        match &option.value {
            OptionValue::Str(s) => {
                if option.is_named("field_name") {
                    is_ident(s.as_str())
                } else if option.is_named("field_type") {
                    is_type(s.as_str())
                } else {
                    true
                }
            },
            _ => true,
        }
    }

    /// The addition after one more option. `syntax_ok` says whether the
    /// option's text passed the syntax that the option asks for; only
    /// `field_name` and `field_type` read it.
    pub fn with_option(self, option: &DirectiveOption, syntax_ok: bool) -> (next: Result<
        AddFieldDraft,
        Error,
    >)
        ensures
            view_of_result(next) == addition_option(self@, option@, syntax_ok),
    {
        let mut draft = self;
        if option.is_named("id") {
            match option.required_string() {
                Ok(s) => {
                    draft.id = s;
                    Ok(draft)
                },
                Err(e) => Err(e),
            }
        } else if option.is_named("field_name") {
            match option.required_string() {
                Ok(s) => {
                    if syntax_ok {
                        draft.ident = Some(s);
                        draft.pos = option.pos;
                        Ok(draft)
                    } else {
                        Err(Error::new(ErrorKind::InvalidFieldName, option.pos, s.as_str()))
                    }
                },
                Err(e) => Err(e),
            }
        } else if option.is_named("field_type") {
            match option.required_string() {
                Ok(s) => {
                    if syntax_ok {
                        draft.ty = Some(s);
                        Ok(draft)
                    } else {
                        Err(Error::new(ErrorKind::InvalidFieldType, option.pos, s.as_str()))
                    }
                },
                Err(e) => Err(e),
            }
        } else {
            Err(Error::new(ErrorKind::UnknownOption, option.pos, option.name.as_str()))
        }
    }

    /// The addition that the draft stands for, where it has both the name
    /// and the type.
    pub fn finish(self) -> (addition: Option<AddFieldConfig>)
        ensures
            view_of_option(addition) == finished_addition(self@),
    {
        let AddFieldDraft { id, ident, ty, pos } = self;
        match (ident, ty) {
            (Some(ident), Some(ty)) => Some(AddFieldConfig { id, ident, ty, pos }),
            _ => None,
        }
    }
}

impl AddFieldConfig {
    /// A copy of the addition.
    pub fn duplicate(&self) -> (copy: AddFieldConfig)
        ensures
            copy@ == self@,
    {
        AddFieldConfig {
            id: self.id.clone(),
            ident: self.ident.clone(),
            ty: self.ty.clone(),
            pos: self.pos,
        }
    }

    /// Reads an addition directive, given the verdicts on its options:
    /// `Ok(None)` where it is no `add_field` directive, else the addition
    /// that it declares, or why it declares none.
    pub fn from_attr_with(attr: &Directive, verdicts: &Vec<bool>) -> (parsed: Result<
        Option<AddFieldConfig>,
        Error,
    >)
        ensures
            view_of_optional_result(parsed) == addition_of(attr@, verdicts@),
    {
        if !attr.is_named("add_field") {
            return Ok(None);
        }
        let mut draft = AddFieldDraft::new();
        let mut i: usize = 0;
        while i < attr.options.len()
            invariant
                i <= attr.options.len(),
                attr@.name == "add_field"@,
                addition_options(blank_addition(), attr@.options, 0, verdicts@) == addition_options(
                    draft@,
                    attr@.options,
                    i as int,
                    verdicts@,
                ),
            decreases attr.options.len() - i,
        {
            assert(attr@.options[i as int] == attr.options[i as int]@);
            let ok = if i < verdicts.len() {
                verdicts[i]
            } else {
                true
            };
            match draft.with_option(&attr.options[i], ok) {
                Ok(next) => {
                    draft = next;
                },
                Err(e) => {
                    return Err(e);
                },
            }
            i = i + 1;
        }
        match draft.finish() {
            Some(addition) => Ok(Some(addition)),
            None => Err(Error::new(ErrorKind::MissingNameOrType, attr.pos, attr.name.as_str())),
        }
    }

    /// Reads an addition directive: `Ok(None)` where it is no `add_field`
    /// directive, else the addition that it declares, or why it declares
    /// none. The name and the type are read as source text on the way; the
    /// result is what [`addition_of`] gives for the verdicts that came back.
    pub fn from_attr(attr: &Directive) -> (parsed: Result<Option<AddFieldConfig>, Error>)
        ensures
            addition_read(attr@, view_of_optional_result(parsed)),
    {
        let verdicts = syntax_verdicts(attr);
        AddFieldConfig::from_attr_with(attr, &verdicts)
    }
}

} // verus!
