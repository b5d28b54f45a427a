use crate::bounds::{Bound, BoundView};
use crate::config::{GenFieldConfig, GenFieldConfigView};
use crate::directive::{Directive, DirectiveView};
use crate::text::same_text;
use crate::types::{TypeExpr, TypeShape};
use crate::views::views_of;
use vstd::prelude::*;

verus! {

/// A field of the original struct. An unnamed field (of a tuple struct) has
/// no name. `pos` is the position tag of the field's type.
#[derive(Clone, Debug, PartialEq, Eq)]
pub struct Field {
    pub name: Option<String>,
    pub vis: String,
    pub ty: TypeExpr,
    pub directives: Vec<Directive>,
    pub pos: usize,
}

pub struct FieldView {
    pub name: Option<Seq<char>>,
    pub vis: Seq<char>,
    pub ty: TypeShape,
    pub directives: Seq<DirectiveView>,
    pub pos: usize,
}

impl View for Field {
    type V = FieldView;

    open spec fn view(&self) -> FieldView {
        FieldView {
            name: self.name.deep_view(),
            vis: self.vis@,
            ty: self.ty@,
            directives: views_of(self.directives@),
            pos: self.pos,
        }
    }
}

/// A generic parameter: its name as it is used (`T`, `'a`, `N`) and its
/// declaration as it is written in a header (`T: Clone`, `const N: usize`).
#[derive(Clone, Debug, PartialEq, Eq)]
pub struct GenericParam {
    pub name: String,
    pub declaration: String,
}

pub struct GenericParamView {
    pub name: Seq<char>,
    pub declaration: Seq<char>,
}

impl View for GenericParam {
    type V = GenericParamView;

    open spec fn view(&self) -> GenericParamView {
        GenericParamView { name: self.name@, declaration: self.declaration@ }
    }
}

/// The generic parameters of a struct and the requirements on them.
#[derive(Clone, Debug, PartialEq, Eq)]
pub struct Generics {
    pub params: Vec<GenericParam>,
    pub bounds: Vec<Bound>,
}

pub struct GenericsView {
    pub params: Seq<GenericParamView>,
    pub bounds: Seq<BoundView>,
}

impl View for Generics {
    type V = GenericsView;

    open spec fn view(&self) -> GenericsView {
        GenericsView { params: views_of(self.params@), bounds: views_of(self.bounds@) }
    }
}

/// What the item is that the directives are attached to.
#[derive(Clone, Debug, PartialEq, Eq)]
pub enum ItemBody {
    /// A struct, with its fields in the order declared.
    Struct { fields: Vec<Field> },
    /// Anything that is no struct.
    NotStruct,
}

pub enum ItemBodyView {
    Struct { fields: Seq<FieldView> },
    NotStruct,
}

impl View for ItemBody {
    type V = ItemBodyView;

    open spec fn view(&self) -> ItemBodyView {
        match self {
            ItemBody::Struct { fields } => ItemBodyView::Struct { fields: views_of(fields@) },
            ItemBody::NotStruct => ItemBodyView::NotStruct,
        }
    }
}

/// The original item: its name, visibility, generics, directives and body.
/// `pos` is the position tag of its name.
#[derive(Clone, Debug, PartialEq, Eq)]
pub struct OriginalStruct {
    pub name: String,
    pub vis: String,
    pub generics: Generics,
    pub directives: Vec<Directive>,
    pub body: ItemBody,
    pub pos: usize,
}

pub struct OriginalStructView {
    pub name: Seq<char>,
    pub vis: Seq<char>,
    pub generics: GenericsView,
    pub directives: Seq<DirectiveView>,
    pub body: ItemBodyView,
    pub pos: usize,
}

impl View for OriginalStruct {
    type V = OriginalStructView;

    open spec fn view(&self) -> OriginalStructView {
        OriginalStructView {
            name: self.name@,
            vis: self.vis@,
            generics: self.generics@,
            directives: views_of(self.directives@),
            body: self.body@,
            pos: self.pos,
        }
    }
}

/// A named field with what its directives ask of it: the field
/// configurations, one for each id, and the directives that are handed on as
/// they were written.
#[derive(Clone, Debug, PartialEq, Eq)]
pub struct FieldEntry {
    pub name: String,
    pub vis: String,
    pub ty: TypeExpr,
    pub pos: usize,
    pub configs: Vec<GenFieldConfig>,
    pub attrs: Vec<String>,
}

pub struct FieldEntryView {
    pub name: Seq<char>,
    pub vis: Seq<char>,
    pub ty: TypeShape,
    pub pos: usize,
    pub configs: Seq<GenFieldConfigView>,
    pub attrs: Seq<Seq<char>>,
}

impl View for FieldEntry {
    type V = FieldEntryView;

    open spec fn view(&self) -> FieldEntryView {
        FieldEntryView {
            name: self.name@,
            vis: self.vis@,
            ty: self.ty@,
            pos: self.pos,
            configs: views_of(self.configs@),
            attrs: self.attrs.deep_view(),
        }
    }
}

/// How the value of a field is converted.
#[derive(Clone, Copy, Debug, PartialEq, Eq)]
pub enum Conversion {
    /// By one conversion of the whole value.
    Direct,
    /// Item by item, into a container of the same shape.
    ElementWise,
}

/// How one field of the result of a conversion is filled.
#[derive(Clone, Debug, PartialEq, Eq)]
pub enum Fill {
    /// With the converted value of the field `source` of the input.
    Convert { target: String, source: String, mode: Conversion },
    /// With the default value of the type `ty`.
    Default { target: String, ty: TypeExpr },
}

pub enum FillView {
    Convert { target: Seq<char>, source: Seq<char>, mode: Conversion },
    Default { target: Seq<char>, ty: TypeShape },
}

impl View for Fill {
    type V = FillView;

    open spec fn view(&self) -> FillView {
        match self {
            Fill::Convert { target, source, mode } => FillView::Convert {
                target: target@,
                source: source@,
                mode: *mode,
            },
            Fill::Default { target, ty } => FillView::Default { target: target@, ty: ty@ },
        }
    }
}

/// A field of a generated struct.
#[derive(Clone, Debug, PartialEq, Eq)]
pub struct GeneratedField {
    pub attrs: Vec<String>,
    pub vis: String,
    pub name: String,
    pub ty: TypeExpr,
}

pub struct GeneratedFieldView {
    pub attrs: Seq<Seq<char>>,
    pub vis: Seq<char>,
    pub name: Seq<char>,
    pub ty: TypeShape,
}

impl View for GeneratedField {
    type V = GeneratedFieldView;

    open spec fn view(&self) -> GeneratedFieldView {
        GeneratedFieldView {
            attrs: self.attrs.deep_view(),
            vis: self.vis@,
            name: self.name@,
            ty: self.ty@,
        }
    }
}

/// A generated struct with its two conversions: `forward` fills the
/// generated struct from the original, `backward` the original from the
/// generated struct.
#[derive(Clone, Debug, PartialEq, Eq)]
pub struct GeneratedStruct {
    pub name: String,
    pub original: String,
    pub vis: String,
    pub derives: Vec<String>,
    pub attrs: Vec<String>,
    pub generics: Generics,
    pub fields: Vec<GeneratedField>,
    pub forward: Vec<Fill>,
    pub backward: Vec<Fill>,
}

pub struct GeneratedStructView {
    pub name: Seq<char>,
    pub original: Seq<char>,
    pub vis: Seq<char>,
    pub derives: Seq<Seq<char>>,
    pub attrs: Seq<Seq<char>>,
    pub generics: GenericsView,
    pub fields: Seq<GeneratedFieldView>,
    pub forward: Seq<FillView>,
    pub backward: Seq<FillView>,
}

impl View for GeneratedStruct {
    type V = GeneratedStructView;

    open spec fn view(&self) -> GeneratedStructView {
        GeneratedStructView {
            name: self.name@,
            original: self.original@,
            vis: self.vis@,
            derives: self.derives.deep_view(),
            attrs: self.attrs.deep_view(),
            generics: self.generics@,
            fields: views_of(self.fields@),
            forward: views_of(self.forward@),
            backward: views_of(self.backward@),
        }
    }
}

/// The field that a fill fills.
pub open spec fn target_of(fill: FillView) -> Seq<char> {
    match fill {
        FillView::Convert { target, .. } => target,
        FillView::Default { target, .. } => target,
    }
}

/// Whether no two fills of a conversion fill the same field.
pub open spec fn distinct_targets(fills: Seq<FillView>) -> bool {
    forall|i: int, j: int|
        0 <= i < j < fills.len() ==> target_of(#[trigger] fills[i]) != target_of(#[trigger] fills[j])
}

impl Fill {
    /// The name of the field that the fill fills.
    pub fn target(&self) -> (name: &str)
        ensures
            name@ == target_of(self@),
    {
        match self {
            Fill::Convert { target, .. } => target.as_str(),
            Fill::Default { target, .. } => target.as_str(),
        }
    }
}

impl GeneratedStruct {
    /// Whether no two fields of the generated struct have one name: the
    /// conversion from the original fills each field under its name.
    pub fn fields_distinct(&self) -> (distinct: bool)
        ensures
            distinct == distinct_targets(self@.forward),
    {
        let fills = &self.forward;
        let mut j: usize = 0;
        while j < fills.len()
            invariant
                j <= fills.len(),
                fills == &self.forward,
                forall|a: int, b: int|
                    0 <= a < b < j ==> target_of(#[trigger] views_of(fills@)[a]) != target_of(
                        #[trigger] views_of(fills@)[b],
                    ),
            decreases fills.len() - j,
        {
            let mut i: usize = 0;
            while i < j
                invariant
                    i <= j < fills.len(),
                    fills == &self.forward,
                    forall|a: int|
                        0 <= a < i ==> target_of(#[trigger] views_of(fills@)[a]) != target_of(
                            views_of(fills@)[j as int],
                        ),
                decreases j - i,
            {
                assert(views_of(fills@)[i as int] == fills[i as int]@);
                assert(views_of(fills@)[j as int] == fills[j as int]@);
                if same_text(fills[i].target(), fills[j].target()) {
                    assert(target_of(self@.forward[i as int]) == target_of(
                        self@.forward[j as int],
                    ));
                    return false;
                }
                i = i + 1;
            }
            j = j + 1;
        }
        true
    }
}

impl GenericParam {
    /// A copy of the parameter.
    pub fn duplicate(&self) -> (copy: GenericParam)
        ensures
            copy@ == self@,
    {
        GenericParam { name: self.name.clone(), declaration: self.declaration.clone() }
    }
}

impl Generics {
    /// A copy of the generics.
    pub fn duplicate(&self) -> (copy: Generics)
        ensures
            copy@ == self@,
    {
        let mut params: Vec<GenericParam> = Vec::new();
        let mut i: usize = 0;
        while i < self.params.len()
            invariant
                i <= self.params.len(),
                params.len() == i,
                forall|k: int| 0 <= k < i ==> params[k]@ == self.params[k]@,
            decreases self.params.len() - i,
        {
            params.push(self.params[i].duplicate());
            i = i + 1;
        }
        let mut bounds: Vec<Bound> = Vec::new();
        let mut j: usize = 0;
        while j < self.bounds.len()
            invariant
                j <= self.bounds.len(),
                bounds.len() == j,
                forall|k: int| 0 <= k < j ==> bounds[k]@ == self.bounds[k]@,
            decreases self.bounds.len() - j,
        {
            bounds.push(self.bounds[j].duplicate());
            j = j + 1;
        }
        assert(views_of(params@) =~= views_of(self.params@));
        assert(views_of(bounds@) =~= views_of(self.bounds@));
        Generics { params, bounds }
    }
}

} // verus!
