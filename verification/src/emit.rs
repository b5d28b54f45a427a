use crate::bounds::{bound_text, render_bound, Bound, BoundView};
use crate::render::{joined, push_joined, push_type, push_wrapped, type_text, wrapped};
use crate::schema::{
    Conversion, Fill, FillView, GeneratedField, GeneratedFieldView, GeneratedStruct,
    GeneratedStructView, GenericParam, GenericParamView, Generics, GenericsView,
};
use crate::views::views_of;
use vstd::prelude::*;

verus! {

// ---------------------------------------------------------------------------
// Requirements
// ---------------------------------------------------------------------------

/// The texts of the requirements of a sequence, in order.
pub open spec fn bound_texts(bounds: Seq<BoundView>) -> Seq<Seq<char>> {
    Seq::new(bounds.len(), |i: int| bound_text(bounds[i]))
}

/// The `where` clause for a list of requirements: nothing where there is
/// none.
pub open spec fn where_text(bounds: Seq<BoundView>) -> Seq<char> {
    if bounds.len() == 0 {
        Seq::empty()
    } else {
        " where "@ + joined(bound_texts(bounds), ", "@)
    }
}

/// The texts of a list of requirements.
fn render_bounds(bounds: &Vec<Bound>) -> (texts: Vec<String>)
    ensures
        texts.deep_view() == bound_texts(views_of(bounds@)),
{
    let mut texts: Vec<String> = Vec::new();
    let mut i: usize = 0;
    while i < bounds.len()
        invariant
            i <= bounds.len(),
            texts.len() == i,
            forall|k: int| 0 <= k < i ==> texts[k]@ == bound_text(bounds[k]@),
        decreases bounds.len() - i,
    {
        texts.push(render_bound(&bounds[i]));
        i = i + 1;
    }
    assert(texts.deep_view() =~= bound_texts(views_of(bounds@)));
    texts
}

/// Appends the `where` clause for a list of requirements to `out`.
pub fn push_where(out: &mut String, bounds: &Vec<Bound>)
    ensures
        final(out)@ == old(out)@ + where_text(views_of(bounds@)),
{
    let ghost start = out@;
    if bounds.len() > 0 {
        let texts = render_bounds(bounds);
        out.append(" where ");
        push_joined(out, &texts, ", ");
        assert(out@ =~= start + where_text(views_of(bounds@)));
    } else {
        assert(out@ =~= start + where_text(views_of(bounds@)));
    }
}

// ---------------------------------------------------------------------------
// Generic parameters
// ---------------------------------------------------------------------------

/// The declarations of the parameters of a sequence, in order.
pub open spec fn declarations(params: Seq<GenericParamView>) -> Seq<Seq<char>> {
    Seq::new(params.len(), |i: int| params[i].declaration)
}

/// The names of the parameters of a sequence, in order.
pub open spec fn names(params: Seq<GenericParamView>) -> Seq<Seq<char>> {
    Seq::new(params.len(), |i: int| params[i].name)
}

/// A list between angle brackets: nothing where the list is empty.
pub open spec fn angled(parts: Seq<Seq<char>>) -> Seq<char> {
    if parts.len() == 0 {
        Seq::empty()
    } else {
        "<"@ + joined(parts, ", "@) + ">"@
    }
}

/// Appends a list between angle brackets to `out`.
fn push_angled(out: &mut String, parts: &Vec<String>)
    ensures
        final(out)@ == old(out)@ + angled(parts.deep_view()),
{
    let ghost start = out@;
    if parts.len() > 0 {
        out.append("<");
        push_joined(out, parts, ", ");
        out.append(">");
        assert(out@ =~= start + angled(parts.deep_view()));
    } else {
        assert(parts.deep_view().len() == 0);
        assert(out@ =~= start + angled(parts.deep_view()));
    }
}

/// The declarations and the names of a list of parameters.
fn parameter_texts(params: &Vec<GenericParam>) -> (texts: (Vec<String>, Vec<String>))
    ensures
        texts.0.deep_view() == declarations(views_of(params@)),
        texts.1.deep_view() == names(views_of(params@)),
{
    let mut declared: Vec<String> = Vec::new();
    let mut named: Vec<String> = Vec::new();
    let mut i: usize = 0;
    while i < params.len()
        invariant
            i <= params.len(),
            declared.len() == i,
            named.len() == i,
            forall|k: int| 0 <= k < i ==> declared[k]@ == params[k]@.declaration,
            forall|k: int| 0 <= k < i ==> named[k]@ == params[k]@.name,
        decreases params.len() - i,
    {
        declared.push(params[i].declaration.clone());
        named.push(params[i].name.clone());
        i = i + 1;
    }
    assert(declared.deep_view() =~= declarations(views_of(params@)));
    assert(named.deep_view() =~= names(views_of(params@)));
    (declared, named)
}

// ---------------------------------------------------------------------------
// The struct
// ---------------------------------------------------------------------------

/// A visibility in front of what it applies to: nothing where it is empty.
pub open spec fn vis_text(vis: Seq<char>) -> Seq<char> {
    if vis.len() == 0 {
        Seq::empty()
    } else {
        vis + " "@
    }
}

/// A field of a generated struct as source text: its directives, each on a
/// line, and the field on a line.
pub open spec fn field_text(field: GeneratedFieldView) -> Seq<char> {
    wrapped(field.attrs, "    "@, "\n"@) + "    "@ + vis_text(field.vis) + field.name + ": "@
        + type_text(field.ty) + ",\n"@
}

/// The fields of a sequence as source text, in order.
pub open spec fn fields_text(fields: Seq<GeneratedFieldView>) -> Seq<char>
    decreases fields.len(),
{
    if fields.len() == 0 {
        Seq::empty()
    } else {
        fields_text(fields.drop_last()) + field_text(fields.last())
    }
}

/// The `derive` line of a struct: nothing where it derives nothing.
pub open spec fn derive_text(derives: Seq<Seq<char>>) -> Seq<char> {
    if derives.len() == 0 {
        Seq::empty()
    } else {
        "#[derive("@ + joined(derives, ", "@) + ")]\n"@
    }
}

/// The head of the definition of a generated struct: its directives, its
/// name, its generic parameters and its requirements.
pub open spec fn struct_head_text(new_struct: GeneratedStructView) -> Seq<char> {
    derive_text(new_struct.derives) + "#[allow(non_snake_case, non_camel_case_types)]\n"@ + wrapped(
        new_struct.attrs,
        Seq::empty(),
        "\n"@,
    ) + vis_text(new_struct.vis) + "struct "@ + new_struct.name + angled(
        declarations(new_struct.generics.params),
    ) + where_text(new_struct.generics.bounds)
}

/// The definition of a generated struct as source text.
pub open spec fn struct_text(new_struct: GeneratedStructView) -> Seq<char> {
    struct_head_text(new_struct) + " {\n"@ + fields_text(new_struct.fields) + "}\n"@
}

/// Appends a visibility to `out`.
fn push_vis(out: &mut String, vis: &str)
    ensures
        final(out)@ == old(out)@ + vis_text(vis@),
{
    let ghost start = out@;
    if vis.unicode_len() > 0 {
        out.append(vis);
        out.append(" ");
        assert(out@ =~= start + vis_text(vis@));
    } else {
        assert(out@ =~= start + vis_text(vis@));
    }
}

/// Appends a field of a generated struct to `out`.
#[verifier::rlimit(60)]
fn push_field(out: &mut String, field: &GeneratedField)
    ensures
        final(out)@ == old(out)@ + field_text(field@),
{
    let ghost start = out@;
    push_wrapped(out, &field.attrs, "    ", "\n");
    out.append("    ");
    push_vis(out, field.vis.as_str());
    out.append(field.name.as_str());
    out.append(": ");
    push_type(out, &field.ty);
    out.append(",\n");
    assert(out@ =~= start + field_text(field@));
}

/// Appends the fields of a generated struct to `out`.
fn push_fields(out: &mut String, fields: &Vec<GeneratedField>)
    ensures
        final(out)@ == old(out)@ + fields_text(views_of(fields@)),
{
    let ghost start = out@;
    let ghost all = views_of(fields@);
    assert(all.take(0) =~= Seq::empty());
    assert(out@ =~= start + fields_text(all.take(0)));
    let mut i: usize = 0;
    while i < fields.len()
        invariant
            i <= fields.len(),
            all == views_of(fields@),
            out@ == start + fields_text(all.take(i as int)),
        decreases fields.len() - i,
    {
        push_field(out, &fields[i]);
        proof {
            let now = all.take(i + 1);
            assert(now.drop_last() =~= all.take(i as int));
            assert(now.last() == fields[i as int]@);
            assert(out@ =~= start + fields_text(now));
        }
        i = i + 1;
    }
    assert(all.take(fields.len() as int) =~= all);
}

/// Appends the `derive` line of a struct to `out`.
fn push_derives(out: &mut String, derives: &Vec<String>)
    ensures
        final(out)@ == old(out)@ + derive_text(derives.deep_view()),
{
    let ghost start = out@;
    if derives.len() > 0 {
        out.append("#[derive(");
        push_joined(out, derives, ", ");
        out.append(")]\n");
        assert(out@ =~= start + derive_text(derives.deep_view()));
    } else {
        assert(derives.deep_view().len() == 0);
        assert(out@ =~= start + derive_text(derives.deep_view()));
    }
}

/// Appends the head of the definition of a generated struct to `out`.
#[verifier::rlimit(60)]
fn push_struct_head(out: &mut String, new_struct: &GeneratedStruct)
    ensures
        final(out)@ == old(out)@ + struct_head_text(new_struct@),
{
    let ghost start = out@;
    proof {
        reveal_strlit("");
        assert(""@ =~= Seq::<char>::empty());
    }
    push_derives(out, &new_struct.derives);
    out.append("#[allow(non_snake_case, non_camel_case_types)]\n");
    push_wrapped(out, &new_struct.attrs, "", "\n");
    let ghost first = derive_text(new_struct@.derives)
        + "#[allow(non_snake_case, non_camel_case_types)]\n"@ + wrapped(
        new_struct@.attrs,
        Seq::empty(),
        "\n"@,
    );
    assert(out@ =~= start + first);
    push_vis(out, new_struct.vis.as_str());
    out.append("struct ");
    out.append(new_struct.name.as_str());
    let ghost second = first + vis_text(new_struct@.vis) + "struct "@ + new_struct@.name;
    assert(out@ =~= start + second);
    let (declared, _) = parameter_texts(&new_struct.generics.params);
    push_angled(out, &declared);
    push_where(out, &new_struct.generics.bounds);
    assert(out@ =~= start + (second + angled(declarations(new_struct@.generics.params))
        + where_text(new_struct@.generics.bounds)));
}

/// Appends the definition of a generated struct to `out`.
pub fn push_struct(out: &mut String, new_struct: &GeneratedStruct)
    ensures
        final(out)@ == old(out)@ + struct_text(new_struct@),
{
    let ghost start = out@;
    push_struct_head(out, new_struct);
    out.append(" {\n");
    push_fields(out, &new_struct.fields);
    out.append("}\n");
    assert(out@ =~= start + struct_text(new_struct@));
}

// ---------------------------------------------------------------------------
// The conversions
// ---------------------------------------------------------------------------

/// How one field is filled, as a line of source text; `input` is the name
/// of the value that is converted.
pub open spec fn fill_text(fill: FillView, input: Seq<char>) -> Seq<char> {
    match fill {
        FillView::Convert { target, source, mode } => "            "@ + target + ": "@ + input
            + "."@ + source + (match mode {
            Conversion::Direct => ".into(),\n"@,
            Conversion::ElementWise => ".into_iter().map(Into::into).collect(),\n"@,
        }),
        FillView::Default { target, ty } => "            "@ + target + ": <"@ + type_text(ty)
            + " as Default>::default(),\n"@,
    }
}

/// The fills of a sequence as lines of source text, in order.
pub open spec fn fills_text(fills: Seq<FillView>, input: Seq<char>) -> Seq<char>
    decreases fills.len(),
{
    if fills.len() == 0 {
        Seq::empty()
    } else {
        fills_text(fills.drop_last(), input) + fill_text(fills.last(), input)
    }
}

/// A struct's name with its generic arguments.
pub open spec fn applied(name: Seq<char>, params: Seq<GenericParamView>) -> Seq<char> {
    name + angled(names(params))
}

/// The head of a conversion: the header of the `From` impl that makes a
/// `target` out of a `source`.
pub open spec fn conversion_head_text(generics: GenericsView, source: Seq<char>, target: Seq<char>) -> Seq<
    char,
> {
    "impl"@ + angled(declarations(generics.params)) + " From<"@ + applied(source, generics.params)
        + "> for "@ + applied(target, generics.params) + where_text(generics.bounds)
}

/// A conversion as source text: the `From` impl that makes a `target` out
/// of a `source`, whose value the body calls `input`.
pub open spec fn conversion_text(
    generics: GenericsView,
    source: Seq<char>,
    target: Seq<char>,
    input: Seq<char>,
    fills: Seq<FillView>,
) -> Seq<char> {
    conversion_head_text(generics, source, target) + " {\n    fn from("@ + input + ": "@ + applied(
        source,
        generics.params,
    ) + ") -> Self {\n        Self {\n"@ + fills_text(fills, input)
        + "        }\n    }\n}\n"@
}

/// A generated struct with its two conversions as source text.
pub open spec fn emitted(new_struct: GeneratedStructView) -> Seq<char> {
    struct_text(new_struct) + conversion_text(
        new_struct.generics,
        new_struct.original,
        new_struct.name,
        "original"@,
        new_struct.forward,
    ) + conversion_text(
        new_struct.generics,
        new_struct.name,
        new_struct.original,
        "new"@,
        new_struct.backward,
    )
}

/// Appends one fill to `out`.
#[verifier::rlimit(60)]
fn push_fill(out: &mut String, fill: &Fill, input: &str)
    ensures
        final(out)@ == old(out)@ + fill_text(fill@, input@),
{
    let ghost start = out@;
    match fill {
        Fill::Convert { target, source, mode } => {
            out.append("            ");
            out.append(target.as_str());
            out.append(": ");
            out.append(input);
            out.append(".");
            out.append(source.as_str());
            match mode {
                Conversion::Direct => {
                    out.append(".into(),\n");
                },
                Conversion::ElementWise => {
                    out.append(".into_iter().map(Into::into).collect(),\n");
                },
            }
            assert(out@ =~= start + fill_text(fill@, input@));
        },
        Fill::Default { target, ty } => {
            out.append("            ");
            out.append(target.as_str());
            out.append(": <");
            push_type(out, ty);
            out.append(" as Default>::default(),\n");
            assert(out@ =~= start + fill_text(fill@, input@));
        },
    }
}

/// Appends the fills of a conversion to `out`.
fn push_fills(out: &mut String, fills: &Vec<Fill>, input: &str)
    ensures
        final(out)@ == old(out)@ + fills_text(views_of(fills@), input@),
{
    let ghost start = out@;
    let ghost all = views_of(fills@);
    assert(all.take(0) =~= Seq::empty());
    assert(out@ =~= start + fills_text(all.take(0), input@));
    let mut i: usize = 0;
    while i < fills.len()
        invariant
            i <= fills.len(),
            all == views_of(fills@),
            out@ == start + fills_text(all.take(i as int), input@),
        decreases fills.len() - i,
    {
        push_fill(out, &fills[i], input);
        proof {
            let now = all.take(i + 1);
            assert(now.drop_last() =~= all.take(i as int));
            assert(now.last() == fills[i as int]@);
            assert(out@ =~= start + fills_text(now, input@));
        }
        i = i + 1;
    }
    assert(all.take(fills.len() as int) =~= all);
}

/// Appends a struct's name with its generic arguments to `out`.
fn push_applied(out: &mut String, name: &str, named: &Vec<String>)
    ensures
        final(out)@ == old(out)@ + (name@ + angled(named.deep_view())),
{
    let ghost start = out@;
    out.append(name);
    push_angled(out, named);
    assert(out@ =~= start + (name@ + angled(named.deep_view())));
}

/// Appends the head of a conversion to `out`.
#[verifier::rlimit(60)]
fn push_conversion_head(
    out: &mut String,
    generics: &Generics,
    source: &str,
    target: &str,
    declared: &Vec<String>,
    named: &Vec<String>,
)
    requires
        declared.deep_view() == declarations(generics@.params),
        named.deep_view() == names(generics@.params),
    ensures
        final(out)@ == old(out)@ + conversion_head_text(generics@, source@, target@),
{
    let ghost start = out@;
    out.append("impl");
    push_angled(out, declared);
    out.append(" From<");
    push_applied(out, source, named);
    let ghost first = "impl"@ + angled(declarations(generics@.params)) + " From<"@ + applied(
        source@,
        generics@.params,
    );
    assert(out@ =~= start + first);
    out.append("> for ");
    push_applied(out, target, named);
    push_where(out, &generics.bounds);
    assert(out@ =~= start + (first + "> for "@ + applied(target@, generics@.params) + where_text(
        generics@.bounds,
    )));
}

/// Appends a conversion to `out`; see [`conversion_text`].
#[verifier::rlimit(60)]
pub fn push_conversion(
    out: &mut String,
    generics: &Generics,
    source: &str,
    target: &str,
    input: &str,
    fills: &Vec<Fill>,
)
    ensures
        final(out)@ == old(out)@ + conversion_text(generics@, source@, target@, input@, views_of(fills@)),
{
    let ghost start = out@;
    let (declared, named) = parameter_texts(&generics.params);
    push_conversion_head(out, generics, source, target, &declared, &named);
    out.append(" {\n    fn from(");
    out.append(input);
    out.append(": ");
    push_applied(out, source, &named);
    let ghost first = conversion_head_text(generics@, source@, target@) + " {\n    fn from("@
        + input@ + ": "@ + applied(source@, generics@.params);
    assert(out@ =~= start + first);
    out.append(") -> Self {\n        Self {\n");
    push_fills(out, fills, input);
    out.append("        }\n    }\n}\n");
    assert(out@ =~= start + (first + ") -> Self {\n        Self {\n"@ + fills_text(
        views_of(fills@),
        input@,
    ) + "        }\n    }\n}\n"@));
}

/// A generated struct with its two conversions as source text: the
/// definition of the struct, the conversion from the original, and the
/// conversion back.
#[verifier::rlimit(60)]
pub fn emit(new_struct: &GeneratedStruct) -> (text: String)
    ensures
        text@ == emitted(new_struct@),
{
    let mut text = String::new();
    push_struct(&mut text, new_struct);
    push_conversion(
        &mut text,
        &new_struct.generics,
        new_struct.original.as_str(),
        new_struct.name.as_str(),
        "original",
        &new_struct.forward,
    );
    push_conversion(
        &mut text,
        &new_struct.generics,
        new_struct.name.as_str(),
        new_struct.original.as_str(),
        "new",
        &new_struct.backward,
    );
    assert(text@ =~= emitted(new_struct@));
    text
}

} // verus!
