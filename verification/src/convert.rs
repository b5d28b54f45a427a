use crate::schema::{Conversion, Fill, FillView, GeneratedStruct};
use crate::text::same_text;
use crate::value::{default_value, default_view, Entry, Value};
use crate::views::views_of;
use vstd::prelude::*;

verus! {

/// The first place in a record of the field with the given name.
pub open spec fn find_entry(record: Seq<Entry>, name: Seq<char>) -> Option<int> {
    if exists|i: int| 0 <= i < record.len() && record[i].name@ == name {
        Some(choose|i: int| 0 <= i < record.len() && record[i].name@ == name && forall|j: int|
            0 <= j < i ==> record[j].name@ != name)
    } else {
        None
    }
}

/// Whether `output` is what the conversion `mode` makes of `input`, where
/// `converts` says of two values that the second is a conversion of the
/// first: a whole value is converted at once; a container is converted item
/// by item, into as many items in the same order.
pub open spec fn converted(
    mode: Conversion,
    input: Value,
    output: Value,
    converts: spec_fn(Value, Value) -> bool,
) -> bool {
    match mode {
        Conversion::Direct => converts(input, output),
        Conversion::ElementWise => {
            &&& input is Sequence
            &&& output is Sequence
            &&& output->Sequence_0.len() == input->Sequence_0.len()
            &&& forall|j: int|
                0 <= j < input->Sequence_0.len() ==> converts(
                    input->Sequence_0[j],
                    #[trigger] output->Sequence_0[j],
                )
        },
    }
}

/// Whether a fill can be carried out on a record: the field that it
/// converts is there, and holds a container where it is converted item by
/// item. A default value can always be filled in.
pub open spec fn fillable(fill: FillView, input: Seq<Entry>) -> bool {
    match fill {
        FillView::Convert { source, mode, .. } => match find_entry(input, source) {
            Some(k) => mode == Conversion::ElementWise ==> input[k].value is Sequence,
            None => false,
        },
        FillView::Default { .. } => true,
    }
}

/// Whether `output` is what a fill makes of a record: the field `target`,
/// with the converted value of the field `source`, or with the default value
/// of the type.
pub open spec fn filled(
    fill: FillView,
    input: Seq<Entry>,
    output: Entry,
    converts: spec_fn(Value, Value) -> bool,
) -> bool {
    match fill {
        FillView::Convert { target, source, mode } => {
            &&& output.name@ == target
            &&& find_entry(input, source) is Some
            &&& converted(mode, input[find_entry(input, source)->0].value, output.value, converts)
        },
        FillView::Default { target, ty } => {
            &&& output.name@ == target
            &&& output.value@ == default_view(ty)
        },
    }
}

/// Whether `output` is what a list of fills makes of a record: one field
/// for each fill, in order.
pub open spec fn all_filled(
    fills: Seq<FillView>,
    input: Seq<Entry>,
    output: Seq<Entry>,
    converts: spec_fn(Value, Value) -> bool,
) -> bool {
    &&& output.len() == fills.len()
    &&& forall|i: int| 0 <= i < fills.len() ==> filled(fills[i], input, #[trigger] output[i], converts)
}

/// Whether every fill of a list can be carried out on a record.
pub open spec fn all_fillable(fills: Seq<FillView>, input: Seq<Entry>) -> bool {
    forall|i: int| 0 <= i < fills.len() ==> fillable(#[trigger] fills[i], input)
}

/// What a conversion function says of two values: that it may return the
/// second for the first.
pub open spec fn relation_of<F: Fn(&Value) -> Value>(convert: F) -> spec_fn(Value, Value) -> bool {
    |input: Value, output: Value| call_ensures(convert, (&input,), output)
}

/// The first place in a record of the field with the given name.
pub fn lookup(record: &Vec<Entry>, name: &str) -> (place: Option<usize>)
    ensures
        (match place {
            Some(k) => k < record.len() && find_entry(record@, name@) == Some(k as int),
            None => find_entry(record@, name@) is None,
        }),
{
    let mut i: usize = 0;
    while i < record.len()
        invariant
            i <= record.len(),
            forall|k: int| 0 <= k < i ==> record[k].name@ != name@,
        decreases record.len() - i,
    {
        if same_text(record[i].name.as_str(), name) {
            return Some(i);
        }
        i = i + 1;
    }
    None
}

/// Converts a value as `mode` says, with `convert` for one value; `None`
/// where a value that is to be converted item by item is no container.
pub fn convert_value<F: Fn(&Value) -> Value>(mode: Conversion, input: &Value, convert: &F) -> (output:
    Option<Value>)
    requires
        forall|v: &Value| call_requires(*convert, (v,)),
    ensures
        (match output {
            Some(value) => converted(mode, *input, value, relation_of(*convert)),
            None => mode == Conversion::ElementWise && !(input is Sequence),
        }),
{
    match mode {
        Conversion::Direct => Some(convert(input)),
        Conversion::ElementWise => match input {
            Value::Sequence(items) => {
                let mut results: Vec<Value> = Vec::new();
                let mut i: usize = 0;
                while i < items.len()
                    invariant
                        i <= items.len(),
                        results.len() == i,
                        forall|v: &Value| call_requires(*convert, (v,)),
                        forall|k: int|
                            0 <= k < i ==> call_ensures(
                                *convert,
                                (&items[k],),
                                #[trigger] results[k],
                            ),
                    decreases items.len() - i,
                {
                    let result = convert(&items[i]);
                    results.push(result);
                    i = i + 1;
                }
                Some(Value::Sequence(results))
            },
            _ => None,
        },
    }
}

/// Carries out a list of fills on a record, with `convert` for one value:
/// the record that the fills make, one field for each fill, or `None` where
/// one of them cannot be carried out.
pub fn fill_record<F: Fn(&Value) -> Value>(fills: &Vec<Fill>, input: &Vec<Entry>, convert: &F) -> (output:
    Option<Vec<Entry>>)
    requires
        forall|v: &Value| call_requires(*convert, (v,)),
    ensures
        (match output {
            Some(record) => all_filled(views_of(fills@), input@, record@, relation_of(*convert)),
            None => !all_fillable(views_of(fills@), input@),
        }),
{
    let mut record: Vec<Entry> = Vec::new();
    let mut i: usize = 0;
    while i < fills.len()
        invariant
            i <= fills.len(),
            record.len() == i,
            forall|v: &Value| call_requires(*convert, (v,)),
            forall|k: int|
                0 <= k < i ==> filled(
                    views_of(fills@)[k],
                    input@,
                    #[trigger] record[k],
                    relation_of(*convert),
                ),
        decreases fills.len() - i,
    {
        assert(views_of(fills@)[i as int] == fills[i as int]@);
        match &fills[i] {
            Fill::Convert { target, source, mode } => {
                match lookup(input, source.as_str()) {
                    Some(k) => {
                        match convert_value(*mode, &input[k].value, convert) {
                            Some(value) => {
                                record.push(Entry { name: target.clone(), value });
                            },
                            None => {
                                assert(!fillable(views_of(fills@)[i as int], input@));
                                return None;
                            },
                        }
                    },
                    None => {
                        assert(!fillable(views_of(fills@)[i as int], input@));
                        return None;
                    },
                }
            },
            Fill::Default { target, ty } => {
                record.push(Entry { name: target.clone(), value: default_value(ty) });
            },
        }
        i = i + 1;
    }
    Some(record)
}

impl GeneratedStruct {
    /// Converts a value of the original struct into one of the generated
    /// struct, with `convert` for the value of one field.
    pub fn convert_forward<F: Fn(&Value) -> Value>(&self, original: &Vec<Entry>, convert: &F) -> (new:
        Option<Vec<Entry>>)
        requires
            forall|v: &Value| call_requires(*convert, (v,)),
        ensures
            (match new {
                Some(record) => all_filled(self@.forward, original@, record@, relation_of(*convert)),
                None => !all_fillable(self@.forward, original@),
            }),
    {
        fill_record(&self.forward, original, convert)
    }

    /// Converts a value of the generated struct into one of the original
    /// struct, with `convert` for the value of one field.
    pub fn convert_backward<F: Fn(&Value) -> Value>(&self, new: &Vec<Entry>, convert: &F) -> (original:
        Option<Vec<Entry>>)
        requires
            forall|v: &Value| call_requires(*convert, (v,)),
        ensures
            (match original {
                Some(record) => all_filled(self@.backward, new@, record@, relation_of(*convert)),
                None => !all_fillable(self@.backward, new@),
            }),
    {
        fill_record(&self.backward, new, convert)
    }
}

} // verus!
