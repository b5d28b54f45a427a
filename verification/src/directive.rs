use crate::error::{failure, Error, ErrorKind, ErrorView};
use crate::text::same_text;
use crate::views::views_of;
use vstd::prelude::*;

verus! {

/// The value that an option of a directive was written with.
#[derive(Clone, Debug, PartialEq, Eq)]
pub enum OptionValue {
    /// The option stands alone, as in `field_skip`.
    Flag,
    /// A string, as in `prefix = "My"`; the text is what the string holds.
    Str(String),
    /// A literal that is no string, as in `prefix = 3`.
    Literal(String),
    /// Anything else behind the `=`.
    Tokens(String),
}

pub enum OptionValueView {
    Flag,
    Str(Seq<char>),
    Literal(Seq<char>),
    Tokens(Seq<char>),
}

impl View for OptionValue {
    type V = OptionValueView;

    open spec fn view(&self) -> OptionValueView {
        match self {
            OptionValue::Flag => OptionValueView::Flag,
            OptionValue::Str(s) => OptionValueView::Str(s@),
            OptionValue::Literal(s) => OptionValueView::Literal(s@),
            OptionValue::Tokens(s) => OptionValueView::Tokens(s@),
        }
    }
}

/// One option of a directive: its name, its value, and its position tag.
#[derive(Clone, Debug, PartialEq, Eq)]
pub struct DirectiveOption {
    pub name: String,
    pub value: OptionValue,
    pub pos: usize,
}

pub struct DirectiveOptionView {
    pub name: Seq<char>,
    pub value: OptionValueView,
    pub pos: usize,
}

impl View for DirectiveOption {
    type V = DirectiveOptionView;

    open spec fn view(&self) -> DirectiveOptionView {
        DirectiveOptionView { name: self.name@, value: self.value@, pos: self.pos }
    }
}

/// A directive attached to a struct or to a field: its name, its options in
/// the order written, the directive as it was written, and its position tag.
#[derive(Clone, Debug, PartialEq, Eq)]
pub struct Directive {
    pub name: String,
    pub options: Vec<DirectiveOption>,
    pub text: String,
    pub pos: usize,
}

pub struct DirectiveView {
    pub name: Seq<char>,
    pub options: Seq<DirectiveOptionView>,
    pub text: Seq<char>,
    pub pos: usize,
}

impl View for Directive {
    type V = DirectiveView;

    open spec fn view(&self) -> DirectiveView {
        DirectiveView {
            name: self.name@,
            options: views_of(self.options@),
            text: self.text@,
            pos: self.pos,
        }
    }
}

/// The text of an option that must be a string.
pub open spec fn required_string(option: DirectiveOptionView) -> Result<Seq<char>, ErrorView> {
    match option.value {
        OptionValueView::Str(s) => Ok(s),
        OptionValueView::Flag => Err(failure(ErrorKind::MissingValue, option.pos, option.name)),
        _ => Err(failure(ErrorKind::InvalidValue, option.pos, option.name)),
    }
}

/// The text of an option that takes a literal: a string sets it, any other
/// literal leaves it unset.
pub open spec fn literal_string(option: DirectiveOptionView) -> Result<
    Option<Seq<char>>,
    ErrorView,
> {
    match option.value {
        OptionValueView::Str(s) => Ok(Some(s)),
        OptionValueView::Literal(_) => Ok(None),
        OptionValueView::Flag => Err(failure(ErrorKind::MissingValue, option.pos, option.name)),
        OptionValueView::Tokens(_) => Err(
            failure(ErrorKind::InvalidValue, option.pos, option.name),
        ),
    }
}

/// That an option is a flag: it has no value.
pub open spec fn bare_flag(option: DirectiveOptionView) -> Result<(), ErrorView> {
    match option.value {
        OptionValueView::Flag => Ok(()),
        _ => Err(failure(ErrorKind::UnexpectedValue, option.pos, option.name)),
    }
}

/// The name of the option that gives a type its new name outright: `type_`
/// followed by `name`.
pub open spec fn explicit_type_option() -> Seq<char> {
    "type_"@ + "name"@
}

impl DirectiveOption {
    /// Whether this is the option that gives a type its new name outright.
    pub fn is_explicit_type(&self) -> (named: bool)
        ensures
            named == (self@.name == explicit_type_option()),
    {
        let mut name = String::from_str("type_");
        name.append("name");
        same_text(self.name.as_str(), name.as_str())
    }

    /// Whether the option has the given name.
    pub fn is_named(&self, name: &str) -> (named: bool)
        ensures
            named == (self@.name == name@),
    {
        same_text(self.name.as_str(), name)
    }

    /// The text of an option that must be a string.
    pub fn required_string(&self) -> (text: Result<String, Error>)
        ensures
            (match text {
                Ok(s) => required_string(self@) == Ok::<Seq<char>, ErrorView>(s@),
                Err(e) => required_string(self@) == Err::<Seq<char>, ErrorView>(e@),
            }),
    {
        match &self.value {
            OptionValue::Str(s) => Ok(s.clone()),
            OptionValue::Flag => Err(
                Error::new(ErrorKind::MissingValue, self.pos, self.name.as_str()),
            ),
            _ => Err(Error::new(ErrorKind::InvalidValue, self.pos, self.name.as_str())),
        }
    }

    /// The text of an option that takes a literal.
    pub fn literal_string(&self) -> (text: Result<Option<String>, Error>)
        ensures
            (match text {
                Ok(s) => literal_string(self@) == Ok::<Option<Seq<char>>, ErrorView>(
                    s.deep_view(),
                ),
                Err(e) => literal_string(self@) == Err::<Option<Seq<char>>, ErrorView>(e@),
            }),
    {
        match &self.value {
            OptionValue::Str(s) => Ok(Some(s.clone())),
            OptionValue::Literal(_) => Ok(None),
            OptionValue::Flag => Err(
                Error::new(ErrorKind::MissingValue, self.pos, self.name.as_str()),
            ),
            OptionValue::Tokens(_) => Err(
                Error::new(ErrorKind::InvalidValue, self.pos, self.name.as_str()),
            ),
        }
    }

    /// That the option is a flag.
    pub fn bare_flag(&self) -> (flag: Result<(), Error>)
        ensures
            (match flag {
                Ok(_) => bare_flag(self@) == Ok::<(), ErrorView>(()),
                Err(e) => bare_flag(self@) == Err::<(), ErrorView>(e@),
            }),
    {
        match &self.value {
            OptionValue::Flag => Ok(()),
            _ => Err(Error::new(ErrorKind::UnexpectedValue, self.pos, self.name.as_str())),
        }
    }
}

impl Directive {
    /// Whether the directive has the given name.
    pub fn is_named(&self, name: &str) -> (named: bool)
        ensures
            named == (self@.name == name@),
    {
        same_text(self.name.as_str(), name)
    }
}

} // verus!
