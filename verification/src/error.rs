use vstd::prelude::*;

verus! {

/// A sub-option of a directive whose value can conflict in a merge.
#[derive(Clone, Copy, Debug, PartialEq, Eq)]
pub enum Setting {
    Prefix,
    Suffix,
    Name,
    TypePrefix,
    TypeSuffix,
    TypeName,
    FieldSkip,
}

/// What went wrong.
#[derive(Clone, Copy, Debug, PartialEq, Eq)]
pub enum ErrorKind {
    /// An option name that the directive does not know.
    UnknownOption,
    /// An option that needs `= value` stands alone.
    MissingValue,
    /// An option's value is of the wrong form (a string is expected).
    InvalidValue,
    /// A flag option was given a value.
    UnexpectedValue,
    /// An entry of a `derive` list is not a path.
    InvalidDerivePath,
    /// `field_name` is not an identifier.
    InvalidFieldName,
    /// `field_type` is not a type expression.
    InvalidFieldType,
    /// A directive sets none of the options of which it needs at least one.
    NothingSpecified,
    /// `field_skip` stands beside a type renaming option.
    SkipWithRename,
    /// `type_name` stands beside `type_prefix` or `type_suffix`.
    NameWithAffix,
    /// An addition lacks `field_name` or `field_type`.
    MissingNameOrType,
    /// A renaming option is used on a field of primitive type.
    PrimitiveRenamed,
    /// A field directive names a variant id that the struct does not declare.
    UnknownVariant,
    /// Two directives of one id set the same sub-option to different values.
    Conflict(Setting),
    /// A type expression of a shape that cannot be transformed.
    UnsupportedType,
    /// The name of a generated struct came out empty.
    EmptyName,
    /// A struct directive on a field, or a field directive on the struct.
    Misplaced,
    /// A directive on a field that has no name, or a field without a name.
    UnnamedField,
}

/// The classes of failure.
#[derive(Clone, Copy, Debug, PartialEq, Eq)]
pub enum ErrorClass {
    MalformedDirective,
    UnresolvableReference,
    ConflictingMerge,
    UnsupportedTypeShape,
    EmptyDerivedName,
    MisplacedDirective,
}

/// A failure of generation: its kind, the position tag of the element it
/// concerns, and the text it concerns (an option name, an id, a type).
#[derive(Clone, Debug, PartialEq, Eq)]
pub struct Error {
    pub kind: ErrorKind,
    pub pos: usize,
    pub subject: String,
}

pub struct ErrorView {
    pub kind: ErrorKind,
    pub pos: usize,
    pub subject: Seq<char>,
}

impl View for Error {
    type V = ErrorView;

    open spec fn view(&self) -> ErrorView {
        ErrorView { kind: self.kind, pos: self.pos, subject: self.subject@ }
    }
}

/// The failure of the given kind at `pos` about `subject`.
pub open spec fn failure(kind: ErrorKind, pos: usize, subject: Seq<char>) -> ErrorView {
    ErrorView { kind, pos, subject }
}

impl ErrorKind {
    /// The class that a kind of failure belongs to.
    pub open spec fn class_of(self) -> ErrorClass {
        match self {
            ErrorKind::UnknownOption
            | ErrorKind::MissingValue
            | ErrorKind::InvalidValue
            | ErrorKind::UnexpectedValue
            | ErrorKind::InvalidDerivePath
            | ErrorKind::InvalidFieldName
            | ErrorKind::InvalidFieldType
            | ErrorKind::NothingSpecified
            | ErrorKind::SkipWithRename
            | ErrorKind::NameWithAffix
            | ErrorKind::MissingNameOrType
            | ErrorKind::PrimitiveRenamed => ErrorClass::MalformedDirective,
            ErrorKind::UnknownVariant => ErrorClass::UnresolvableReference,
            ErrorKind::Conflict(_) => ErrorClass::ConflictingMerge,
            ErrorKind::UnsupportedType => ErrorClass::UnsupportedTypeShape,
            ErrorKind::EmptyName => ErrorClass::EmptyDerivedName,
            ErrorKind::Misplaced | ErrorKind::UnnamedField => ErrorClass::MisplacedDirective,
        }
    }

    pub fn class(&self) -> (class: ErrorClass)
        ensures
            class == self.class_of(),
    {
        match self {
            ErrorKind::UnknownOption
            | ErrorKind::MissingValue
            | ErrorKind::InvalidValue
            | ErrorKind::UnexpectedValue
            | ErrorKind::InvalidDerivePath
            | ErrorKind::InvalidFieldName
            | ErrorKind::InvalidFieldType
            | ErrorKind::NothingSpecified
            | ErrorKind::SkipWithRename
            | ErrorKind::NameWithAffix
            | ErrorKind::MissingNameOrType
            | ErrorKind::PrimitiveRenamed => ErrorClass::MalformedDirective,
            ErrorKind::UnknownVariant => ErrorClass::UnresolvableReference,
            ErrorKind::Conflict(_) => ErrorClass::ConflictingMerge,
            ErrorKind::UnsupportedType => ErrorClass::UnsupportedTypeShape,
            ErrorKind::EmptyName => ErrorClass::EmptyDerivedName,
            ErrorKind::Misplaced | ErrorKind::UnnamedField => ErrorClass::MisplacedDirective,
        }
    }
}

/// What a kind of failure is called in a message.
pub open spec fn kind_text(kind: ErrorKind) -> Seq<char> {
    match kind {
        ErrorKind::UnknownOption => "unknown option"@,
        ErrorKind::MissingValue => "option needs a value"@,
        ErrorKind::InvalidValue => "option needs a string"@,
        ErrorKind::UnexpectedValue => "option takes no value"@,
        ErrorKind::InvalidDerivePath => "invalid derive path"@,
        ErrorKind::InvalidFieldName => "field_name is no identifier"@,
        ErrorKind::InvalidFieldType => "field_type is no type"@,
        ErrorKind::NothingSpecified => "directive must specify at least one of its options"@,
        ErrorKind::SkipWithRename => "field_skip cannot be used with a type renaming option"@,
        ErrorKind::NameWithAffix => "a type name cannot be used with type_prefix or type_suffix"@,
        ErrorKind::MissingNameOrType => "add_field needs field_name and field_type"@,
        ErrorKind::PrimitiveRenamed => "a primitive type cannot be renamed"@,
        ErrorKind::UnknownVariant => "id is not declared by gen_camel"@,
        ErrorKind::Conflict(Setting::Prefix) => "prefix redefined with different values"@,
        ErrorKind::Conflict(Setting::Suffix) => "suffix redefined with different values"@,
        ErrorKind::Conflict(Setting::Name) => "name redefined with different values"@,
        ErrorKind::Conflict(Setting::TypePrefix) => "type_prefix redefined with different values"@,
        ErrorKind::Conflict(Setting::TypeSuffix) => "type_suffix redefined with different values"@,
        ErrorKind::Conflict(Setting::TypeName) => "type name redefined with different values"@,
        ErrorKind::Conflict(Setting::FieldSkip) => "field_skip redefined with different values"@,
        ErrorKind::UnsupportedType => "unsupported type"@,
        ErrorKind::EmptyName => "the name of the generated struct is empty"@,
        ErrorKind::Misplaced => "directive cannot be used here"@,
        ErrorKind::UnnamedField => "field has no name"@,
    }
}

/// The message of a failure: what its kind is called, and behind a colon
/// what it is about, where it is about something.
pub open spec fn message_of(error: ErrorView) -> Seq<char> {
    if error.subject.len() == 0 {
        kind_text(error.kind)
    } else {
        kind_text(error.kind) + ": "@ + error.subject
    }
}

impl ErrorKind {
    /// What the kind of failure is called in a message.
    pub fn text(&self) -> (text: &'static str)
        ensures
            text@ == kind_text(*self),
    {
        match self {
            ErrorKind::UnknownOption => "unknown option",
            ErrorKind::MissingValue => "option needs a value",
            ErrorKind::InvalidValue => "option needs a string",
            ErrorKind::UnexpectedValue => "option takes no value",
            ErrorKind::InvalidDerivePath => "invalid derive path",
            ErrorKind::InvalidFieldName => "field_name is no identifier",
            ErrorKind::InvalidFieldType => "field_type is no type",
            ErrorKind::NothingSpecified => "directive must specify at least one of its options",
            ErrorKind::SkipWithRename => "field_skip cannot be used with a type renaming option",
            ErrorKind::NameWithAffix => "a type name cannot be used with type_prefix or type_suffix",
            ErrorKind::MissingNameOrType => "add_field needs field_name and field_type",
            ErrorKind::PrimitiveRenamed => "a primitive type cannot be renamed",
            ErrorKind::UnknownVariant => "id is not declared by gen_camel",
            ErrorKind::Conflict(Setting::Prefix) => "prefix redefined with different values",
            ErrorKind::Conflict(Setting::Suffix) => "suffix redefined with different values",
            ErrorKind::Conflict(Setting::Name) => "name redefined with different values",
            ErrorKind::Conflict(Setting::TypePrefix) => "type_prefix redefined with different values",
            ErrorKind::Conflict(Setting::TypeSuffix) => "type_suffix redefined with different values",
            ErrorKind::Conflict(Setting::TypeName) => "type name redefined with different values",
            ErrorKind::Conflict(Setting::FieldSkip) => "field_skip redefined with different values",
            ErrorKind::UnsupportedType => "unsupported type",
            ErrorKind::EmptyName => "the name of the generated struct is empty",
            ErrorKind::Misplaced => "directive cannot be used here",
            ErrorKind::UnnamedField => "field has no name",
        }
    }
}

impl Error {
    /// The message of the failure; see [`message_of`].
    pub fn message(&self) -> (message: String)
        ensures
            message@ == message_of(self@),
    {
        let mut message = String::from_str(self.kind.text());
        if self.subject.as_str().unicode_len() > 0 {
            message.append(": ");
            message.append(self.subject.as_str());
        }
        message
    }

    /// The failure of the given kind at `pos` about `subject`.
    pub fn new(kind: ErrorKind, pos: usize, subject: &str) -> (e: Error)
        ensures
            e@ == failure(kind, pos, subject@),
    {
        Error { kind, pos, subject: String::from_str(subject) }
    }
}

} // verus!
