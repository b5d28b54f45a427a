use crate::text::{copy_optional, copy_texts, same_text};
use crate::views::views_of;
use vstd::prelude::*;

verus! {

/// A type expression, by shape.
#[derive(Debug, PartialEq, Eq)]
pub enum TypeExpr {
    /// A path, as in `std::vec::Vec<T>`: `qualifier` holds the segments before
    /// the last, each as it is written (with its own arguments, where it has
    /// any); `name` and `args` are the last segment; `rooted` says whether the
    /// path starts with `::`.
    Named { rooted: bool, qualifier: Vec<String>, name: String, args: Vec<TypeExpr> },
    /// `&T`, `&'a mut T`.
    Reference { lifetime: Option<String>, mutable: bool, elem: Box<TypeExpr> },
    /// `[T; len]`.
    Array { elem: Box<TypeExpr>, len: String },
    /// `(A, B)`.
    Tuple { elems: Vec<TypeExpr> },
    /// Text that is carried as it stands: a generic argument that is no type
    /// (a lifetime, a constant), or the type of an added field.
    Verbatim { text: String },
    /// A type of any other shape.
    Unsupported { text: String },
}

pub enum TypeShape {
    Named { rooted: bool, qualifier: Seq<Seq<char>>, name: Seq<char>, args: Seq<TypeShape> },
    Reference { lifetime: Option<Seq<char>>, mutable: bool, elem: Box<TypeShape> },
    Array { elem: Box<TypeShape>, len: Seq<char> },
    Tuple { elems: Seq<TypeShape> },
    Verbatim { text: Seq<char> },
    Unsupported { text: Seq<char> },
}

/// The mathematical form of a type expression.
pub open spec fn shape_of(ty: TypeExpr) -> TypeShape
    decreases ty,
{
    match ty {
        TypeExpr::Named { rooted, qualifier, name, args } => TypeShape::Named {
            rooted,
            qualifier: qualifier.deep_view(),
            name: name@,
            args: Seq::new(
                args.len() as nat,
                |i: int|
                    if 0 <= i < args.len() {
                        shape_of(args[i])
                    } else {
                        TypeShape::Verbatim { text: Seq::empty() }
                    },
            ),
        },
        TypeExpr::Reference { lifetime, mutable, elem } => TypeShape::Reference {
            lifetime: lifetime.deep_view(),
            mutable,
            elem: Box::new(shape_of(*elem)),
        },
        TypeExpr::Array { elem, len } => TypeShape::Array {
            elem: Box::new(shape_of(*elem)),
            len: len@,
        },
        TypeExpr::Tuple { elems } => TypeShape::Tuple {
            elems: Seq::new(
                elems.len() as nat,
                |i: int|
                    if 0 <= i < elems.len() {
                        shape_of(elems[i])
                    } else {
                        TypeShape::Verbatim { text: Seq::empty() }
                    },
            ),
        },
        TypeExpr::Verbatim { text } => TypeShape::Verbatim { text: text@ },
        TypeExpr::Unsupported { text } => TypeShape::Unsupported { text: text@ },
    }
}

impl View for TypeExpr {
    type V = TypeShape;

    open spec fn view(&self) -> TypeShape {
        shape_of(*self)
    }
}

impl Clone for TypeExpr {
    fn clone(&self) -> (copy: TypeExpr)
        ensures
            copy@ == self@,
    {
        self.duplicate()
    }
}

/// The arguments of a named type are the views of its arguments, in order.
pub proof fn lemma_named_args(ty: TypeExpr)
    requires
        ty is Named,
    ensures
        ty@ is Named,
        ty@->Named_args == views_of(ty->Named_args@),
{
    assert(ty@->Named_args =~= views_of(ty->Named_args@));
}

/// The elements of a tuple type are the views of its elements, in order.
pub proof fn lemma_tuple_elems(ty: TypeExpr)
    requires
        ty is Tuple,
    ensures
        ty@ is Tuple,
        ty@->Tuple_elems == views_of(ty->Tuple_elems@),
{
    assert(ty@->Tuple_elems =~= views_of(ty->Tuple_elems@));
}

/// Whether `name` is one of the primitive types: the integers, the floats,
/// `bool`, `char`, `str` and `String`.
pub open spec fn is_basic_name(name: Seq<char>) -> bool {
    ||| name == "i8"@
    ||| name == "i16"@
    ||| name == "i32"@
    ||| name == "i64"@
    ||| name == "i128"@
    ||| name == "isize"@
    ||| name == "u8"@
    ||| name == "u16"@
    ||| name == "u32"@
    ||| name == "u64"@
    ||| name == "u128"@
    ||| name == "usize"@
    ||| name == "f32"@
    ||| name == "f64"@
    ||| name == "bool"@
    ||| name == "char"@
    ||| name == "str"@
    ||| name == "String"@
}

/// Whether `name` is one of the containers, whose items are converted one by
/// one.
pub open spec fn is_collection_name(name: Seq<char>) -> bool {
    ||| name == "Vec"@
    ||| name == "HashMap"@
    ||| name == "HashSet"@
    ||| name == "BTreeMap"@
    ||| name == "BTreeSet"@
    ||| name == "LinkedList"@
}

/// Whether `name` is one of the wrappers of a single value.
pub open spec fn is_pointer_name(name: Seq<char>) -> bool {
    ||| name == "Option"@
    ||| name == "Arc"@
    ||| name == "Box"@
    ||| name == "Rc"@
    ||| name == "Mutex"@
    ||| name == "RwLock"@
}

/// Whether `name` stands for a generic parameter: one character, an
/// upper-case letter from `A` to `Z`.
pub open spec fn is_parameter_name(name: Seq<char>) -> bool {
    name.len() == 1 && 'A' <= name[0] <= 'Z'
}

/// Whether a type is a path whose last segment names a primitive type.
pub open spec fn is_basic(ty: TypeShape) -> bool {
    ty is Named && is_basic_name(ty->Named_name)
}

/// Whether a type is a path whose last segment names a container.
pub open spec fn is_collection(ty: TypeShape) -> bool {
    ty is Named && is_collection_name(ty->Named_name)
}

/// Whether a type is a path whose last segment names a wrapper.
pub open spec fn is_pointer(ty: TypeShape) -> bool {
    ty is Named && is_pointer_name(ty->Named_name)
}

/// Tests whether `name` is one of the primitive types.
pub fn basic_name(name: &str) -> (basic: bool)
    ensures
        basic == is_basic_name(name@),
{
    same_text(name, "i8") || same_text(name, "i16") || same_text(name, "i32") || same_text(
        name,
        "i64",
    ) || same_text(name, "i128") || same_text(name, "isize") || same_text(name, "u8")
        || same_text(name, "u16") || same_text(name, "u32") || same_text(name, "u64") || same_text(
        name,
        "u128",
    ) || same_text(name, "usize") || same_text(name, "f32") || same_text(name, "f64")
        || same_text(name, "bool") || same_text(name, "char") || same_text(name, "str")
        || same_text(name, "String")
}

/// Tests whether `name` is one of the containers.
pub fn collection_name(name: &str) -> (collection: bool)
    ensures
        collection == is_collection_name(name@),
{
    same_text(name, "Vec") || same_text(name, "HashMap") || same_text(name, "HashSet")
        || same_text(name, "BTreeMap") || same_text(name, "BTreeSet") || same_text(
        name,
        "LinkedList",
    )
}

/// Tests whether `name` is one of the wrappers.
pub fn pointer_name(name: &str) -> (pointer: bool)
    ensures
        pointer == is_pointer_name(name@),
{
    same_text(name, "Option") || same_text(name, "Arc") || same_text(name, "Box") || same_text(
        name,
        "Rc",
    ) || same_text(name, "Mutex") || same_text(name, "RwLock")
}

/// Tests whether `name` stands for a generic parameter.
pub fn parameter_name(name: &str) -> (parameter: bool)
    ensures
        parameter == is_parameter_name(name@),
{
    if name.unicode_len() == 1 {
        let c = name.get_char(0);
        'A' <= c && c <= 'Z'
    } else {
        false
    }
}

/// Whether a type is a path whose last segment names a primitive type.
pub fn is_basic_type(ty: &TypeExpr) -> (basic: bool)
    ensures
        basic == is_basic(ty@),
{
    match ty {
        TypeExpr::Named { name, .. } => basic_name(name.as_str()),
        _ => false,
    }
}

/// Whether a type is a path whose last segment names a container.
pub fn is_std_collection_type(ty: &TypeExpr) -> (collection: bool)
    ensures
        collection == is_collection(ty@),
{
    match ty {
        TypeExpr::Named { name, .. } => collection_name(name.as_str()),
        _ => false,
    }
}

/// Whether a type is a path whose last segment names a wrapper.
pub fn is_smart_pointer_type(ty: &TypeExpr) -> (pointer: bool)
    ensures
        pointer == is_pointer(ty@),
{
    match ty {
        TypeExpr::Named { name, .. } => pointer_name(name.as_str()),
        _ => false,
    }
}

impl TypeExpr {
    /// A type that is a single name, as `u32` or `T`.
    pub fn simple(name: &str) -> (ty: TypeExpr)
        ensures
            ty@ == (TypeShape::Named {
                rooted: false,
                qualifier: Seq::empty(),
                name: name@,
                args: Seq::empty(),
            }),
    {
        let ty = TypeExpr::Named {
            rooted: false,
            qualifier: Vec::new(),
            name: String::from_str(name),
            args: Vec::new(),
        };
        proof {
            lemma_named_args(ty);
            assert(ty@->Named_qualifier =~= Seq::empty());
            assert(ty@->Named_args =~= Seq::empty());
        }
        ty
    }

    /// A named type with generic arguments, as `Vec<T>`.
    pub fn generic(name: &str, args: Vec<TypeExpr>) -> (ty: TypeExpr)
        ensures
            ty@ == (TypeShape::Named {
                rooted: false,
                qualifier: Seq::empty(),
                name: name@,
                args: views_of(args@),
            }),
    {
        let ty = TypeExpr::Named {
            rooted: false,
            qualifier: Vec::new(),
            name: String::from_str(name),
            args,
        };
        proof {
            lemma_named_args(ty);
            assert(ty@->Named_qualifier =~= Seq::empty());
        }
        ty
    }

    /// A copy of the type.
    pub fn duplicate(&self) -> (copy: TypeExpr)
        ensures
            copy@ == self@,
        decreases self,
    {
        match self {
            TypeExpr::Named { rooted, qualifier, name, args } => {
                let mut new_args: Vec<TypeExpr> = Vec::new();
                let mut i: usize = 0;
                while i < args.len()
                    invariant
                        i <= args.len(),
                        new_args.len() == i,
                        forall|k: int| 0 <= k < args.len() ==> decreases_to!(self => args[k]),
                        forall|k: int| 0 <= k < i ==> new_args[k]@ == args[k]@,
                    decreases args.len() - i,
                {
                    let arg = args[i].duplicate();
                    new_args.push(arg);
                    i = i + 1;
                }
                let copy = TypeExpr::Named {
                    rooted: *rooted,
                    qualifier: copy_texts(qualifier),
                    name: name.clone(),
                    args: new_args,
                };
                proof {
                    lemma_named_args(copy);
                    lemma_named_args(*self);
                    assert(views_of(new_args@) =~= views_of(args@));
                }
                copy
            },
            TypeExpr::Reference { lifetime, mutable, elem } => TypeExpr::Reference {
                lifetime: copy_optional(lifetime),
                mutable: *mutable,
                elem: Box::new(elem.duplicate()),
            },
            TypeExpr::Array { elem, len } => TypeExpr::Array {
                elem: Box::new(elem.duplicate()),
                len: len.clone(),
            },
            TypeExpr::Tuple { elems } => {
                let mut new_elems: Vec<TypeExpr> = Vec::new();
                let mut i: usize = 0;
                while i < elems.len()
                    invariant
                        i <= elems.len(),
                        new_elems.len() == i,
                        forall|k: int| 0 <= k < elems.len() ==> decreases_to!(self => elems[k]),
                        forall|k: int| 0 <= k < i ==> new_elems[k]@ == elems[k]@,
                    decreases elems.len() - i,
                {
                    let elem = elems[i].duplicate();
                    new_elems.push(elem);
                    i = i + 1;
                }
                let copy = TypeExpr::Tuple { elems: new_elems };
                proof {
                    lemma_tuple_elems(copy);
                    lemma_tuple_elems(*self);
                    assert(views_of(new_elems@) =~= views_of(elems@));
                }
                copy
            },
            TypeExpr::Verbatim { text } => TypeExpr::Verbatim { text: text.clone() },
            TypeExpr::Unsupported { text } => TypeExpr::Unsupported { text: text.clone() },
        }
    }
}

} // verus!
