//! The structural description of a struct or of one enum variant, and the
//! outcomes of resolving it.
use vstd::prelude::*;

verus! {

/// How the fields of a constructor are addressed.
#[derive(Clone, Copy, Debug, PartialEq, Eq, Structural)]
pub enum FieldsKind {
    /// `Name { a: A, b: B }`
    Named,
    /// `Name(A, B)`
    Unnamed,
    /// `Name`
    Unit,
}

/// A struct, or one variant of an enum: its constructor path, how its fields
/// are addressed, and the type text of each field in declaration order.
#[derive(Clone, Debug)]
pub struct ShapeDecl {
    /// The segments of the constructor path (`Enum`, `Variant`).
    pub path: Vec<String>,
    pub kind: FieldsKind,
    /// The declared type of each field, as its token text is printed.
    pub field_types: Vec<String>,
}

/// The mathematical value of a `ShapeDecl`.
pub struct ShapeView {
    pub path: Seq<Seq<char>>,
    pub kind: FieldsKind,
    pub field_types: Seq<Seq<char>>,
}

impl View for ShapeDecl {
    type V = ShapeView;

    open spec fn view(&self) -> ShapeView {
        ShapeView {
            path: self.path.deep_view(),
            kind: self.kind,
            field_types: self.field_types.deep_view(),
        }
    }
}

/// The body chosen for the accessor on one constructor.
#[derive(Clone, Copy, Debug, PartialEq, Eq, Structural)]
pub enum Resolution {
    /// A reference to the field at this index.
    Field(usize),
    /// A call of the accessor on the sole positional field.
    Delegate,
    /// The configured fallback statement.
    Fallback,
}

/// Why an accessor cannot be generated.
#[derive(Clone, Debug, PartialEq, Eq)]
pub enum GenError {
    /// The target type attribute is missing.
    MissingTargetAttribute,
    /// An attribute's argument does not parse; holds the parse message.
    AttributeParse(String),
    /// Two or more fields have the target type; holds the constructor path.
    AmbiguousField(String),
    /// No field has the target type and nothing else applies; holds the
    /// constructor path.
    NoMatchingField(String),
}

/// The mathematical value of a `GenError`.
pub enum GenErrorView {
    MissingTargetAttribute,
    AttributeParse(Seq<char>),
    AmbiguousField(Seq<char>),
    NoMatchingField(Seq<char>),
}

impl View for GenError {
    type V = GenErrorView;

    open spec fn view(&self) -> GenErrorView {
        match self {
            GenError::MissingTargetAttribute => GenErrorView::MissingTargetAttribute,
            GenError::AttributeParse(m) => GenErrorView::AttributeParse(m@),
            GenError::AmbiguousField(p) => GenErrorView::AmbiguousField(p@),
            GenError::NoMatchingField(p) => GenErrorView::NoMatchingField(p@),
        }
    }
}

/// The view of a result whose error is a `GenError`.
pub open spec fn result_view<T>(r: Result<T, GenError>) -> Result<T, GenErrorView> {
    match r {
        Ok(v) => Ok(v),
        Err(e) => Err(e@),
    }
}

} // verus!
