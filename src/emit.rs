//! Source text of the generated pieces and of the diagnostics.
use crate::shape::{GenError, GenErrorView};
use vstd::prelude::*;

verus! {

/// The diagnostic shown for a failed derivation.
pub open spec fn message_spec(e: GenErrorView) -> Seq<char> {
    match e {
        GenErrorView::MissingTargetAttribute => "Expected 'get_field_by_type_target' name"@,
        GenErrorView::AttributeParse(m) => m,
        GenErrorView::AmbiguousField(p) => "Already field with this type on "@ + p,
        GenErrorView::NoMatchingField(p) => "No field with this type on "@ + p,
    }
}

impl GenError {
    /// The diagnostic shown for this failure.
    pub fn message(&self) -> (r: String)
        ensures
            r@ == message_spec(self@),
    {
        match self {
            GenError::MissingTargetAttribute => String::from_str(
                "Expected 'get_field_by_type_target' name",
            ),
            GenError::AttributeParse(m) => m.clone(),
            GenError::AmbiguousField(p) => {
                let mut r = String::from_str("Already field with this type on ");
                r.append(p.as_str());
                r
            },
            GenError::NoMatchingField(p) => {
                let mut r = String::from_str("No field with this type on ");
                r.append(p.as_str());
                r
            },
        }
    }
}

/// The path of the accessor trait specialised to `target`.
pub open spec fn trait_path_spec(target: Seq<char>) -> Seq<char> {
    "::get_field_by_type::GetFieldByType<"@ + target + ">"@
}

/// The call of the accessor, specialised to `target`, on `field`.
pub open spec fn delegate_call_spec(target: Seq<char>, field: Seq<char>) -> Seq<char> {
    "::get_field_by_type::GetFieldByType::<"@ + target + ">::get("@ + field + ")"@
}

/// The path of the accessor trait specialised to the type `target`.
pub fn trait_path_text(target: &String) -> (r: String)
    ensures
        r@ == trait_path_spec(target@),
{
    let mut r = String::from_str("::get_field_by_type::GetFieldByType<");
    r.append(target.as_str());
    r.append(">");
    r
}

/// The expression that calls the accessor, specialised to the type `target`,
/// on the field reference expression `field`.
pub fn delegate_call_text(target: &String, field: &String) -> (r: String)
    ensures
        r@ == delegate_call_spec(target@, field@),
{
    let mut r = String::from_str("::get_field_by_type::GetFieldByType::<");
    r.append(target.as_str());
    r.append(">::get(");
    r.append(field.as_str());
    r.append(")");
    r
}

} // verus!
