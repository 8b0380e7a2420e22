//! The fields of requests that reach the test service's operations.
use vstd::prelude::*;

verus! {

/// A named field of a decoded request, as far as the service reads it.
#[derive(Debug)]
pub enum InputField {
    /// The request has no such field.
    Absent,
    /// The field holds this string.
    Text(String),
    /// The field holds something that is not a string; the decoder's message.
    Invalid(String),
}

/// A field as the rules read it.
pub enum FieldView {
    Absent,
    Text(Seq<char>),
    Invalid(Seq<char>),
}

impl View for InputField {
    type V = FieldView;

    open spec fn view(&self) -> FieldView {
        match self {
            InputField::Absent => FieldView::Absent,
            InputField::Text(s) => FieldView::Text(s@),
            InputField::Invalid(m) => FieldView::Invalid(m@),
        }
    }
}

} // verus!
