//! Logical reference to a source-owned object.

use crate::text::{check_opaque_text, has_no_control, opaque_text_fault};
use vstd::prelude::*;
use crate::message::{debug_quoted, decimal_text, push_decimal, push_quoted, push_text};
use vstd::std_specs::cmp::PartialEqSpecImpl;

verus! {

/// Validation failures for [`ObjectReference`].
#[derive(Clone, Copy, Debug, PartialEq, Eq, Structural)]
pub enum ObjectReferenceValidationError {
    /// The source/owner identifier is empty.
    EmptySource,
    /// The opaque object reference is empty.
    EmptyObjectReference,
    /// The source/owner identifier contains a control character at this
    /// byte position.
    SourceControlCharacter { index: usize },
    /// The object reference contains a control character at this byte
    /// position.
    ObjectReferenceControlCharacter { index: usize },
}

/// Outcome of validating the two components of an object reference, the
/// source first.
pub open spec fn object_reference_check(source: Seq<char>, object_reference: Seq<char>) -> Result<(), ObjectReferenceValidationError> {
    match opaque_text_fault(source) {
        Some(None) => Err(ObjectReferenceValidationError::EmptySource),
        Some(Some(i)) => Err(ObjectReferenceValidationError::SourceControlCharacter { index: i }),
        None => match opaque_text_fault(object_reference) {
            Some(None) => Err(ObjectReferenceValidationError::EmptyObjectReference),
            Some(Some(i)) => Err(ObjectReferenceValidationError::ObjectReferenceControlCharacter { index: i }),
            None => Ok(()),
        },
    }
}

/// A validated reference to one object owned by a source: the source
/// identifier and the opaque object reference, both non-empty and free of
/// control characters.
#[derive(Debug, Eq, PartialOrd, Ord, Hash)]
pub struct ObjectReference {
    source: String,
    object_reference: String,
}

impl View for ObjectReference {
    type V = (Seq<char>, Seq<char>);

    closed spec fn view(&self) -> (Seq<char>, Seq<char>) {
        (self.source@, self.object_reference@)
    }
}

impl Clone for ObjectReference {
    fn clone(&self) -> (r: Self)
        ensures
            r@ == self@,
    {
        ObjectReference { source: self.source.clone(), object_reference: self.object_reference.clone() }
    }
}

impl PartialEq for ObjectReference {
    fn eq(&self, other: &Self) -> (r: bool) {
        self.source == other.source && self.object_reference == other.object_reference
    }
}

impl PartialEqSpecImpl for ObjectReference {
    open spec fn obeys_eq_spec() -> bool {
        true
    }

    open spec fn eq_spec(&self, other: &Self) -> bool {
        self@ == other@
    }
}

impl ObjectReference {
    /// Constructs a validated object reference.
    pub fn new(source: &str, object_reference: &str) -> (r: Result<Self, ObjectReferenceValidationError>)
        ensures
            r matches Ok(o) ==> o@ == (source@, object_reference@),
            r is Ok <==> object_reference_check(source@, object_reference@) is Ok,
            r is Ok <==> source@.len() > 0 && has_no_control(source@) && object_reference@.len() > 0
                && has_no_control(object_reference@),
            r matches Err(e) ==> object_reference_check(source@, object_reference@) == Err::<(), ObjectReferenceValidationError>(e),
    {
        match check_opaque_text(source) {
            Some(None) => {
                return Err(ObjectReferenceValidationError::EmptySource);
            },
            Some(Some(index)) => {
                return Err(ObjectReferenceValidationError::SourceControlCharacter { index });
            },
            None => {},
        }
        match check_opaque_text(object_reference) {
            Some(None) => {
                return Err(ObjectReferenceValidationError::EmptyObjectReference);
            },
            Some(Some(index)) => {
                return Err(ObjectReferenceValidationError::ObjectReferenceControlCharacter { index });
            },
            None => {},
        }
        Ok(ObjectReference { source: source.to_owned(), object_reference: object_reference.to_owned() })
    }

    /// Returns the source/owner identifier.
    pub fn source(&self) -> (s: &str)
        ensures
            s@ == self@.0,
    {
        self.source.as_str()
    }

    /// Returns the opaque source-owned object reference.
    pub fn object_reference(&self) -> (s: &str)
        ensures
            s@ == self@.1,
    {
        self.object_reference.as_str()
    }

    /// Consumes the reference and returns its two components.
    pub fn into_parts(self) -> (r: (String, String))
        ensures
            r.0@ == self@.0,
            r.1@ == self@.1,
    {
        (self.source, self.object_reference)
    }
}

/// Message of an object-reference validation failure.
pub open spec fn reference_error_message(e: ObjectReferenceValidationError) -> Seq<char> {
    match e {
        ObjectReferenceValidationError::EmptySource => "object reference source/owner identifier must not be empty"@,
        ObjectReferenceValidationError::EmptyObjectReference => "object reference value must not be empty"@,
        ObjectReferenceValidationError::SourceControlCharacter { index } => "object reference source/owner identifier contains a control character at byte index "@ + decimal_text(index as nat),
        ObjectReferenceValidationError::ObjectReferenceControlCharacter { index } => "object reference value contains a control character at byte index "@ + decimal_text(index as nat),
    }
}

impl ObjectReferenceValidationError {
    /// Returns the failure message.
    pub fn to_string(&self) -> (s: String)
        ensures
            s@ == reference_error_message(*self),
    {
        let mut s = String::new();
        match self {
            ObjectReferenceValidationError::EmptySource => {
                push_text(&mut s, "object reference source/owner identifier must not be empty");
            },
            ObjectReferenceValidationError::EmptyObjectReference => {
                push_text(&mut s, "object reference value must not be empty");
            },
            ObjectReferenceValidationError::SourceControlCharacter { index } => {
                push_text(&mut s, "object reference source/owner identifier contains a control character at byte index ");
                push_decimal(&mut s, *index as u128);
            },
            ObjectReferenceValidationError::ObjectReferenceControlCharacter { index } => {
                push_text(&mut s, "object reference value contains a control character at byte index ");
                push_decimal(&mut s, *index as u128);
            },
        }
        assert(s@ =~= reference_error_message(*self));
        s
    }
}

/// Debug rendering of an object reference.
pub open spec fn reference_debug(r: (Seq<char>, Seq<char>)) -> Seq<char> {
    "ObjectReference { source: "@ + debug_quoted(r.0) + ", object_reference: "@ + debug_quoted(r.1) + " }"@
}

impl ObjectReference {
    /// Returns the reference rendered as its debug structure.
    pub fn debug_text(&self) -> (s: String)
        ensures
            s@ == reference_debug(self@),
    {
        let mut s = String::new();
        push_text(&mut s, "ObjectReference { source: ");
        push_quoted(&mut s, self.source.as_str());
        push_text(&mut s, ", object_reference: ");
        push_quoted(&mut s, self.object_reference.as_str());
        push_text(&mut s, " }");
        assert(s@ =~= reference_debug(self@));
        s
    }
}

} // verus!
