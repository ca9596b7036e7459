//! Generic logical similarity-index entries.

use crate::index::key::{
    copy_option, key_check, option_check, option_value, validate_option, KeyFault, KeyMaterial,
    KeyMaterialValidationError, KeyValue,
};
use crate::index::reference::ObjectReference;
use vstd::prelude::*;
use crate::message::push_text;
use vstd::std_specs::cmp::PartialEqSpecImpl;

verus! {

/// Validation failures for [`SimilarityEntry`].
#[derive(Debug, Eq)]
pub enum SimilarityEntryValidationError {
    /// The similarity representation is invalid.
    InvalidRepresentation(KeyMaterialValidationError),
    /// The metadata is invalid.
    InvalidMetadata(KeyMaterialValidationError),
}

/// Value of a [`SimilarityEntryValidationError`].
pub enum SimilarityFault {
    InvalidRepresentation(KeyFault),
    InvalidMetadata(KeyFault),
}

impl View for SimilarityEntryValidationError {
    type V = SimilarityFault;

    open spec fn view(&self) -> SimilarityFault {
        match self {
            SimilarityEntryValidationError::InvalidRepresentation(e) => SimilarityFault::InvalidRepresentation(e@),
            SimilarityEntryValidationError::InvalidMetadata(e) => SimilarityFault::InvalidMetadata(e@),
        }
    }
}

impl Clone for SimilarityEntryValidationError {
    fn clone(&self) -> (r: Self)
        ensures
            r@ == self@,
    {
        match self {
            SimilarityEntryValidationError::InvalidRepresentation(e) => SimilarityEntryValidationError::InvalidRepresentation(e.clone()),
            SimilarityEntryValidationError::InvalidMetadata(e) => SimilarityEntryValidationError::InvalidMetadata(e.clone()),
        }
    }
}

impl PartialEq for SimilarityEntryValidationError {
    fn eq(&self, other: &Self) -> (r: bool) {
        match (self, other) {
            (SimilarityEntryValidationError::InvalidRepresentation(a), SimilarityEntryValidationError::InvalidRepresentation(b)) => *a == *b,
            (SimilarityEntryValidationError::InvalidMetadata(a), SimilarityEntryValidationError::InvalidMetadata(b)) => *a == *b,
            _ => false,
        }
    }
}

impl PartialEqSpecImpl for SimilarityEntryValidationError {
    open spec fn obeys_eq_spec() -> bool {
        true
    }

    open spec fn eq_spec(&self, other: &Self) -> bool {
        self@ == other@
    }
}

/// Outcome of validating a similarity entry: representation, then
/// metadata.
pub open spec fn similarity_check(representation: KeyValue, metadata: Option<KeyValue>) -> Result<(), SimilarityFault> {
    match key_check(representation) {
        Err(e) => Err(SimilarityFault::InvalidRepresentation(e)),
        Ok(()) => match option_check(metadata) {
            Err(e) => Err(SimilarityFault::InvalidMetadata(e)),
            Ok(()) => Ok(()),
        },
    }
}

/// Value of a [`SimilarityEntry`].
pub struct SimilarityView {
    pub representation: KeyValue,
    pub target: (Seq<char>, Seq<char>),
    pub metadata: Option<KeyValue>,
}

/// One logical similarity-index association between an opaque
/// representation and a source-owned target, with optional metadata.
#[derive(Debug, Eq, PartialOrd, Ord, Hash)]
pub struct SimilarityEntry {
    representation: KeyMaterial,
    target: ObjectReference,
    metadata: Option<KeyMaterial>,
}

impl View for SimilarityEntry {
    type V = SimilarityView;

    closed spec fn view(&self) -> SimilarityView {
        SimilarityView {
            representation: self.representation@,
            target: self.target@,
            metadata: option_value(self.metadata),
        }
    }
}

impl Clone for SimilarityEntry {
    fn clone(&self) -> (r: Self)
        ensures
            r@ == self@,
    {
        SimilarityEntry {
            representation: self.representation.clone(),
            target: self.target.clone(),
            metadata: copy_option(&self.metadata),
        }
    }
}

impl PartialEq for SimilarityEntry {
    fn eq(&self, other: &Self) -> (r: bool) {
        self.representation == other.representation && self.target == other.target
            && crate::index::key::option_eq(&self.metadata, &other.metadata)
    }
}

impl PartialEqSpecImpl for SimilarityEntry {
    open spec fn obeys_eq_spec() -> bool {
        true
    }

    open spec fn eq_spec(&self, other: &Self) -> bool {
        self@ == other@
    }
}

fn check_similarity(representation: &KeyMaterial, metadata: &Option<KeyMaterial>) -> (r: Result<(), SimilarityEntryValidationError>)
    ensures
        r is Ok <==> similarity_check(representation@, option_value(*metadata)) is Ok,
        r matches Err(e) ==> similarity_check(representation@, option_value(*metadata)) == Err::<(), SimilarityFault>(e@),
{
    match representation.validate() {
        Err(e) => {
            return Err(SimilarityEntryValidationError::InvalidRepresentation(e));
        },
        Ok(()) => {},
    }
    match validate_option(metadata) {
        Err(e) => Err(SimilarityEntryValidationError::InvalidMetadata(e)),
        Ok(()) => Ok(()),
    }
}

impl SimilarityEntry {
    /// Creates a similarity entry without metadata.
    pub fn new(representation: KeyMaterial, target: ObjectReference) -> (r: Result<Self, SimilarityEntryValidationError>)
        ensures
            r is Ok <==> similarity_check(representation@, None) is Ok,
            r matches Ok(s) ==> s@ == (SimilarityView { representation: representation@, target: target@, metadata: None }),
            r matches Err(e) ==> similarity_check(representation@, None) == Err::<(), SimilarityFault>(e@),
    {
        SimilarityEntry::with_metadata(representation, target, None)
    }

    /// Creates a similarity entry with optional metadata; the
    /// representation and then the metadata must validate.
    pub fn with_metadata(representation: KeyMaterial, target: ObjectReference, metadata: Option<KeyMaterial>) -> (r: Result<Self, SimilarityEntryValidationError>)
        ensures
            r is Ok <==> similarity_check(representation@, option_value(metadata)) is Ok,
            r matches Ok(s) ==> s@ == (SimilarityView {
                representation: representation@,
                target: target@,
                metadata: option_value(metadata),
            }),
            r matches Err(e) ==> similarity_check(representation@, option_value(metadata)) == Err::<(), SimilarityFault>(e@),
    {
        match check_similarity(&representation, &metadata) {
            Err(e) => Err(e),
            Ok(()) => Ok(SimilarityEntry { representation, target, metadata }),
        }
    }

    /// Returns the similarity representation.
    pub fn representation(&self) -> (r: &KeyMaterial)
        ensures
            r@ == self@.representation,
    {
        &self.representation
    }

    /// Returns the source-owned target reference.
    pub fn target(&self) -> (r: &ObjectReference)
        ensures
            r@ == self@.target,
    {
        &self.target
    }

    /// Returns the optional metadata.
    pub fn metadata(&self) -> (r: Option<&KeyMaterial>)
        ensures
            match r {
                Some(m) => self@.metadata == Some(m@),
                None => self@.metadata is None,
            },
    {
        match &self.metadata {
            Some(m) => Some(m),
            None => None,
        }
    }

    /// Consumes the entry and returns its parts.
    pub fn into_parts(self) -> (r: (KeyMaterial, ObjectReference, Option<KeyMaterial>))
        ensures
            r.0@ == self@.representation,
            r.1@ == self@.target,
            option_value(r.2) == self@.metadata,
    {
        (self.representation, self.target, self.metadata)
    }

    /// Validates the entry: representation, then metadata.
    pub fn validate(&self) -> (r: Result<(), SimilarityEntryValidationError>)
        ensures
            r is Ok <==> similarity_check(self@.representation, self@.metadata) is Ok,
            r matches Err(e) ==> similarity_check(self@.representation, self@.metadata) == Err::<(), SimilarityFault>(e@),
    {
        check_similarity(&self.representation, &self.metadata)
    }
}

/// Message of a similarity-entry validation failure.
pub open spec fn similarity_error_message(e: SimilarityFault) -> Seq<char> {
    match e {
        SimilarityFault::InvalidRepresentation(f) => "invalid similarity representation: "@ + crate::index::key::key_error_message(f),
        SimilarityFault::InvalidMetadata(f) => "invalid similarity metadata: "@ + crate::index::key::key_error_message(f),
    }
}

impl SimilarityEntryValidationError {
    /// Returns the failure message.
    pub fn to_string(&self) -> (s: String)
        ensures
            s@ == similarity_error_message(self@),
    {
        let mut s = String::new();
        match self {
            SimilarityEntryValidationError::InvalidRepresentation(f) => {
                push_text(&mut s, "invalid similarity representation: ");
                let nested = f.to_string();
                push_text(&mut s, nested.as_str());
            },
            SimilarityEntryValidationError::InvalidMetadata(f) => {
                push_text(&mut s, "invalid similarity metadata: ");
                let nested = f.to_string();
                push_text(&mut s, nested.as_str());
            },
        }
        assert(s@ =~= similarity_error_message(self@));
        s
    }
}

} // verus!
