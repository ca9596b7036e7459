//! Generic logical index entries: an association between key material and
//! a source-owned object reference.

use crate::index::key::{key_check, KeyFault, KeyMaterial, KeyMaterialValidationError, KeyValue};
use crate::index::reference::ObjectReference;
use vstd::prelude::*;
use crate::message::push_text;
use vstd::std_specs::cmp::PartialEqSpecImpl;

verus! {

/// Validation failures for [`IndexEntry`].
#[derive(Debug, Eq)]
pub enum IndexEntryValidationError {
    /// The key material is invalid.
    InvalidKey(KeyMaterialValidationError),
}

impl View for IndexEntryValidationError {
    type V = KeyFault;

    open spec fn view(&self) -> KeyFault {
        match self {
            IndexEntryValidationError::InvalidKey(e) => e@,
        }
    }
}

impl Clone for IndexEntryValidationError {
    fn clone(&self) -> (r: Self)
        ensures
            r@ == self@,
    {
        match self {
            IndexEntryValidationError::InvalidKey(e) => IndexEntryValidationError::InvalidKey(e.clone()),
        }
    }
}

impl PartialEq for IndexEntryValidationError {
    fn eq(&self, other: &Self) -> (r: bool) {
        match (self, other) {
            (IndexEntryValidationError::InvalidKey(a), IndexEntryValidationError::InvalidKey(b)) => *a == *b,
        }
    }
}

impl PartialEqSpecImpl for IndexEntryValidationError {
    open spec fn obeys_eq_spec() -> bool {
        true
    }

    open spec fn eq_spec(&self, other: &Self) -> bool {
        self@ == other@
    }
}

/// Value of an [`IndexEntry`].
pub struct EntryView {
    pub key: KeyValue,
    pub target: (Seq<char>, Seq<char>),
}

/// One logical association between key material and a source-owned target.
#[derive(Debug, Eq, PartialOrd, Ord, Hash)]
pub struct IndexEntry {
    key: KeyMaterial,
    target: ObjectReference,
}

impl View for IndexEntry {
    type V = EntryView;

    closed spec fn view(&self) -> EntryView {
        EntryView { key: self.key@, target: self.target@ }
    }
}

impl Clone for IndexEntry {
    fn clone(&self) -> (r: Self)
        ensures
            r@ == self@,
    {
        IndexEntry { key: self.key.clone(), target: self.target.clone() }
    }
}

impl PartialEq for IndexEntry {
    fn eq(&self, other: &Self) -> (r: bool) {
        self.key == other.key && self.target == other.target
    }
}

impl PartialEqSpecImpl for IndexEntry {
    open spec fn obeys_eq_spec() -> bool {
        true
    }

    open spec fn eq_spec(&self, other: &Self) -> bool {
        self@ == other@
    }
}

impl IndexEntry {
    /// Creates a logical index entry; the key material must validate.
    pub fn new(key: KeyMaterial, target: ObjectReference) -> (r: Result<Self, IndexEntryValidationError>)
        ensures
            r is Ok <==> key_check(key@) is Ok,
            r matches Ok(e) ==> e@ == (EntryView { key: key@, target: target@ }),
            r matches Err(e) ==> key_check(key@) == Err::<(), KeyFault>(e@),
    {
        match key.validate() {
            Err(e) => Err(IndexEntryValidationError::InvalidKey(e)),
            Ok(()) => Ok(IndexEntry { key, target }),
        }
    }

    /// Returns the logical key material.
    pub fn key(&self) -> (r: &KeyMaterial)
        ensures
            r@ == self@.key,
    {
        &self.key
    }

    /// Returns the source-owned target reference.
    pub fn target(&self) -> (r: &ObjectReference)
        ensures
            r@ == self@.target,
    {
        &self.target
    }

    /// Consumes the entry and returns its key material and target.
    pub fn into_parts(self) -> (r: (KeyMaterial, ObjectReference))
        ensures
            r.0@ == self@.key,
            r.1@ == self@.target,
    {
        (self.key, self.target)
    }

    /// Validates the entry: its key material must validate.
    pub fn validate(&self) -> (r: Result<(), IndexEntryValidationError>)
        ensures
            r is Ok <==> key_check(self@.key) is Ok,
            r matches Err(e) ==> key_check(self@.key) == Err::<(), KeyFault>(e@),
    {
        match self.key.validate() {
            Err(e) => Err(IndexEntryValidationError::InvalidKey(e)),
            Ok(()) => Ok(()),
        }
    }
}

/// Message of an entry validation failure.
pub open spec fn entry_error_message(e: KeyFault) -> Seq<char> {
    match e {
        _ => "invalid index-entry key material: "@ + crate::index::key::key_error_message(e),
    }
}

impl IndexEntryValidationError {
    /// Returns the failure message.
    pub fn to_string(&self) -> (s: String)
        ensures
            s@ == entry_error_message(self@),
    {
        let mut s = String::new();
        match self {
            IndexEntryValidationError::InvalidKey(f) => {
                push_text(&mut s, "invalid index-entry key material: ");
                let nested = f.to_string();
                push_text(&mut s, nested.as_str());
            },
        }
        assert(s@ =~= entry_error_message(self@));
        s
    }
}

/// Debug rendering of an entry.
pub open spec fn entry_debug(e: EntryView) -> Seq<char> {
    "IndexEntry { key: "@ + crate::index::key::key_debug(e.key) + ", target: "@ + crate::index::reference::reference_debug(e.target) + " }"@
}

impl IndexEntry {
    /// Returns the entry rendered as its debug structure.
    pub fn debug_text(&self) -> (s: String)
        ensures
            s@ == entry_debug(self@),
    {
        let mut s = String::new();
        push_text(&mut s, "IndexEntry { key: ");
        let nested = self.key.debug_text();
        push_text(&mut s, nested.as_str());
        push_text(&mut s, ", target: ");
        let nested = self.target.debug_text();
        push_text(&mut s, nested.as_str());
        push_text(&mut s, " }");
        assert(s@ =~= entry_debug(self@));
        s
    }
}

} // verus!
