//! Identity of a logical index definition.

use crate::identity::namespace::IndexNamespace;
use crate::index::IndexFamily;
use crate::text::{
    control_byte_index, find_control_byte, lemma_control_byte_index_none, has_no_control,
    text_byte_len, utf8_len,
};
use vstd::prelude::*;
use crate::message::{debug_quoted, decimal_text, push_decimal, push_quoted, push_text};
use vstd::std_specs::cmp::PartialEqSpecImpl;

verus! {

/// Validation failures for [`IndexDefinitionId`].
#[derive(Clone, Copy, Debug, PartialEq, Eq, Structural)]
pub enum IndexDefinitionIdValidationError {
    /// The identifier contains no characters.
    Empty,
    /// The identifier contains a Unicode control character at this byte
    /// position.
    ControlCharacter { index: usize },
}

/// The outcome of validating a definition identifier.
pub open spec fn definition_id_check(s: Seq<char>) -> Result<(), IndexDefinitionIdValidationError> {
    if s.len() == 0 {
        Err(IndexDefinitionIdValidationError::Empty)
    } else {
        match control_byte_index(s) {
            Some(i) => Err(IndexDefinitionIdValidationError::ControlCharacter { index: i as usize }),
            None => Ok(()),
        }
    }
}

fn validate_definition_id(value: &str) -> (r: Result<(), IndexDefinitionIdValidationError>)
    ensures
        r == definition_id_check(value@),
{
    if value.is_empty() {
        return Err(IndexDefinitionIdValidationError::Empty);
    }
    match find_control_byte(value) {
        Some(index) => Err(IndexDefinitionIdValidationError::ControlCharacter { index }),
        None => Ok(()),
    }
}

/// A validated identifier of a logical index definition: non-empty and free
/// of control characters, otherwise opaque.
#[derive(Debug, Eq, PartialOrd, Ord, Hash)]
pub struct IndexDefinitionId(String);

impl View for IndexDefinitionId {
    type V = Seq<char>;

    closed spec fn view(&self) -> Seq<char> {
        self.0@
    }
}

impl Clone for IndexDefinitionId {
    fn clone(&self) -> (r: Self)
        ensures
            r@ == self@,
    {
        IndexDefinitionId(self.0.clone())
    }
}

impl PartialEq for IndexDefinitionId {
    fn eq(&self, other: &Self) -> (r: bool) {
        self.0 == other.0
    }
}

impl PartialEqSpecImpl for IndexDefinitionId {
    open spec fn obeys_eq_spec() -> bool {
        true
    }

    open spec fn eq_spec(&self, other: &Self) -> bool {
        self@ == other@
    }
}

impl IndexDefinitionId {
    /// Constructs a definition identifier; it must be non-empty and contain
    /// no control characters.
    pub fn new(value: &str) -> (r: Result<Self, IndexDefinitionIdValidationError>)
        ensures
            r matches Ok(id) ==> id@ == value@,
            r is Ok <==> definition_id_check(value@) is Ok,
            r is Ok <==> value@.len() > 0 && has_no_control(value@),
            r matches Err(e) ==> definition_id_check(value@) == Err::<(), IndexDefinitionIdValidationError>(e),
    {
        proof {
            lemma_control_byte_index_none(value@);
        }
        match validate_definition_id(value) {
            Ok(()) => Ok(IndexDefinitionId(value.to_owned())),
            Err(e) => Err(e),
        }
    }

    /// Returns the identifier as a string slice.
    pub fn as_str(&self) -> (s: &str)
        ensures
            s@ == self@,
    {
        self.0.as_str()
    }

    /// Consumes the identifier and returns its owned string.
    pub fn into_string(self) -> (s: String)
        ensures
            s@ == self@,
    {
        self.0
    }

    /// Returns the number of bytes in the identifier.
    pub fn len(&self) -> (n: usize)
        ensures
            n == utf8_len(self@),
    {
        text_byte_len(self.0.as_str())
    }

    /// Returns whether the identifier contains no bytes.
    pub fn is_empty(&self) -> (r: bool)
        ensures
            r == (self@.len() == 0),
    {
        self.0.as_str().is_empty()
    }

    /// Returns the identifier text.
    pub fn to_string(&self) -> (s: String)
        ensures
            s@ == self@,
    {
        self.0.clone()
    }
}

/// Identity of a logical definition: definition identifier, namespace and
/// family.
#[derive(Debug, Eq, PartialOrd, Ord, Hash)]
pub struct IndexDefinitionIdentity {
    definition_id: IndexDefinitionId,
    namespace: IndexNamespace,
    family: IndexFamily,
}

/// Value of an [`IndexDefinitionIdentity`].
pub struct DefinitionIdentityView {
    pub definition_id: Seq<char>,
    pub namespace: Seq<char>,
    pub family: IndexFamily,
}

impl View for IndexDefinitionIdentity {
    type V = DefinitionIdentityView;

    closed spec fn view(&self) -> DefinitionIdentityView {
        DefinitionIdentityView {
            definition_id: self.definition_id@,
            namespace: self.namespace@,
            family: self.family,
        }
    }
}

impl Clone for IndexDefinitionIdentity {
    fn clone(&self) -> (r: Self)
        ensures
            r@ == self@,
    {
        IndexDefinitionIdentity {
            definition_id: self.definition_id.clone(),
            namespace: self.namespace.clone(),
            family: self.family,
        }
    }
}

impl PartialEq for IndexDefinitionIdentity {
    fn eq(&self, other: &Self) -> (r: bool) {
        self.definition_id == other.definition_id && self.namespace == other.namespace
            && self.family == other.family
    }
}

impl PartialEqSpecImpl for IndexDefinitionIdentity {
    open spec fn obeys_eq_spec() -> bool {
        true
    }

    open spec fn eq_spec(&self, other: &Self) -> bool {
        self@ == other@
    }
}

impl IndexDefinitionIdentity {
    /// Constructs a definition identity from its three components.
    pub fn new(definition_id: IndexDefinitionId, namespace: IndexNamespace, family: IndexFamily) -> (r: Self)
        ensures
            r@.definition_id == definition_id@,
            r@.namespace == namespace@,
            r@.family == family,
    {
        IndexDefinitionIdentity { definition_id, namespace, family }
    }

    /// Returns the logical definition identifier.
    pub fn definition_id(&self) -> (r: &IndexDefinitionId)
        ensures
            r@ == self@.definition_id,
    {
        &self.definition_id
    }

    /// Returns the logical namespace.
    pub fn namespace(&self) -> (r: &IndexNamespace)
        ensures
            r@ == self@.namespace,
    {
        &self.namespace
    }

    /// Returns the indexing family.
    pub fn family(&self) -> (r: IndexFamily)
        ensures
            r == self@.family,
    {
        self.family
    }

    /// Consumes the identity and returns its three components.
    pub fn into_parts(self) -> (r: (IndexDefinitionId, IndexNamespace, IndexFamily))
        ensures
            r.0@ == self@.definition_id,
            r.1@ == self@.namespace,
            r.2 == self@.family,
    {
        (self.definition_id, self.namespace, self.family)
    }
}

impl AsRef<str> for IndexDefinitionId {
    fn as_ref(&self) -> (r: &str)
        ensures
            r@ == self@,
    {
        self.0.as_str()
    }
}

/// Message of a definition-identifier validation failure.
pub open spec fn definition_id_error_message(e: IndexDefinitionIdValidationError) -> Seq<char> {
    match e {
        IndexDefinitionIdValidationError::Empty => "index definition ID must not be empty"@,
        IndexDefinitionIdValidationError::ControlCharacter { index } => "index definition ID contains a control character at byte index "@ + decimal_text(index as nat),
    }
}

impl IndexDefinitionIdValidationError {
    /// Returns the failure message.
    pub fn to_string(&self) -> (s: String)
        ensures
            s@ == definition_id_error_message(*self),
    {
        let mut s = String::new();
        match self {
            IndexDefinitionIdValidationError::Empty => {
                push_text(&mut s, "index definition ID must not be empty");
            },
            IndexDefinitionIdValidationError::ControlCharacter { index } => {
                push_text(&mut s, "index definition ID contains a control character at byte index ");
                push_decimal(&mut s, *index as u128);
            },
        }
        assert(s@ =~= definition_id_error_message(*self));
        s
    }
}

/// Rendering of a definition identity: its debug structure.
pub open spec fn definition_identity_text(d: DefinitionIdentityView) -> Seq<char> {
    "IndexDefinitionIdentity { definition_id: IndexDefinitionId("@ + debug_quoted(d.definition_id) + "), namespace: IndexNamespace("@ + debug_quoted(d.namespace) + "), family: "@ + crate::index::family_debug_name(d.family) + " }"@
}

impl IndexDefinitionIdentity {
    /// Returns the identity rendered as its debug structure.
    pub fn to_string(&self) -> (s: String)
        ensures
            s@ == definition_identity_text(self@),
    {
        let mut s = String::new();
        push_text(&mut s, "IndexDefinitionIdentity { definition_id: IndexDefinitionId(");
        push_quoted(&mut s, self.definition_id.as_str());
        push_text(&mut s, "), namespace: IndexNamespace(");
        push_quoted(&mut s, self.namespace.as_str());
        push_text(&mut s, "), family: ");
        push_text(&mut s, self.family.debug_name());
        push_text(&mut s, " }");
        assert(s@ =~= definition_identity_text(self@));
        s
    }
}

} // verus!
