//! Logical namespaces and the in-memory namespace registry.
//!
//! Namespace grammar: ASCII lowercase letters, ASCII digits and the
//! separators `.`, `-`, `_`; between 1 and 128 bytes; starts and ends with a
//! letter or digit; no two separators in a row.

use crate::order::{
    compare_text, lemma_sorted_insert, lemma_sorted_remove, strictly_sorted, text_lt, TextOrder,
};
use crate::text::{text_byte_len, utf8_len};
use vstd::prelude::*;
use vstd::utf8::*;
use crate::message::{decimal_text, hex_byte_text, push_decimal, push_hex_byte, push_text};
use vstd::std_specs::cmp::PartialEqSpecImpl;
use vstd::string::StringSliceAdditionalSpecFns;

verus! {

broadcast use vstd::string::group_string_axioms;

/// Maximum number of bytes allowed in an [`IndexNamespace`].
pub const MAX_NAMESPACE_BYTES: usize = 128;

/// ASCII lowercase letter or ASCII digit.
pub open spec fn is_namespace_alnum(b: u8) -> bool {
    (0x61 <= b && b <= 0x7a) || (0x30 <= b && b <= 0x39)
}

/// One of the namespace separators `.`, `-`, `_`.
pub open spec fn is_namespace_separator(b: u8) -> bool {
    b == 0x2e || b == 0x2d || b == 0x5f
}

/// Position of the first non-ASCII byte at or after `i`.
pub open spec fn first_non_ascii_from(b: Seq<u8>, i: int) -> Option<int>
    decreases b.len() - i,
{
    if i < 0 || i >= b.len() {
        None
    } else if b[i] >= 0x80 {
        Some(i)
    } else {
        first_non_ascii_from(b, i + 1)
    }
}

/// The byte at `k` breaks the namespace grammar: a separator directly after
/// another separator, or a byte that is neither a separator nor alphanumeric.
pub open spec fn namespace_violation_at(b: Seq<u8>, k: int) -> bool {
    if is_namespace_separator(b[k]) {
        k > 0 && is_namespace_separator(b[k - 1])
    } else {
        !is_namespace_alnum(b[k])
    }
}

/// Position of the first grammar violation at or after `i`.
pub open spec fn first_violation_from(b: Seq<u8>, i: int) -> Option<int>
    decreases b.len() - i,
{
    if i < 0 || i >= b.len() {
        None
    } else if namespace_violation_at(b, i) {
        Some(i)
    } else {
        first_violation_from(b, i + 1)
    }
}

/// The outcome of validating the UTF-8 bytes of a namespace candidate.
pub open spec fn namespace_check(b: Seq<u8>) -> Result<(), NamespaceValidationError> {
    if b.len() == 0 {
        Err(NamespaceValidationError::Empty)
    } else if b.len() > MAX_NAMESPACE_BYTES {
        Err(NamespaceValidationError::TooLong { length: b.len() as usize, maximum: MAX_NAMESPACE_BYTES })
    } else {
        match first_non_ascii_from(b, 0) {
            Some(k) => Err(NamespaceValidationError::NonAscii { byte: b[k], index: k as usize }),
            None => if !is_namespace_alnum(b[0]) {
                Err(NamespaceValidationError::InvalidStart { byte: b[0] })
            } else if !is_namespace_alnum(b[b.len() - 1]) {
                Err(NamespaceValidationError::InvalidEnd { byte: b[b.len() - 1] })
            } else {
                match first_violation_from(b, 0) {
                    Some(k) => if is_namespace_separator(b[k]) {
                        Err(NamespaceValidationError::ConsecutiveSeparators { index: k as usize })
                    } else {
                        Err(NamespaceValidationError::InvalidCharacter { byte: b[k], index: k as usize })
                    },
                    None => Ok(()),
                }
            },
        }
    }
}

/// The namespace grammar stated directly.
pub open spec fn is_valid_namespace(b: Seq<u8>) -> bool {
    &&& 1 <= b.len() <= MAX_NAMESPACE_BYTES
    &&& is_namespace_alnum(b[0])
    &&& is_namespace_alnum(b[b.len() - 1])
    &&& forall|k: int| 0 <= k < b.len() ==> is_namespace_alnum(#[trigger] b[k]) || is_namespace_separator(b[k])
    &&& forall|k: int| 0 < k < b.len() && is_namespace_separator(#[trigger] b[k]) ==> !is_namespace_separator(b[k - 1])
}

proof fn lemma_first_non_ascii(b: Seq<u8>, i: int)
    requires
        0 <= i,
    ensures
        first_non_ascii_from(b, i) is None <==> forall|j: int| i <= j < b.len() ==> #[trigger] b[j] < 0x80,
        first_non_ascii_from(b, i) matches Some(k) ==> i <= k < b.len() && b[k] >= 0x80,
    decreases b.len() - i,
{
    if i < b.len() {
        lemma_first_non_ascii(b, i + 1);
    }
}

proof fn lemma_first_violation(b: Seq<u8>, i: int)
    requires
        0 <= i,
    ensures
        first_violation_from(b, i) is None <==> forall|j: int| i <= j < b.len() ==> !namespace_violation_at(b, j),
        first_violation_from(b, i) matches Some(k) ==> i <= k < b.len() && namespace_violation_at(b, k),
    decreases b.len() - i,
{
    if i < b.len() {
        lemma_first_violation(b, i + 1);
    }
}

/// Validation accepts exactly the namespaces of the documented grammar.
pub proof fn lemma_namespace_check_is_grammar(b: Seq<u8>)
    ensures
        namespace_check(b) is Ok <==> is_valid_namespace(b),
{
    lemma_first_non_ascii(b, 0);
    lemma_first_violation(b, 0);
    if is_valid_namespace(b) {
        assert forall|j: int| 0 <= j < b.len() implies !namespace_violation_at(b, j) by {
            assert(is_namespace_alnum(b[j]) || is_namespace_separator(b[j]));
        }
        assert forall|j: int| 0 <= j < b.len() implies b[j] < 0x80 by {
            assert(is_namespace_alnum(b[j]) || is_namespace_separator(b[j]));
        }
    }
    if namespace_check(b) is Ok {
        assert forall|k: int| 0 <= k < b.len() implies is_namespace_alnum(#[trigger] b[k]) || is_namespace_separator(b[k]) by {
            assert(!namespace_violation_at(b, k));
        }
        assert forall|k: int| 0 < k < b.len() && is_namespace_separator(#[trigger] b[k]) implies !is_namespace_separator(b[k - 1]) by {
            assert(!namespace_violation_at(b, k));
        }
    }
}

/// A validated logical namespace.
#[derive(Debug, Eq, PartialOrd, Ord, Hash)]
pub struct IndexNamespace(String);

impl View for IndexNamespace {
    type V = Seq<char>;

    closed spec fn view(&self) -> Seq<char> {
        self.0@
    }
}

impl Clone for IndexNamespace {
    fn clone(&self) -> (r: Self)
        ensures
            r@ == self@,
    {
        IndexNamespace(self.0.clone())
    }
}

impl PartialEq for IndexNamespace {
    fn eq(&self, other: &Self) -> (r: bool) {
        self.0 == other.0
    }
}

impl PartialEqSpecImpl for IndexNamespace {
    open spec fn obeys_eq_spec() -> bool {
        true
    }

    open spec fn eq_spec(&self, other: &Self) -> bool {
        self@ == other@
    }
}

/// Validation failures for the namespace grammar.
#[derive(Clone, Copy, Debug, PartialEq, Eq, Structural)]
pub enum NamespaceValidationError {
    /// The namespace contains no characters.
    Empty,
    /// The namespace exceeds the 128-byte limit.
    TooLong { length: usize, maximum: usize },
    /// The first byte is not an ASCII lowercase letter or digit.
    InvalidStart { byte: u8 },
    /// The final byte is not an ASCII lowercase letter or digit.
    InvalidEnd { byte: u8 },
    /// A non-ASCII byte was supplied.
    NonAscii { byte: u8, index: usize },
    /// A byte outside the namespace grammar.
    InvalidCharacter { byte: u8, index: usize },
    /// Two separators occur consecutively; `index` is the second one.
    ConsecutiveSeparators { index: usize },
}

fn is_ascii_alphanumeric(byte: u8) -> (r: bool)
    ensures
        r == is_namespace_alnum(byte),
{
    (0x61 <= byte && byte <= 0x7a) || (0x30 <= byte && byte <= 0x39)
}

fn is_separator(byte: u8) -> (r: bool)
    ensures
        r == is_namespace_separator(byte),
{
    byte == 0x2e || byte == 0x2d || byte == 0x5f
}

#[verifier::loop_isolation(false)]
fn validate_namespace(value: &str) -> (r: Result<(), NamespaceValidationError>)
    ensures
        r == namespace_check(value.spec_bytes()),
{
    let bytes = value.as_bytes();
    let ghost b = bytes@;
    let length = bytes.len();
    if length == 0 {
        return Err(NamespaceValidationError::Empty);
    }
    if length > MAX_NAMESPACE_BYTES {
        return Err(NamespaceValidationError::TooLong { length, maximum: MAX_NAMESPACE_BYTES });
    }
    let mut index: usize = 0;
    while index < length
        invariant
            b == bytes@,
            length == b.len(),
            0 <= index <= length,
            first_non_ascii_from(b, 0) == first_non_ascii_from(b, index as int),
        decreases length - index,
    {
        let byte = bytes[index];
        if byte >= 0x80 {
            return Err(NamespaceValidationError::NonAscii { byte, index });
        }
        index = index + 1;
    }
    if !is_ascii_alphanumeric(bytes[0]) {
        return Err(NamespaceValidationError::InvalidStart { byte: bytes[0] });
    }
    if !is_ascii_alphanumeric(bytes[length - 1]) {
        return Err(NamespaceValidationError::InvalidEnd { byte: bytes[length - 1] });
    }
    let mut previous_was_separator = false;
    let mut index: usize = 0;
    while index < length
        invariant
            b == bytes@,
            length == b.len(),
            0 <= index <= length,
            first_violation_from(b, 0) == first_violation_from(b, index as int),
            previous_was_separator == (index > 0 && is_namespace_separator(b[index - 1])),
        decreases length - index,
    {
        let byte = bytes[index];
        if is_separator(byte) {
            if previous_was_separator {
                return Err(NamespaceValidationError::ConsecutiveSeparators { index });
            }
            previous_was_separator = true;
        } else {
            if !is_ascii_alphanumeric(byte) {
                return Err(NamespaceValidationError::InvalidCharacter { byte, index });
            }
            previous_was_separator = false;
        }
        index = index + 1;
    }
    Ok(())
}

impl IndexNamespace {
    /// Constructs a namespace after applying the namespace grammar to the
    /// UTF-8 bytes of `value`.
    pub fn new(value: &str) -> (r: Result<Self, NamespaceValidationError>)
        ensures
            r matches Ok(ns) ==> ns@ == value@ && namespace_check(value.spec_bytes()) is Ok,
            r matches Err(e) ==> namespace_check(value.spec_bytes()) == Err::<(), NamespaceValidationError>(e),
            r is Ok <==> is_valid_namespace(encode_utf8(value@)),
    {
        proof {
            lemma_namespace_check_is_grammar(value.spec_bytes());
        }
        match validate_namespace(value) {
            Ok(()) => Ok(IndexNamespace(value.to_owned())),
            Err(e) => Err(e),
        }
    }

    /// Returns the namespace as a string slice.
    pub fn as_str(&self) -> (s: &str)
        ensures
            s@ == self@,
    {
        self.0.as_str()
    }

    /// Consumes the namespace and returns its owned string.
    pub fn into_string(self) -> (s: String)
        ensures
            s@ == self@,
    {
        self.0
    }

    /// Returns the number of bytes in the namespace.
    pub fn len(&self) -> (n: usize)
        ensures
            n == utf8_len(self@),
    {
        text_byte_len(self.0.as_str())
    }

    /// Returns whether the namespace contains no bytes.
    pub fn is_empty(&self) -> (r: bool)
        ensures
            r == (self@.len() == 0),
    {
        self.0.as_str().is_empty()
    }

    /// Returns the namespace text.
    pub fn to_string(&self) -> (s: String)
        ensures
            s@ == self@,
    {
        self.0.clone()
    }
}

/// Errors produced by [`NamespaceRegistry`].
#[derive(Debug, Eq)]
pub enum NamespaceRegistryError {
    /// The namespace was already registered.
    AlreadyRegistered(IndexNamespace),
    /// The namespace is not currently registered.
    NotRegistered(IndexNamespace),
}

impl NamespaceRegistryError {
    /// The namespace the error is about.
    pub open spec fn namespace(&self) -> IndexNamespace {
        match self {
            NamespaceRegistryError::AlreadyRegistered(n) => *n,
            NamespaceRegistryError::NotRegistered(n) => *n,
        }
    }
}

impl Clone for NamespaceRegistryError {
    fn clone(&self) -> (r: Self)
        ensures
            r is AlreadyRegistered <==> self is AlreadyRegistered,
            r.namespace()@ == self.namespace()@,
    {
        match self {
            NamespaceRegistryError::AlreadyRegistered(n) => NamespaceRegistryError::AlreadyRegistered(n.clone()),
            NamespaceRegistryError::NotRegistered(n) => NamespaceRegistryError::NotRegistered(n.clone()),
        }
    }
}

impl PartialEq for NamespaceRegistryError {
    fn eq(&self, other: &Self) -> (r: bool) {
        match (self, other) {
            (NamespaceRegistryError::AlreadyRegistered(a), NamespaceRegistryError::AlreadyRegistered(b)) => a == b,
            (NamespaceRegistryError::NotRegistered(a), NamespaceRegistryError::NotRegistered(b)) => a == b,
            _ => false,
        }
    }
}

impl PartialEqSpecImpl for NamespaceRegistryError {
    open spec fn obeys_eq_spec() -> bool {
        true
    }

    open spec fn eq_spec(&self, other: &Self) -> bool {
        match (self, other) {
            (NamespaceRegistryError::AlreadyRegistered(a), NamespaceRegistryError::AlreadyRegistered(b)) => a@ == b@,
            (NamespaceRegistryError::NotRegistered(a), NamespaceRegistryError::NotRegistered(b)) => a@ == b@,
            _ => false,
        }
    }
}

/// In-memory registry of logical namespaces.
///
/// The registered namespaces are kept in increasing byte order without
/// repetitions, so snapshots are deterministic.
#[derive(Debug, Eq, PartialEq)]
pub struct NamespaceRegistry {
    namespaces: Vec<IndexNamespace>,
}

impl View for NamespaceRegistry {
    type V = Seq<Seq<char>>;

    closed spec fn view(&self) -> Seq<Seq<char>> {
        self.namespaces@.map_values(|n: IndexNamespace| n@)
    }
}

impl NamespaceRegistry {
    #[verifier::type_invariant]
    spec fn registry_sorted(self) -> bool {
        strictly_sorted(self@)
    }

    /// Creates an empty namespace registry.
    pub fn new() -> (r: Self)
        ensures
            r@ == Seq::<Seq<char>>::empty(),
    {
        let r = NamespaceRegistry { namespaces: Vec::new() };
        assert(r@ =~= Seq::<Seq<char>>::empty());
        r
    }

    /// Position of the first registered namespace not below `namespace`.
    fn lower_bound(&self, namespace: &IndexNamespace) -> (r: (usize, bool))
        ensures
            r.0 <= self@.len(),
            forall|j: int| 0 <= j < r.0 ==> text_lt(#[trigger] self@[j], namespace@),
            r.1 ==> r.0 < self@.len() && self@[r.0 as int] == namespace@,
            !r.1 ==> r.0 < self@.len() ==> text_lt(namespace@, self@[r.0 as int]),
    {
        proof {
            use_type_invariant(self);
        }
        let mut i: usize = 0;
        while i < self.namespaces.len()
            invariant
                strictly_sorted(self@),
                self@.len() == self.namespaces@.len(),
                0 <= i <= self@.len(),
                forall|j: int| 0 <= j < i ==> text_lt(#[trigger] self@[j], namespace@),
            decreases self@.len() - i,
        {
            assert(self@[i as int] == self.namespaces@[i as int]@);
            match compare_text(self.namespaces[i].as_str(), namespace.as_str()) {
                TextOrder::Less => {},
                TextOrder::Equal => {
                    return (i, true);
                },
                TextOrder::Greater => {
                    return (i, false);
                },
            }
            i = i + 1;
        }
        (i, false)
    }

    /// Registers a namespace. Registering a namespace that is already
    /// present fails with [`NamespaceRegistryError::AlreadyRegistered`] and
    /// leaves the registry unchanged.
    pub fn register(&mut self, namespace: IndexNamespace) -> (r: Result<(), NamespaceRegistryError>)
        ensures
            old(self)@.contains(namespace@) ==> final(self)@ == old(self)@ && (r matches Err(NamespaceRegistryError::AlreadyRegistered(n)) && n@ == namespace@),
            !old(self)@.contains(namespace@) ==> r is Ok && final(self)@.len() == old(self)@.len() + 1
                && forall|x: Seq<char>| #[trigger] final(self)@.contains(x) <==> (old(self)@.contains(x) || x == namespace@),
            strictly_sorted(final(self)@),
    {
        proof {
            use_type_invariant(&*self);
        }
        let (pos, found) = self.lower_bound(&namespace);
        if found {
            return Err(NamespaceRegistryError::AlreadyRegistered(namespace));
        }
        let ghost s = self@;
        let ghost x = namespace@;
        proof {
            lemma_sorted_insert(s, pos as int, x);
            assert forall|j: int| 0 <= j < s.len() implies s[j] != x by {
                if j < pos {
                    assert(text_lt(s[j], x));
                    crate::order::lemma_text_irreflexive(x);
                } else {
                    assert(text_lt(x, s[pos as int]));
                    if j > pos {
                        crate::order::lemma_text_transitive(x, s[pos as int], s[j]);
                    }
                    crate::order::lemma_text_irreflexive(x);
                }
            }
        }
        let mut items: Vec<IndexNamespace> = Vec::new();
        std::mem::swap(&mut items, &mut self.namespaces);
        items.insert(pos, namespace);
        assert(items@.map_values(|n: IndexNamespace| n@) =~= s.insert(pos as int, x));
        self.namespaces = items;
        assert(self@ =~= s.insert(pos as int, x));
        assert forall|y: Seq<char>| #[trigger] self@.contains(y) <==> (s.contains(y) || y == x) by {
            if self@.contains(y) {
                let k = choose|k: int| 0 <= k < self@.len() && self@[k] == y;
                if k < pos {
                    assert(s[k] == y);
                } else if k > pos {
                    assert(s[k - 1] == y);
                }
            }
            if s.contains(y) {
                let k = choose|k: int| 0 <= k < s.len() && s[k] == y;
                if k < pos {
                    assert(self@[k] == y);
                } else {
                    assert(self@[k + 1] == y);
                }
            }
            if y == x {
                assert(self@[pos as int] == y);
            }
        }
        Ok(())
    }

    /// Returns whether the namespace is currently registered.
    pub fn contains(&self, namespace: &IndexNamespace) -> (r: bool)
        ensures
            r == self@.contains(namespace@),
    {
        proof {
            use_type_invariant(self);
        }
        let (pos, found) = self.lower_bound(namespace);
        proof {
            if !found {
                assert forall|j: int| 0 <= j < self@.len() implies self@[j] != namespace@ by {
                    if j < pos {
                        crate::order::lemma_text_irreflexive(namespace@);
                    } else {
                        if j > pos {
                            crate::order::lemma_text_transitive(namespace@, self@[pos as int], self@[j]);
                        }
                        crate::order::lemma_text_irreflexive(namespace@);
                    }
                }
            } else {
                assert(self@[pos as int] == namespace@);
            }
        }
        found
    }

    /// Removes a registered namespace and returns it. Removing a namespace
    /// that is not registered fails with
    /// [`NamespaceRegistryError::NotRegistered`] and changes nothing.
    pub fn unregister(&mut self, namespace: &IndexNamespace) -> (r: Result<IndexNamespace, NamespaceRegistryError>)
        ensures
            old(self)@.contains(namespace@) ==> (r matches Ok(n) && n@ == namespace@)
                && final(self)@.len() + 1 == old(self)@.len()
                && forall|x: Seq<char>| #[trigger] final(self)@.contains(x) <==> (old(self)@.contains(x) && x != namespace@),
            !old(self)@.contains(namespace@) ==> final(self)@ == old(self)@ && (r matches Err(NamespaceRegistryError::NotRegistered(n)) && n@ == namespace@),
            strictly_sorted(final(self)@),
    {
        proof {
            use_type_invariant(&*self);
        }
        let ghost s = self@;
        let (pos, found) = self.lower_bound(namespace);
        if !found {
            proof {
                assert forall|j: int| 0 <= j < s.len() implies s[j] != namespace@ by {
                    if j < pos {
                        crate::order::lemma_text_irreflexive(namespace@);
                    } else {
                        if j > pos {
                            crate::order::lemma_text_transitive(namespace@, s[pos as int], s[j]);
                        }
                        crate::order::lemma_text_irreflexive(namespace@);
                    }
                }
            }
            return Err(NamespaceRegistryError::NotRegistered(namespace.clone()));
        }
        proof {
            lemma_sorted_remove(s, pos as int);
        }
        let mut items: Vec<IndexNamespace> = Vec::new();
        std::mem::swap(&mut items, &mut self.namespaces);
        let removed = items.remove(pos);
        assert(items@.map_values(|n: IndexNamespace| n@) =~= s.remove(pos as int));
        self.namespaces = items;
        assert(self@ =~= s.remove(pos as int));
        assert forall|y: Seq<char>| #[trigger] self@.contains(y) <==> (s.contains(y) && y != namespace@) by {
            if self@.contains(y) {
                let k = choose|k: int| 0 <= k < self@.len() && self@[k] == y;
                if k < pos {
                    assert(s[k] == y);
                    assert(text_lt(s[k], s[pos as int]));
                    crate::order::lemma_text_irreflexive(y);
                } else {
                    assert(s[k + 1] == y);
                    assert(text_lt(s[pos as int], s[k + 1]));
                    crate::order::lemma_text_irreflexive(y);
                }
            }
            if s.contains(y) && y != namespace@ {
                let k = choose|k: int| 0 <= k < s.len() && s[k] == y;
                if k < pos {
                    assert(self@[k] == y);
                } else {
                    assert(self@[k - 1] == y);
                }
            }
        }
        Ok(removed)
    }

    /// Returns all registered namespaces in increasing byte order.
    pub fn snapshot(&self) -> (r: Vec<IndexNamespace>)
        ensures
            r@.map_values(|n: IndexNamespace| n@) == self@,
            strictly_sorted(self@),
    {
        proof {
            use_type_invariant(self);
        }
        let mut out: Vec<IndexNamespace> = Vec::new();
        let mut i: usize = 0;
        while i < self.namespaces.len()
            invariant
                0 <= i <= self.namespaces@.len(),
                out@.len() == i,
                forall|j: int| 0 <= j < i ==> (#[trigger] out@[j])@ == self.namespaces@[j]@,
            decreases self.namespaces@.len() - i,
        {
            out.push(self.namespaces[i].clone());
            i = i + 1;
        }
        assert(out@.map_values(|n: IndexNamespace| n@) =~= self@);
        out
    }

    /// Returns the number of registered namespaces.
    pub fn len(&self) -> (n: usize)
        ensures
            n == self@.len(),
    {
        self.namespaces.len()
    }

    /// Returns whether no namespaces are registered.
    pub fn is_empty(&self) -> (r: bool)
        ensures
            r == (self@.len() == 0),
    {
        self.namespaces.len() == 0
    }
}

impl Clone for NamespaceRegistry {
    /// An independent copy holding the same namespaces.
    fn clone(&self) -> (r: Self)
        ensures
            r@ == self@,
    {
        proof {
            use_type_invariant(self);
        }
        let items = self.snapshot();
        NamespaceRegistry { namespaces: items }
    }
}

impl Default for NamespaceRegistry {
    fn default() -> (r: Self)
        ensures
            r@ == Seq::<Seq<char>>::empty(),
    {
        NamespaceRegistry::new()
    }
}

impl AsRef<str> for IndexNamespace {
    fn as_ref(&self) -> (r: &str)
        ensures
            r@ == self@,
    {
        self.0.as_str()
    }
}

/// Message of a namespace validation failure.
pub open spec fn namespace_error_message(e: NamespaceValidationError) -> Seq<char> {
    match e {
        NamespaceValidationError::Empty => "namespace must not be empty"@,
        NamespaceValidationError::TooLong { length, maximum } => "namespace length "@ + decimal_text(length as nat) + " exceeds maximum "@ + decimal_text(maximum as nat) + " bytes"@,
        NamespaceValidationError::InvalidStart { byte } => "namespace starts with invalid byte 0x"@ + hex_byte_text(byte),
        NamespaceValidationError::InvalidEnd { byte } => "namespace ends with invalid byte 0x"@ + hex_byte_text(byte),
        NamespaceValidationError::NonAscii { byte, index } => "namespace contains non-ASCII byte 0x"@ + hex_byte_text(byte) + " at index "@ + decimal_text(index as nat),
        NamespaceValidationError::InvalidCharacter { byte, index } => "namespace contains invalid byte 0x"@ + hex_byte_text(byte) + " at index "@ + decimal_text(index as nat),
        NamespaceValidationError::ConsecutiveSeparators { index } => "namespace contains consecutive separators at index "@ + decimal_text(index as nat),
    }
}

impl NamespaceValidationError {
    /// Returns the failure message.
    pub fn to_string(&self) -> (s: String)
        ensures
            s@ == namespace_error_message(*self),
    {
        let mut s = String::new();
        match self {
            NamespaceValidationError::Empty => {
                push_text(&mut s, "namespace must not be empty");
            },
            NamespaceValidationError::TooLong { length, maximum } => {
                push_text(&mut s, "namespace length ");
                push_decimal(&mut s, *length as u128);
                push_text(&mut s, " exceeds maximum ");
                push_decimal(&mut s, *maximum as u128);
                push_text(&mut s, " bytes");
            },
            NamespaceValidationError::InvalidStart { byte } => {
                push_text(&mut s, "namespace starts with invalid byte 0x");
                push_hex_byte(&mut s, *byte);
            },
            NamespaceValidationError::InvalidEnd { byte } => {
                push_text(&mut s, "namespace ends with invalid byte 0x");
                push_hex_byte(&mut s, *byte);
            },
            NamespaceValidationError::NonAscii { byte, index } => {
                push_text(&mut s, "namespace contains non-ASCII byte 0x");
                push_hex_byte(&mut s, *byte);
                push_text(&mut s, " at index ");
                push_decimal(&mut s, *index as u128);
            },
            NamespaceValidationError::InvalidCharacter { byte, index } => {
                push_text(&mut s, "namespace contains invalid byte 0x");
                push_hex_byte(&mut s, *byte);
                push_text(&mut s, " at index ");
                push_decimal(&mut s, *index as u128);
            },
            NamespaceValidationError::ConsecutiveSeparators { index } => {
                push_text(&mut s, "namespace contains consecutive separators at index ");
                push_decimal(&mut s, *index as u128);
            },
        }
        assert(s@ =~= namespace_error_message(*self));
        s
    }
}

/// Message of a registry failure about `namespace`.
pub open spec fn registry_error_message(f: (bool, Seq<char>)) -> Seq<char> {
    match f {
        (true, n) => "namespace `"@ + n + "` is already registered"@,
        (false, n) => "namespace `"@ + n + "` is not registered"@,
    }
}

impl NamespaceRegistryError {
    /// Returns the failure message.
    pub fn to_string(&self) -> (s: String)
        ensures
            s@ == registry_error_message((self is AlreadyRegistered, self.namespace()@)),
    {
        let mut s = String::new();
        match self {
            NamespaceRegistryError::AlreadyRegistered(n) => {
                push_text(&mut s, "namespace `");
                push_text(&mut s, n.as_str());
                push_text(&mut s, "` is already registered");
            },
            NamespaceRegistryError::NotRegistered(n) => {
                push_text(&mut s, "namespace `");
                push_text(&mut s, n.as_str());
                push_text(&mut s, "` is not registered");
            },
        }
        assert(s@ =~= registry_error_message((self is AlreadyRegistered, self.namespace()@)));
        s
    }
}

/// Registry snapshots are deterministic: two registries holding the same
/// namespaces, whatever order they were registered and unregistered in,
/// have the same snapshot.
pub proof fn law_snapshot_depends_only_on_contents(a: Seq<Seq<char>>, b: Seq<Seq<char>>)
    requires
        strictly_sorted(a),
        strictly_sorted(b),
        forall|x: Seq<char>| a.contains(x) <==> b.contains(x),
    ensures
        a == b,
{
    crate::order::lemma_sorted_unique(a, b);
}

} // verus!
