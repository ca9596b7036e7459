//! Generic logical key definitions and key material, with their
//! deterministic canonical byte encodings.

use crate::order::{
    compare_text, is_lower_bound, lemma_lower_bound, lemma_sorted_insert, lemma_sorted_unique,
    lemma_text_irreflexive, strictly_sorted, text_lt, TextOrder,
};
use crate::text::{control_byte_index, find_control_byte};
use crate::encoding::{
    be_bytes_u128, be_bytes_u64, encoded_text, length_prefixed, push_length_prefixed, push_text,
    push_slice, push_u128, push_u64,
};

use vstd::prelude::*;
use vstd::utf8::encode_utf8;
use crate::message::{
    bool_text, byte_list_text, debug_quoted, decimal_text, push_bool, push_byte_list, push_decimal,
    push_quoted, push_signed, signed_text,
};
use vstd::std_specs::cmp::PartialEqSpecImpl;

verus! {

/// Mathematical value of a [`KeyMaterial`].
pub enum KeyValue {
    Null,
    Bool(bool),
    Integer(i128),
    Unsigned(u128),
    Text(Seq<char>),
    Bytes(Seq<u8>),
    Sequence(Seq<KeyValue>),
    Fields(Seq<(Seq<char>, KeyValue)>),
}

/// Generic logical key material: a small deterministic value model.
#[derive(Debug, Eq, PartialOrd, Ord, Hash)]
pub enum KeyMaterial {
    /// No value.
    Null,
    /// Boolean value.
    Bool(bool),
    /// Signed integer value.
    Integer(i128),
    /// Unsigned integer value.
    Unsigned(u128),
    /// UTF-8 text.
    Text(String),
    /// Opaque bytes.
    Bytes(Vec<u8>),
    /// Ordered logical sequence.
    Sequence(Vec<KeyMaterial>),
    /// Named fields, kept in increasing byte order of their names.
    Fields(KeyFields),
}

/// Named fields of a [`KeyMaterial::Fields`], kept in strictly increasing byte
/// order of their names.
#[derive(Debug, Eq, PartialOrd, Ord, Hash)]
pub struct KeyFields {
    fields: Vec<(String, KeyMaterial)>,
}

/// The names of a sequence of named values.
pub open spec fn names_of(fs: Seq<(Seq<char>, KeyValue)>) -> Seq<Seq<char>> {
    fs.map_values(|f: (Seq<char>, KeyValue)| f.0)
}

/// Fields whose names are in strictly increasing order.
pub open spec fn fields_sorted(fs: Seq<(Seq<char>, KeyValue)>) -> bool {
    strictly_sorted(names_of(fs))
}

pub closed spec fn key_value_of(m: KeyMaterial) -> KeyValue
    decreases m,
{
    match m {
        KeyMaterial::Null => KeyValue::Null,
        KeyMaterial::Bool(b) => KeyValue::Bool(b),
        KeyMaterial::Integer(i) => KeyValue::Integer(i),
        KeyMaterial::Unsigned(u) => KeyValue::Unsigned(u),
        KeyMaterial::Text(s) => KeyValue::Text(s@),
        KeyMaterial::Bytes(b) => KeyValue::Bytes(b@),
        KeyMaterial::Sequence(items) => KeyValue::Sequence(key_values_of(items@)),
        KeyMaterial::Fields(f) => KeyValue::Fields(field_values_of(f.fields@)),
    }
}

pub closed spec fn key_values_of(items: Seq<KeyMaterial>) -> Seq<KeyValue>
    decreases items,
{
    if items.len() == 0 {
        Seq::empty()
    } else {
        key_values_of(items.drop_last()).push(key_value_of(items.last()))
    }
}

pub closed spec fn field_values_of(fs: Seq<(String, KeyMaterial)>) -> Seq<(Seq<char>, KeyValue)>
    decreases fs,
{
    if fs.len() == 0 {
        Seq::empty()
    } else {
        field_values_of(fs.drop_last()).push((fs.last().0@, key_value_of(fs.last().1)))
    }
}

impl View for KeyMaterial {
    type V = KeyValue;

    open spec fn view(&self) -> KeyValue {
        key_value_of(*self)
    }
}

impl View for KeyFields {
    type V = Seq<(Seq<char>, KeyValue)>;

    closed spec fn view(&self) -> Seq<(Seq<char>, KeyValue)> {
        field_values_of(self.fields@)
    }
}

pub proof fn lemma_key_values_of(items: Seq<KeyMaterial>)
    ensures
        key_values_of(items).len() == items.len(),
        forall|i: int| 0 <= i < items.len() ==> #[trigger] key_values_of(items)[i] == key_value_of(items[i]),
    decreases items.len(),
{
    if items.len() > 0 {
        lemma_key_values_of(items.drop_last());
    }
}

pub proof fn lemma_field_values_of(fs: Seq<(String, KeyMaterial)>)
    ensures
        field_values_of(fs).len() == fs.len(),
        forall|i: int| 0 <= i < fs.len() ==> #[trigger] field_values_of(fs)[i] == (fs[i].0@, key_value_of(fs[i].1)),
    decreases fs.len(),
{
    if fs.len() > 0 {
        lemma_field_values_of(fs.drop_last());
    }
}

/// The value each kind of key material stands for: scalars map to the same
/// scalar (text and bytes by their contents), a sequence to the values of its
/// items in order, and named fields to their view.
pub broadcast proof fn lemma_key_material_view(m: KeyMaterial)
    ensures
        #[trigger] m@ == match m {
            KeyMaterial::Null => KeyValue::Null,
            KeyMaterial::Bool(b) => KeyValue::Bool(b),
            KeyMaterial::Integer(i) => KeyValue::Integer(i),
            KeyMaterial::Unsigned(u) => KeyValue::Unsigned(u),
            KeyMaterial::Text(t) => KeyValue::Text(t@),
            KeyMaterial::Bytes(b) => KeyValue::Bytes(b@),
            KeyMaterial::Sequence(items) => KeyValue::Sequence(items@.map_values(|x: KeyMaterial| x@)),
            KeyMaterial::Fields(f) => KeyValue::Fields(f@),
        },
{
    if let KeyMaterial::Sequence(items) = m {
        lemma_key_values_of(items@);
        assert(key_values_of(items@) =~= items@.map_values(|x: KeyMaterial| x@));
    }
}

impl KeyFields {
    #[verifier::type_invariant]
    spec fn names_in_order(self) -> bool {
        fields_sorted(field_values_of(self.fields@))
    }
}

/// Deep copy of named fields.
fn copy_fields(f: &KeyFields) -> (r: KeyFields)
    ensures
        r@ == f@,
    decreases f,
{
    proof {
        use_type_invariant(f);
    }
    let mut out: Vec<(String, KeyMaterial)> = Vec::new();
    let mut i: usize = 0;
    while i < f.fields.len()
        invariant
            0 <= i <= f.fields@.len(),
            out@.len() == i,
            forall|j: int| 0 <= j < i ==> (#[trigger] out@[j]).0@ == f.fields@[j].0@ && out@[j].1@ == f.fields@[j].1@,
        decreases f.fields@.len() - i,
    {
        assert(decreases_to!(f => f.fields@[i as int].1));
        let name = f.fields[i].0.clone();
        let value = copy_material(&f.fields[i].1);
        out.push((name, value));
        i = i + 1;
    }
    proof {
        lemma_field_values_of(out@);
        lemma_field_values_of(f.fields@);
        assert(field_values_of(out@) =~= field_values_of(f.fields@));
    }
    KeyFields { fields: out }
}

/// Deep copy of key material.
#[verifier::loop_isolation(false)]
fn copy_material(m: &KeyMaterial) -> (r: KeyMaterial)
    ensures
        r@ == m@,
    decreases m,
{
    match m {
        KeyMaterial::Null => KeyMaterial::Null,
        KeyMaterial::Bool(b) => KeyMaterial::Bool(*b),
        KeyMaterial::Integer(i) => KeyMaterial::Integer(*i),
        KeyMaterial::Unsigned(u) => KeyMaterial::Unsigned(*u),
        KeyMaterial::Text(s) => KeyMaterial::Text(s.clone()),
        KeyMaterial::Bytes(b) => KeyMaterial::Bytes(b.clone()),
        KeyMaterial::Sequence(items) => {
            let mut out: Vec<KeyMaterial> = Vec::new();
            let mut i: usize = 0;
            while i < items.len()
                invariant
                    0 <= i <= items@.len(),
                    out@.len() == i,
                    forall|j: int| 0 <= j < i ==> (#[trigger] out@[j])@ == items@[j]@,
                decreases items@.len() - i,
            {
                proof {
                    assert(decreases_to!(*m => *items));
                    assert(decreases_to!(*items => items@));
                    assert(decreases_to!(items@ => items@[i as int]));
                }
                let c = copy_material(&items[i]);
                out.push(c);
                i = i + 1;
            }
            proof {
                lemma_key_values_of(out@);
                lemma_key_values_of(items@);
                assert(key_values_of(out@) =~= key_values_of(items@));
            }
            KeyMaterial::Sequence(out)
        },
        KeyMaterial::Fields(f) => KeyMaterial::Fields(copy_fields(f)),
    }
}

fn bytes_eq(a: &Vec<u8>, b: &Vec<u8>) -> (r: bool)
    ensures
        r == (a@ == b@),
{
    if a.len() != b.len() {
        return false;
    }
    let mut i: usize = 0;
    while i < a.len()
        invariant
            a@.len() == b@.len(),
            0 <= i <= a@.len(),
            forall|j: int| 0 <= j < i ==> a@[j] == b@[j],
        decreases a@.len() - i,
    {
        if a[i] != b[i] {
            return false;
        }
        i = i + 1;
    }
    assert(a@ =~= b@);
    true
}

/// Structural equality of named fields.
fn fields_eq(x: &KeyFields, y: &KeyFields) -> (r: bool)
    ensures
        r == (x@ == y@),
    decreases x,
{
    proof {
        lemma_field_values_of(x.fields@);
        lemma_field_values_of(y.fields@);
    }
    if x.fields.len() != y.fields.len() {
        return false;
    }
    let mut i: usize = 0;
    while i < x.fields.len()
        invariant
            x.fields@.len() == y.fields@.len(),
            0 <= i <= x.fields@.len(),
            field_values_of(x.fields@).len() == x.fields@.len(),
            field_values_of(y.fields@).len() == y.fields@.len(),
            forall|j: int| 0 <= j < x.fields@.len() ==> #[trigger] field_values_of(x.fields@)[j] == (x.fields@[j].0@, key_value_of(x.fields@[j].1)),
            forall|j: int| 0 <= j < y.fields@.len() ==> #[trigger] field_values_of(y.fields@)[j] == (y.fields@[j].0@, key_value_of(y.fields@[j].1)),
            forall|j: int| 0 <= j < i ==> x.fields@[j].0@ == y.fields@[j].0@ && x.fields@[j].1@ == y.fields@[j].1@,
        decreases x.fields@.len() - i,
    {
        assert(decreases_to!(x => x.fields@[i as int].1));
        if x.fields[i].0 != y.fields[i].0 {
            assert(field_values_of(x.fields@)[i as int] != field_values_of(y.fields@)[i as int]);
            return false;
        }
        if !material_eq(&x.fields[i].1, &y.fields[i].1) {
            assert(field_values_of(x.fields@)[i as int] != field_values_of(y.fields@)[i as int]);
            return false;
        }
        i = i + 1;
    }
    assert(field_values_of(x.fields@) =~= field_values_of(y.fields@));
    true
}

/// Structural equality of key material.
#[verifier::loop_isolation(false)]
fn material_eq(a: &KeyMaterial, b: &KeyMaterial) -> (r: bool)
    ensures
        r == (a@ == b@),
    decreases a,
{
    match (a, b) {
        (KeyMaterial::Null, KeyMaterial::Null) => {
            assert(a@ == KeyValue::Null && b@ == KeyValue::Null);
            true
        },
        (KeyMaterial::Bool(x), KeyMaterial::Bool(y)) => {
            assert(a@ == KeyValue::Bool(*x) && b@ == KeyValue::Bool(*y));
            *x == *y
        },
        (KeyMaterial::Integer(x), KeyMaterial::Integer(y)) => {
            assert(a@ == KeyValue::Integer(*x) && b@ == KeyValue::Integer(*y));
            *x == *y
        },
        (KeyMaterial::Unsigned(x), KeyMaterial::Unsigned(y)) => {
            assert(a@ == KeyValue::Unsigned(*x) && b@ == KeyValue::Unsigned(*y));
            *x == *y
        },
        (KeyMaterial::Text(x), KeyMaterial::Text(y)) => {
            assert(a@ == KeyValue::Text(x@));
            assert(b@ == KeyValue::Text(y@));
            *x == *y
        },
        (KeyMaterial::Bytes(x), KeyMaterial::Bytes(y)) => {
            assert(a@ == KeyValue::Bytes(x@) && b@ == KeyValue::Bytes(y@));
            bytes_eq(x, y)
        },
        (KeyMaterial::Sequence(x), KeyMaterial::Sequence(y)) => {
            proof {
                lemma_key_values_of(x@);
                lemma_key_values_of(y@);
            }
            if x.len() != y.len() {
                return false;
            }
            let mut i: usize = 0;
            while i < x.len()
                invariant
                    x@.len() == y@.len(),
                    0 <= i <= x@.len(),
                    key_values_of(x@).len() == x@.len(),
                    key_values_of(y@).len() == y@.len(),
                    forall|j: int| 0 <= j < x@.len() ==> #[trigger] key_values_of(x@)[j] == key_value_of(x@[j]),
                    forall|j: int| 0 <= j < y@.len() ==> #[trigger] key_values_of(y@)[j] == key_value_of(y@[j]),
                    forall|j: int| 0 <= j < i ==> x@[j]@ == y@[j]@,
                decreases x@.len() - i,
            {
                proof {
                    assert(decreases_to!(*a => *x));
                    assert(decreases_to!(*x => x@));
                    assert(decreases_to!(x@ => x@[i as int]));
                }
                if !material_eq(&x[i], &y[i]) {
                    assert(key_values_of(x@)[i as int] != key_values_of(y@)[i as int]);
                    return false;
                }
                i = i + 1;
            }
            assert(key_values_of(x@) =~= key_values_of(y@));
            assert(a@ == KeyValue::Sequence(key_values_of(x@)));
            assert(b@ == KeyValue::Sequence(key_values_of(y@)));
            true
        },
        (KeyMaterial::Fields(x), KeyMaterial::Fields(y)) => {
            assert(a@ == KeyValue::Fields(x@));
            assert(b@ == KeyValue::Fields(y@));
            fields_eq(x, y)
        },
        _ => {
            assert(a@ != b@);
            false
        },
    }
}

impl PartialEq for KeyMaterial {
    fn eq(&self, other: &Self) -> (r: bool) {
        material_eq(self, other)
    }
}

impl PartialEqSpecImpl for KeyMaterial {
    open spec fn obeys_eq_spec() -> bool {
        true
    }

    open spec fn eq_spec(&self, other: &Self) -> bool {
        self@ == other@
    }
}

impl PartialEq for KeyFields {
    fn eq(&self, other: &Self) -> (r: bool) {
        fields_eq(self, other)
    }
}

impl PartialEqSpecImpl for KeyFields {
    open spec fn obeys_eq_spec() -> bool {
        true
    }

    open spec fn eq_spec(&self, other: &Self) -> bool {
        self@ == other@
    }
}

impl Clone for KeyMaterial {
    fn clone(&self) -> (r: Self)
        ensures
            r@ == self@,
    {
        copy_material(self)
    }
}

impl Clone for KeyFields {
    fn clone(&self) -> (r: Self)
        ensures
            r@ == self@,
    {
        copy_fields(self)
    }
}

/// Validation failures for [`KeyMaterial`].
#[derive(Debug, Eq)]
pub enum KeyMaterialValidationError {
    /// A map field name is empty.
    EmptyMapField,
    /// A map field name contains a control character at this byte position.
    ControlCharacter { field: String, index: usize },
    /// A map contains the same field more than once.
    DuplicateMapField(String),
    /// Text contains a control character at this byte position.
    TextControlCharacter { index: usize },
}

/// Value of a [`KeyMaterialValidationError`].
pub enum KeyFault {
    EmptyMapField,
    ControlCharacter { field: Seq<char>, index: usize },
    DuplicateMapField(Seq<char>),
    TextControlCharacter { index: usize },
}

impl View for KeyMaterialValidationError {
    type V = KeyFault;

    open spec fn view(&self) -> KeyFault {
        match self {
            KeyMaterialValidationError::EmptyMapField => KeyFault::EmptyMapField,
            KeyMaterialValidationError::ControlCharacter { field, index } => KeyFault::ControlCharacter {
                field: field@,
                index: *index,
            },
            KeyMaterialValidationError::DuplicateMapField(f) => KeyFault::DuplicateMapField(f@),
            KeyMaterialValidationError::TextControlCharacter { index } => KeyFault::TextControlCharacter {
                index: *index,
            },
        }
    }
}

impl Clone for KeyMaterialValidationError {
    fn clone(&self) -> (r: Self)
        ensures
            r@ == self@,
    {
        match self {
            KeyMaterialValidationError::EmptyMapField => KeyMaterialValidationError::EmptyMapField,
            KeyMaterialValidationError::ControlCharacter { field, index } => KeyMaterialValidationError::ControlCharacter {
                field: field.clone(),
                index: *index,
            },
            KeyMaterialValidationError::DuplicateMapField(f) => KeyMaterialValidationError::DuplicateMapField(f.clone()),
            KeyMaterialValidationError::TextControlCharacter { index } => KeyMaterialValidationError::TextControlCharacter {
                index: *index,
            },
        }
    }
}

impl PartialEq for KeyMaterialValidationError {
    fn eq(&self, other: &Self) -> (r: bool) {
        match (self, other) {
            (KeyMaterialValidationError::EmptyMapField, KeyMaterialValidationError::EmptyMapField) => true,
            (
                KeyMaterialValidationError::ControlCharacter { field: f, index: i },
                KeyMaterialValidationError::ControlCharacter { field: g, index: j },
            ) => *f == *g && *i == *j,
            (KeyMaterialValidationError::DuplicateMapField(f), KeyMaterialValidationError::DuplicateMapField(g)) => *f == *g,
            (
                KeyMaterialValidationError::TextControlCharacter { index: i },
                KeyMaterialValidationError::TextControlCharacter { index: j },
            ) => *i == *j,
            _ => false,
        }
    }
}

impl PartialEqSpecImpl for KeyMaterialValidationError {
    open spec fn obeys_eq_spec() -> bool {
        true
    }

    open spec fn eq_spec(&self, other: &Self) -> bool {
        self@ == other@
    }
}

/// Outcome of validating text key material.
pub open spec fn text_check(s: Seq<char>) -> Result<(), KeyFault> {
    match control_byte_index(s) {
        Some(i) => Err(KeyFault::TextControlCharacter { index: i as usize }),
        None => Ok(()),
    }
}

/// Outcome of validating the name of a map field.
pub open spec fn field_name_check(s: Seq<char>) -> Result<(), KeyFault> {
    if s.len() == 0 {
        Err(KeyFault::EmptyMapField)
    } else {
        match control_byte_index(s) {
            Some(i) => Err(KeyFault::ControlCharacter { field: s, index: i as usize }),
            None => Ok(()),
        }
    }
}

/// Outcome of validating a key value: the first failure in a depth-first,
/// left-to-right walk, if any.
pub open spec fn key_check(v: KeyValue) -> Result<(), KeyFault>
    decreases v,
{
    match v {
        KeyValue::Text(s) => text_check(s),
        KeyValue::Sequence(items) => items_check(items),
        KeyValue::Fields(fs) => fields_check(fs),
        _ => Ok(()),
    }
}

/// Outcome of validating the items of a sequence in order.
pub open spec fn items_check(items: Seq<KeyValue>) -> Result<(), KeyFault>
    decreases items,
{
    if items.len() == 0 {
        Ok(())
    } else {
        match key_check(items[0]) {
            Err(e) => Err(e),
            Ok(()) => items_check(items.drop_first()),
        }
    }
}

/// Outcome of validating named fields in order: each name, then its value.
pub open spec fn fields_check(fs: Seq<(Seq<char>, KeyValue)>) -> Result<(), KeyFault>
    decreases fs,
{
    if fs.len() == 0 {
        Ok(())
    } else {
        match field_name_check(fs[0].0) {
            Err(e) => Err(e),
            Ok(()) => match key_check(fs[0].1) {
                Err(e) => Err(e),
                Ok(()) => fields_check(fs.drop_first()),
            },
        }
    }
}

/// The items of a sequence pass exactly when each item passes, and a failure
/// is that of the first failing item.
proof fn lemma_items_check(items: Seq<KeyValue>)
    ensures
        items_check(items) is Ok <==> forall|i: int| 0 <= i < items.len() ==> #[trigger] key_check(items[i]) is Ok,
        items_check(items) matches Err(e) ==> exists|i: int|
            0 <= i < items.len() && #[trigger] key_check(items[i]) == Err::<(), KeyFault>(e) && forall|j: int|
                0 <= j < i ==> #[trigger] key_check(items[j]) is Ok,
    decreases items.len(),
{
    if items.len() > 0 {
        let rest = items.drop_first();
        lemma_items_check(rest);
        assert forall|i: int| 0 <= i < rest.len() implies rest[i] == items[i + 1] by {}
        if key_check(items[0]) is Ok {
            if items_check(rest) is Ok {
                assert forall|i: int| 0 <= i < items.len() implies #[trigger] key_check(items[i]) is Ok by {
                    if i > 0 {
                        assert(key_check(rest[i - 1]) is Ok);
                    }
                }
            } else {
                let e = items_check(rest)->Err_0;
                let k = choose|k: int|
                    0 <= k < rest.len() && #[trigger] key_check(rest[k]) == Err::<(), KeyFault>(e) && forall|j: int|
                        0 <= j < k ==> #[trigger] key_check(rest[j]) is Ok;
                assert(key_check(items[k + 1]) == Err::<(), KeyFault>(e));
                assert forall|j: int| 0 <= j < k + 1 implies #[trigger] key_check(items[j]) is Ok by {
                    if j > 0 {
                        assert(key_check(rest[j - 1]) is Ok);
                    }
                }
            }
        } else {
            assert(key_check(items[0]) == items_check(items));
        }
    }
}

/// The named fields pass exactly when every name is a valid field name and
/// every value passes.
proof fn lemma_fields_check(fs: Seq<(Seq<char>, KeyValue)>)
    ensures
        fields_check(fs) is Ok <==> forall|i: int|
            0 <= i < fs.len() ==> #[trigger] field_name_check(fs[i].0) is Ok && key_check(fs[i].1) is Ok,
    decreases fs.len(),
{
    if fs.len() > 0 {
        let rest = fs.drop_first();
        lemma_fields_check(rest);
        assert forall|i: int| 0 <= i < rest.len() implies rest[i] == fs[i + 1] by {}
        if fields_check(fs) is Ok {
            assert forall|i: int| 0 <= i < fs.len() implies #[trigger] field_name_check(fs[i].0) is Ok && key_check(
                fs[i].1,
            ) is Ok by {
                if i > 0 {
                    assert(field_name_check(rest[i - 1].0) is Ok);
                }
            }
        }
        if forall|i: int|
            0 <= i < fs.len() ==> #[trigger] field_name_check(fs[i].0) is Ok && key_check(fs[i].1) is Ok {
            assert(field_name_check(fs[0].0) is Ok);
            assert forall|i: int| 0 <= i < rest.len() implies #[trigger] field_name_check(rest[i].0) is Ok && key_check(
                rest[i].1,
            ) is Ok by {
                assert(field_name_check(fs[i + 1].0) is Ok);
            }
        }
    }
}

/// Key material is valid exactly when every part of it is: a text has no
/// control character, a sequence has only valid items, named fields have
/// valid names and valid values, and the other values are always valid. A
/// sequence reports the failure of its first invalid item.
pub proof fn law_key_material_is_valid_when_every_part_is(v: KeyValue)
    ensures
        v matches KeyValue::Text(t) ==> (key_check(v) is Ok <==> control_byte_index(t) is None),
        v matches KeyValue::Sequence(items) ==> (key_check(v) is Ok <==> forall|i: int|
            0 <= i < items.len() ==> #[trigger] key_check(items[i]) is Ok),
        v matches KeyValue::Sequence(items) ==> (key_check(v) matches Err(e) ==> exists|i: int|
            0 <= i < items.len() && #[trigger] key_check(items[i]) == Err::<(), KeyFault>(e) && forall|j: int|
                0 <= j < i ==> #[trigger] key_check(items[j]) is Ok),
        v matches KeyValue::Fields(fs) ==> (key_check(v) is Ok <==> forall|i: int|
            0 <= i < fs.len() ==> #[trigger] field_name_check(fs[i].0) is Ok && key_check(fs[i].1) is Ok),
        (v is Null || v is Bool || v is Integer || v is Unsigned || v is Bytes) ==> key_check(v) is Ok,
{
    match v {
        KeyValue::Sequence(items) => lemma_items_check(items),
        KeyValue::Fields(fs) => lemma_fields_check(fs),
        _ => {},
    }
}

fn validate_text(value: &str) -> (r: Result<(), KeyMaterialValidationError>)
    ensures
        r is Ok <==> text_check(value@) is Ok,
        r matches Err(e) ==> text_check(value@) == Err::<(), KeyFault>(e@),
{
    match find_control_byte(value) {
        Some(index) => Err(KeyMaterialValidationError::TextControlCharacter { index }),
        None => Ok(()),
    }
}

fn validate_material_field_name(value: &str) -> (r: Result<(), KeyMaterialValidationError>)
    ensures
        r is Ok <==> field_name_check(value@) is Ok,
        r matches Err(e) ==> field_name_check(value@) == Err::<(), KeyFault>(e@),
{
    if value.is_empty() {
        return Err(KeyMaterialValidationError::EmptyMapField);
    }
    match find_control_byte(value) {
        Some(index) => Err(KeyMaterialValidationError::ControlCharacter { field: value.to_owned(), index }),
        None => Ok(()),
    }
}

/// Validates a whole key-material tree.
#[verifier::loop_isolation(false)]
fn validate_material(m: &KeyMaterial) -> (r: Result<(), KeyMaterialValidationError>)
    ensures
        r is Ok <==> key_check(m@) is Ok,
        r matches Err(e) ==> key_check(m@) == Err::<(), KeyFault>(e@),
    decreases m,
{
    match m {
        KeyMaterial::Text(s) => {
            assert(m@ == KeyValue::Text(s@));
            validate_text(s.as_str())
        },
        KeyMaterial::Sequence(items) => {
            let ghost vs = key_values_of(items@);
            proof {
                lemma_key_values_of(items@);
                assert(m@ == KeyValue::Sequence(vs));
                assert(vs.skip(0) =~= vs);
            }
            let mut i: usize = 0;
            while i < items.len()
                invariant
                    0 <= i <= items@.len(),
                    vs.len() == items@.len(),
                    items_check(vs) == items_check(vs.skip(i as int)),
                decreases items@.len() - i,
            {
                proof {
                    assert(decreases_to!(*m => *items));
                    assert(decreases_to!(*items => items@));
                    assert(decreases_to!(items@ => items@[i as int]));
                    assert(vs.skip(i as int)[0] == vs[i as int]);
                    assert(vs.skip(i as int).drop_first() =~= vs.skip(i + 1));
                }
                match validate_material(&items[i]) {
                    Err(e) => {
                        return Err(e);
                    },
                    Ok(()) => {},
                }
                i = i + 1;
            }
            proof {
                assert(vs.skip(i as int) =~= Seq::<KeyValue>::empty());
            }
            Ok(())
        },
        KeyMaterial::Fields(f) => {
            assert(m@ == KeyValue::Fields(f@));
            validate_fields(f)
        },
        _ => {
            assert(key_check(m@) is Ok);
            Ok(())
        },
    }
}

#[verifier::loop_isolation(false)]
fn validate_fields(f: &KeyFields) -> (r: Result<(), KeyMaterialValidationError>)
    ensures
        r is Ok <==> fields_check(f@) is Ok,
        r matches Err(e) ==> fields_check(f@) == Err::<(), KeyFault>(e@),
    decreases f,
{
    let ghost fs = f@;
    proof {
        lemma_field_values_of(f.fields@);
        assert(fs.skip(0) =~= fs);
    }
    let mut i: usize = 0;
    while i < f.fields.len()
        invariant
            0 <= i <= f.fields@.len(),
            fs.len() == f.fields@.len(),
            fields_check(fs) == fields_check(fs.skip(i as int)),
        decreases f.fields@.len() - i,
    {
        proof {
            assert(decreases_to!(f => f.fields@[i as int].1));
            assert(fs.skip(i as int)[0] == fs[i as int]);
            assert(fs.skip(i as int).drop_first() =~= fs.skip(i + 1));
        }
        match validate_material_field_name(f.fields[i].0.as_str()) {
            Err(e) => {
                return Err(e);
            },
            Ok(()) => {},
        }
        match validate_material(&f.fields[i].1) {
            Err(e) => {
                return Err(e);
            },
            Ok(()) => {},
        }
        i = i + 1;
    }
    proof {
        assert(fs.skip(i as int) =~= Seq::<(Seq<char>, KeyValue)>::empty());
    }
    Ok(())
}

impl KeyMaterial {
    /// Constructs text key material.
    pub fn text(value: &str) -> (r: Self)
        ensures
            r@ == KeyValue::Text(value@),
    {
        KeyMaterial::Text(value.to_owned())
    }

    /// Constructs opaque byte key material.
    pub fn bytes(value: Vec<u8>) -> (r: Self)
        ensures
            r@ == KeyValue::Bytes(value@),
    {
        KeyMaterial::Bytes(value)
    }

    /// Validates the complete key-material tree: text must contain no control
    /// characters, and map field names must be non-empty and contain no
    /// control characters. The first failure in a depth-first, left-to-right
    /// walk is reported.
    pub fn validate(&self) -> (r: Result<(), KeyMaterialValidationError>)
        ensures
            r is Ok <==> key_check(self@) is Ok,
            r matches Err(e) ==> key_check(self@) == Err::<(), KeyFault>(e@),
    {
        validate_material(self)
    }
}

/// Canonical encoding of a key value: a one-byte kind tag followed by the
/// kind's payload (fixed-width big-endian integers, length-prefixed bytes and
/// text, counted sequences and named fields).
pub open spec fn encode_key(v: KeyValue) -> Seq<u8>
    decreases v,
{
    match v {
        KeyValue::Null => seq![0x00u8],
        KeyValue::Bool(b) => if b {
            seq![0x02u8]
        } else {
            seq![0x01u8]
        },
        KeyValue::Integer(i) => seq![0x03u8] + be_bytes_u128(i as u128),
        KeyValue::Unsigned(u) => seq![0x04u8] + be_bytes_u128(u),
        KeyValue::Text(t) => seq![0x05u8] + encoded_text(t),
        KeyValue::Bytes(b) => seq![0x06u8] + length_prefixed(b),
        KeyValue::Sequence(items) => seq![0x07u8] + be_bytes_u64(items.len() as u64) + encode_items(items),
        KeyValue::Fields(fs) => seq![0x08u8] + be_bytes_u64(fs.len() as u64) + encode_fields(fs),
    }
}

/// Concatenated canonical encodings of the items of a sequence.
pub open spec fn encode_items(items: Seq<KeyValue>) -> Seq<u8>
    decreases items,
{
    if items.len() == 0 {
        Seq::empty()
    } else {
        encode_items(items.drop_last()) + encode_key(items.last())
    }
}

/// Concatenated canonical encodings of named fields: each name as
/// length-prefixed text, then its value.
pub open spec fn encode_fields(fs: Seq<(Seq<char>, KeyValue)>) -> Seq<u8>
    decreases fs,
{
    if fs.len() == 0 {
        Seq::empty()
    } else {
        encode_fields(fs.drop_last()) + encoded_text(fs.last().0) + encode_key(fs.last().1)
    }
}

#[verifier::loop_isolation(false)]
fn encode_material(m: &KeyMaterial, output: &mut Vec<u8>)
    ensures
        final(output)@ == old(output)@ + encode_key(m@),
    decreases m,
{
    let ghost start = output@;
    match m {
        KeyMaterial::Null => {
            output.push(0x00);
            assert(output@ =~= start + encode_key(m@));
        },
        KeyMaterial::Bool(b) => {
            if *b {
                output.push(0x02);
            } else {
                output.push(0x01);
            }
            assert(output@ =~= start + encode_key(m@));
        },
        KeyMaterial::Integer(i) => {
            output.push(0x03);
            push_u128(*i as u128, output);
            assert(output@ =~= start + encode_key(m@));
        },
        KeyMaterial::Unsigned(u) => {
            output.push(0x04);
            push_u128(*u, output);
            assert(output@ =~= start + encode_key(m@));
        },
        KeyMaterial::Text(t) => {
            output.push(0x05);
            push_text(t.as_str(), output);
            assert(output@ =~= start + encode_key(m@));
        },
        KeyMaterial::Bytes(b) => {
            output.push(0x06);
            push_length_prefixed(b.as_slice(), output);
            assert(output@ =~= start + encode_key(m@));
        },
        KeyMaterial::Sequence(items) => {
            let ghost vs = key_values_of(items@);
            proof {
                lemma_key_values_of(items@);
                assert(m@ == KeyValue::Sequence(vs));
            }
            output.push(0x07);
            push_u64(items.len() as u64, output);
            let ghost head = output@;
            assert(encode_items(vs.take(0)) =~= Seq::<u8>::empty());
            assert(head =~= head + encode_items(vs.take(0)));
            let mut i: usize = 0;
            while i < items.len()
                invariant
                    0 <= i <= items@.len(),
                    vs.len() == items@.len(),
                    output@ == head + encode_items(vs.take(i as int)),
                decreases items@.len() - i,
            {
                proof {
                    assert(decreases_to!(*m => *items));
                    assert(decreases_to!(*items => items@));
                    assert(decreases_to!(items@ => items@[i as int]));
                    assert(vs.take(i + 1).drop_last() =~= vs.take(i as int));
                    assert(vs.take(i + 1).last() == vs[i as int]);
                }
                encode_material(&items[i], output);
                i = i + 1;
            }
            assert(vs.take(i as int) =~= vs);
            assert(output@ =~= start + encode_key(m@));
        },
        KeyMaterial::Fields(f) => {
            assert(m@ == KeyValue::Fields(f@));
            output.push(0x08);
            proof {
                lemma_field_values_of(f.fields@);
            }
            push_u64(f.fields.len() as u64, output);
            encode_fields_into(f, output);
            assert(output@ =~= start + encode_key(m@));
        },
    }
}

#[verifier::loop_isolation(false)]
fn encode_fields_into(f: &KeyFields, output: &mut Vec<u8>)
    ensures
        final(output)@ == old(output)@ + encode_fields(f@),
    decreases f,
{
    let ghost fs = f@;
    let ghost head = output@;
    proof {
        lemma_field_values_of(f.fields@);
        assert(encode_fields(fs.take(0)) =~= Seq::<u8>::empty());
        assert(head =~= head + encode_fields(fs.take(0)));
    }
    let mut i: usize = 0;
    while i < f.fields.len()
        invariant
            0 <= i <= f.fields@.len(),
            fs.len() == f.fields@.len(),
            output@ == head + encode_fields(fs.take(i as int)),
        decreases f.fields@.len() - i,
    {
        proof {
            assert(decreases_to!(f => f.fields@[i as int].1));
            assert(fs.take(i + 1).drop_last() =~= fs.take(i as int));
            assert(fs.take(i + 1).last() == fs[i as int]);
        }
        push_text(f.fields[i].0.as_str(), output);
        encode_material(&f.fields[i].1, output);
        i = i + 1;
    }
    assert(fs.take(i as int) =~= fs);
}

impl KeyMaterial {
    /// Returns the deterministic canonical bytes of this key material.
    pub fn canonical_bytes(&self) -> (r: Vec<u8>)
        ensures
            r@ == encode_key(self@),
    {
        let mut bytes: Vec<u8> = Vec::new();
        encode_material(self, &mut bytes);
        assert(bytes@ =~= encode_key(self@));
        bytes
    }
}

/// The unique arrangement of a set of named values in strictly increasing
/// name order.
pub open spec fn sorted_arrangement(pairs: Seq<(Seq<char>, KeyValue)>) -> Seq<(Seq<char>, KeyValue)> {
    choose|fs: Seq<(Seq<char>, KeyValue)>| fields_sorted(fs) && fs.to_set() == pairs.to_set()
}

/// Two name-sorted field sequences holding the same named values are equal.
pub proof fn lemma_sorted_fields_unique(a: Seq<(Seq<char>, KeyValue)>, b: Seq<(Seq<char>, KeyValue)>)
    requires
        fields_sorted(a),
        fields_sorted(b),
        a.to_set() == b.to_set(),
    ensures
        a == b,
{
    let na = names_of(a);
    let nb = names_of(b);
    assert forall|x: Seq<char>| na.contains(x) <==> nb.contains(x) by {
        if na.contains(x) {
            let i = choose|i: int| 0 <= i < na.len() && na[i] == x;
            assert(a.to_set().contains(a[i]));
            assert(b.contains(a[i]));
            let k = choose|k: int| 0 <= k < b.len() && b[k] == a[i];
            assert(nb[k] == x);
        }
        if nb.contains(x) {
            let i = choose|i: int| 0 <= i < nb.len() && nb[i] == x;
            assert(b.to_set().contains(b[i]));
            assert(a.contains(b[i]));
            let k = choose|k: int| 0 <= k < a.len() && a[k] == b[i];
            assert(na[k] == x);
        }
    }
    lemma_sorted_unique(na, nb);
    assert(a.len() == b.len());
    assert forall|i: int| 0 <= i < a.len() implies a[i] == b[i] by {
        assert(a.to_set().contains(a[i]));
        assert(b.contains(a[i]));
        let k = choose|k: int| 0 <= k < b.len() && b[k] == a[i];
        assert(nb[k] == na[i]);
        assert(nb[i] == na[i]);
        if k != i {
            lemma_text_irreflexive(nb[i]);
            if k < i {
                assert(text_lt(nb[k], nb[i]));
            } else {
                assert(text_lt(nb[i], nb[k]));
            }
        }
    }
    assert(a =~= b);
}

/// A name-sorted field sequence is the sorted arrangement of its contents.
pub proof fn lemma_sorted_arrangement(fs: Seq<(Seq<char>, KeyValue)>, pairs: Seq<(Seq<char>, KeyValue)>)
    requires
        fields_sorted(fs),
        fs.to_set() == pairs.to_set(),
    ensures
        sorted_arrangement(pairs) == fs,
{
    let c = sorted_arrangement(pairs);
    assert(fields_sorted(c) && c.to_set() == pairs.to_set());
    lemma_sorted_fields_unique(c, fs);
}

/// Building a map does not depend on the order in which its named values
/// are supplied: the same named values in any order give the same fields,
/// kept in increasing name order.
pub proof fn law_map_is_order_independent(a: Seq<(Seq<char>, KeyValue)>, b: Seq<(Seq<char>, KeyValue)>)
    requires
        a.to_set() == b.to_set(),
    ensures
        sorted_arrangement(a) == sorted_arrangement(b),
{
}

/// Outcome of building named fields from `pairs` in order: each name is
/// validated, then checked against the names before it.
pub open spec fn map_check_from(pairs: Seq<(Seq<char>, KeyValue)>, i: int) -> Result<(), KeyFault>
    decreases pairs.len() - i,
{
    if i < 0 || i >= pairs.len() {
        Ok(())
    } else {
        match field_name_check(pairs[i].0) {
            Err(e) => Err(e),
            Ok(()) => if names_of(pairs.take(i)).contains(pairs[i].0) {
                Err(KeyFault::DuplicateMapField(pairs[i].0))
            } else {
                map_check_from(pairs, i + 1)
            },
        }
    }
}

/// Every name of `pairs` is a valid field name.
pub open spec fn field_names_valid(pairs: Seq<(Seq<char>, KeyValue)>) -> bool {
    forall|i: int| 0 <= i < pairs.len() ==> #[trigger] field_name_check(pairs[i].0) is Ok
}

/// The name at position `j` is valid and does not repeat a name before it.
pub open spec fn map_step_ok(pairs: Seq<(Seq<char>, KeyValue)>, j: int) -> bool {
    &&& field_name_check(pairs[j].0) is Ok
    &&& !names_of(pairs.take(j)).contains(pairs[j].0)
}

/// From position `i` on, the check passes exactly when each name is valid
/// and none repeats a name before it.
proof fn lemma_map_check_suffix(pairs: Seq<(Seq<char>, KeyValue)>, i: int)
    requires
        0 <= i <= pairs.len(),
    ensures
        map_check_from(pairs, i) is Ok <==> forall|j: int| i <= j < pairs.len() ==> #[trigger] map_step_ok(pairs, j),
    decreases pairs.len() - i,
{
    if i < pairs.len() {
        lemma_map_check_suffix(pairs, i + 1);
        if map_check_from(pairs, i) is Ok {
            assert(map_step_ok(pairs, i));
        }
        if forall|j: int| i <= j < pairs.len() ==> #[trigger] map_step_ok(pairs, j) {
            assert(map_step_ok(pairs, i));
        }
    }
}

/// Building named fields succeeds exactly when every name is valid and no
/// name occurs twice.
pub proof fn lemma_map_check_accepts(pairs: Seq<(Seq<char>, KeyValue)>)
    ensures
        map_check_from(pairs, 0) is Ok <==> field_names_valid(pairs) && names_of(pairs).no_duplicates(),
{
    lemma_map_check_suffix(pairs, 0);
    let ns = names_of(pairs);
    assert forall|j: int| 0 <= j <= pairs.len() implies #[trigger] names_of(pairs.take(j)) == ns.take(j) by {
        assert(names_of(pairs.take(j)) =~= ns.take(j));
    }
    if map_check_from(pairs, 0) is Ok {
        assert forall|i: int| 0 <= i < pairs.len() implies #[trigger] field_name_check(pairs[i].0) is Ok by {
            assert(map_step_ok(pairs, i));
        }
        assert forall|a: int, b: int| 0 <= a < ns.len() && 0 <= b < ns.len() && a != b implies ns[a] != ns[b] by {
            let (x, y) = if a < b { (a, b) } else { (b, a) };
            assert(map_step_ok(pairs, y));
            assert(names_of(pairs.take(y)) == ns.take(y));
            assert(ns.take(y)[x] == ns[x]);
        }
    }
    if field_names_valid(pairs) && ns.no_duplicates() {
        assert forall|j: int| 0 <= j < pairs.len() implies #[trigger] map_step_ok(pairs, j) by {
            assert(names_of(pairs.take(j)) == ns.take(j));
            assert(field_name_check(pairs[j].0) is Ok);
            if ns.take(j).contains(pairs[j].0) {
                let k = choose|k: int| 0 <= k < ns.take(j).len() && ns.take(j)[k] == pairs[j].0;
                assert(ns[k] == ns[j]);
            }
        }
    }
}

/// Named fields given as any reordering of the same pairs with valid,
/// pairwise different names are always accepted, and give the same fields
/// whatever the order.
pub proof fn law_map_accepts_any_reordering(a: Seq<(Seq<char>, KeyValue)>, b: Seq<(Seq<char>, KeyValue)>)
    requires
        field_names_valid(a),
        names_of(a).no_duplicates(),
        a.to_multiset() == b.to_multiset(),
    ensures
        map_check_from(a, 0) is Ok,
        map_check_from(b, 0) is Ok,
        sorted_arrangement(a) == sorted_arrangement(b),
{
    broadcast use vstd::seq_lib::group_to_multiset_ensures;
    lemma_map_check_accepts(a);
    lemma_map_check_accepts(b);
    let na = names_of(a);
    let nb = names_of(b);
    assert forall|x: (Seq<char>, KeyValue)| a.contains(x) <==> b.contains(x) by {
        assert(a.contains(x) <==> a.to_multiset().count(x) > 0);
        assert(b.contains(x) <==> b.to_multiset().count(x) > 0);
    }
    assert(a.to_set() =~= b.to_set());
    assert(a.no_duplicates()) by {
        assert forall|i: int, j: int| 0 <= i < a.len() && 0 <= j < a.len() && i != j implies a[i] != a[j] by {
            assert(na[i] != na[j]);
        }
    }
    a.lemma_multiset_has_no_duplicates();
    b.lemma_multiset_has_no_duplicates_conv();
    assert forall|i: int| 0 <= i < b.len() implies #[trigger] field_name_check(b[i].0) is Ok by {
        assert(b.contains(b[i]));
        let k = choose|k: int| 0 <= k < a.len() && a[k] == b[i];
        assert(field_name_check(a[k].0) is Ok);
    }
    assert forall|i: int, j: int| 0 <= i < nb.len() && 0 <= j < nb.len() && i != j implies nb[i] != nb[j] by {
        assert(b.contains(b[i]));
        assert(b.contains(b[j]));
        let k = choose|k: int| 0 <= k < a.len() && a[k] == b[i];
        let l = choose|l: int| 0 <= l < a.len() && a[l] == b[j];
        assert(b[i] != b[j]);
        assert(k != l);
        assert(na[k] != na[l]);
    }
}

/// When every step before position `i` passes, the check from the start
/// is the check from `i`.
proof fn lemma_map_check_prefix(pairs: Seq<(Seq<char>, KeyValue)>, i: int)
    requires
        0 <= i <= pairs.len(),
        forall|j: int| 0 <= j < i ==> #[trigger] map_step_ok(pairs, j),
    ensures
        map_check_from(pairs, 0) == map_check_from(pairs, i),
    decreases i,
{
    if i > 0 {
        lemma_map_check_prefix(pairs, i - 1);
        assert(map_step_ok(pairs, i - 1));
    }
}

/// A repeated name is reported at its first repetition: when the names
/// before position `i` are valid and pairwise different and the name at `i`
/// repeats one of them, building the fields fails with that name as the
/// duplicate.
pub proof fn law_map_rejects_first_repeated_name(pairs: Seq<(Seq<char>, KeyValue)>, i: int)
    requires
        0 <= i < pairs.len(),
        field_names_valid(pairs.take(i)),
        names_of(pairs.take(i)).no_duplicates(),
        names_of(pairs.take(i)).contains(pairs[i].0),
    ensures
        map_check_from(pairs, 0) == Err::<(), KeyFault>(KeyFault::DuplicateMapField(pairs[i].0)),
{
    let prefix = names_of(pairs.take(i));
    assert forall|j: int| 0 <= j < i implies #[trigger] map_step_ok(pairs, j) by {
        assert(pairs.take(i)[j] == pairs[j]);
        assert(field_name_check(pairs.take(i)[j].0) is Ok);
        assert(names_of(pairs.take(j)) =~= prefix.take(j));
        if prefix.take(j).contains(pairs[j].0) {
            let k = choose|k: int| 0 <= k < prefix.take(j).len() && prefix.take(j)[k] == pairs[j].0;
            assert(prefix[k] == prefix[j]);
        }
    }
    lemma_map_check_prefix(pairs, i);
    let k = choose|k: int| 0 <= k < prefix.len() && prefix[k] == pairs[i].0;
    assert(pairs.take(i)[k] == pairs[k]);
    assert(field_name_check(pairs.take(i)[k].0) is Ok);
}

/// The check from position `i` looks at the names alone.
proof fn lemma_map_check_names_only(a: Seq<(Seq<char>, KeyValue)>, b: Seq<(Seq<char>, KeyValue)>, i: int)
    requires
        names_of(a) == names_of(b),
        0 <= i,
    ensures
        map_check_from(a, i) == map_check_from(b, i),
    decreases a.len() - i,
{
    assert(a.len() == names_of(a).len());
    assert(b.len() == names_of(b).len());
    if i < a.len() {
        assert(a[i].0 == names_of(a)[i]);
        assert(b[i].0 == names_of(b)[i]);
        assert(names_of(a.take(i)) =~= names_of(a).take(i));
        assert(names_of(b.take(i)) =~= names_of(b).take(i));
        lemma_map_check_names_only(a, b, i + 1);
    }
}

/// Building named fields validates the names, never the values: two
/// supplies with the same names in the same order pass or fail alike.
pub proof fn law_map_check_ignores_values(a: Seq<(Seq<char>, KeyValue)>, b: Seq<(Seq<char>, KeyValue)>)
    requires
        names_of(a) == names_of(b),
    ensures
        map_check_from(a, 0) == map_check_from(b, 0),
{
    lemma_map_check_names_only(a, b, 0);
}

/// Named values supplied as (name, value) pairs.
pub open spec fn pairs_model(v: Seq<(&str, KeyMaterial)>) -> Seq<(Seq<char>, KeyValue)> {
    Seq::new(v.len(), |i: int| (v[i].0@, v[i].1@))
}

/// Lower bound of `name` among the names of a sorted field vector.
fn locate(fields: &Vec<(String, KeyMaterial)>, name: &str) -> (r: (usize, bool))
    requires
        fields_sorted(field_values_of(fields@)),
    ensures
        is_lower_bound(names_of(field_values_of(fields@)), name@, r.0 as int, r.1),
{
    let ghost ns = names_of(field_values_of(fields@));
    proof {
        lemma_field_values_of(fields@);
    }
    let mut i: usize = 0;
    while i < fields.len()
        invariant
            ns == names_of(field_values_of(fields@)),
            ns.len() == fields@.len(),
            forall|j: int| 0 <= j < fields@.len() ==> #[trigger] ns[j] == fields@[j].0@,
            0 <= i <= fields@.len(),
            forall|j: int| 0 <= j < i ==> text_lt(#[trigger] ns[j], name@),
        decreases fields@.len() - i,
    {
        match compare_text(fields[i].0.as_str(), name) {
            TextOrder::Less => {},
            TextOrder::Equal => {
                return (i, true);
            },
            TextOrder::Greater => {
                return (i, false);
            },
        }
        i = i + 1;
    }
    (i, false)
}

/// Inserting a named value at its lower bound keeps the names sorted.
proof fn lemma_sorted_field_insert(fv: Seq<(Seq<char>, KeyValue)>, pos: int, n: Seq<char>, v: KeyValue)
    requires
        fields_sorted(fv),
        is_lower_bound(names_of(fv), n, pos, false),
    ensures
        fields_sorted(fv.insert(pos, (n, v))),
{
    let ns = names_of(fv);
    lemma_sorted_insert(ns, pos, n);
    assert(names_of(fv.insert(pos, (n, v))) =~= ns.insert(pos, n));
}

impl KeyFields {
    /// Creates an empty field collection.
    pub fn new() -> (r: Self)
        ensures
            r@ == Seq::<(Seq<char>, KeyValue)>::empty(),
    {
        let r = KeyFields { fields: Vec::new() };
        assert(r@ =~= Seq::<(Seq<char>, KeyValue)>::empty());
        r
    }

    /// Number of named fields.
    pub fn len(&self) -> (n: usize)
        ensures
            n == self@.len(),
    {
        proof {
            lemma_field_values_of(self.fields@);
        }
        self.fields.len()
    }

    /// Whether there are no named fields.
    pub fn is_empty(&self) -> (r: bool)
        ensures
            r == (self@.len() == 0),
    {
        proof {
            lemma_field_values_of(self.fields@);
        }
        self.fields.len() == 0
    }

    /// Sets the value of `name`, replacing any earlier value of that name.
    /// Returns whether a value was replaced.
    pub fn insert(&mut self, name: &str, value: KeyMaterial) -> (replaced: bool)
        ensures
            replaced == names_of(old(self)@).contains(name@),
            fields_sorted(final(self)@),
            forall|f: (Seq<char>, KeyValue)| #[trigger] final(self)@.contains(f) <==> (f == (name@, value@) || (
            old(self)@.contains(f) && f.0 != name@)),
    {
        proof {
            use_type_invariant(&*self);
        }
        let ghost old_view = self@;
        let ghost ns = names_of(old_view);
        let ghost pair = (name@, value@);
        let owned = name.to_owned();
        let (pos, found) = locate(&self.fields, name);
        proof {
            lemma_lower_bound(ns, name@, pos as int, found);
            lemma_field_values_of(self.fields@);
        }
        let mut items: Vec<(String, KeyMaterial)> = Vec::new();
        std::mem::swap(&mut items, &mut self.fields);
        assert(field_values_of(items@) == old_view);
        if found {
            items.remove(pos);
            proof {
                lemma_field_values_of(items@);
                assert(field_values_of(items@) =~= old_view.remove(pos as int));
            }
        }
        let ghost now = field_values_of(items@);
        proof {
            let ns2 = names_of(now);
            if found {
                crate::order::lemma_sorted_remove(ns, pos as int);
                assert(ns2 =~= ns.remove(pos as int));
                if pos < ns.len() - 1 {
                    assert(ns2[pos as int] == ns[pos + 1]);
                    assert(text_lt(ns[pos as int], ns[pos + 1]));
                }
            } else {
                assert(ns2 =~= ns);
            }
            assert(is_lower_bound(ns2, name@, pos as int, false));
            lemma_sorted_field_insert(now, pos as int, name@, value@);
        }
        items.insert(pos, (owned, value));
        proof {
            lemma_field_values_of(items@);
            assert(field_values_of(items@) =~= now.insert(pos as int, pair));
        }
        self.fields = items;
        proof {
            let fin = now.insert(pos as int, pair);
            assert forall|f: (Seq<char>, KeyValue)| #[trigger] fin.contains(f) <==> (f == pair || (
            old_view.contains(f) && f.0 != name@)) by {
                if fin.contains(f) && f != pair {
                    let k = choose|k: int| 0 <= k < fin.len() && fin[k] == f;
                    let k2 = if k < pos { k } else { k - 1 };
                    assert(now[k2] == f);
                    let k3 = if found && k2 >= pos { k2 + 1 } else { k2 };
                    assert(old_view[k3] == f);
                    assert(ns[k3] == f.0);
                    if f.0 == name@ {
                        assert(k3 == pos);
                        assert(found);
                    }
                }
                if old_view.contains(f) && f.0 != name@ {
                    let k = choose|k: int| 0 <= k < old_view.len() && old_view[k] == f;
                    assert(ns[k] == f.0);
                    if found && k == pos {
                        assert(ns[pos as int] == name@);
                    }
                    let k2 = if found && k > pos { k - 1 } else { k };
                    assert(now[k2] == f);
                    let k3 = if k2 < pos { k2 } else { k2 + 1 };
                    assert(fin[k3] == f);
                }
                if f == pair {
                    assert(fin[pos as int] == pair);
                }
            }
        }
        found
    }
}

/// The named values of `pairs` that no later pair of the same name
/// overrides.
pub open spec fn last_wins(pairs: Seq<(Seq<char>, KeyValue)>, f: (Seq<char>, KeyValue)) -> bool {
    exists|i: int| 0 <= i < pairs.len() && pairs[i] == f && forall|j: int| i < j < pairs.len() ==> (#[trigger] pairs[j]).0 != f.0
}

impl KeyFields {
    /// Collects named values; a later value replaces an earlier value of the
    /// same name. Names are not validated here.
    pub fn from_pairs(pairs: Vec<(&str, KeyMaterial)>) -> (r: Self)
        ensures
            fields_sorted(r@),
            forall|f: (Seq<char>, KeyValue)| #[trigger] r@.contains(f) <==> last_wins(pairs_model(pairs@), f),
    {
        let ghost pm = pairs_model(pairs@);
        let mut out = KeyFields::new();
        let mut i: usize = 0;
        while i < pairs.len()
            invariant
                0 <= i <= pairs@.len(),
                pm == pairs_model(pairs@),
                fields_sorted(out@),
                forall|f: (Seq<char>, KeyValue)| #[trigger] out@.contains(f) <==> last_wins(pm.take(i as int), f),
            decreases pairs@.len() - i,
        {
            let value = copy_material(&pairs[i].1);
            let ghost prev = out@;
            let ghost p = pm[i as int];
            assert(p == (pairs@[i as int].0@, pairs@[i as int].1@));
            out.insert(pairs[i].0, value);
            assert forall|f: (Seq<char>, KeyValue)| #[trigger] out@.contains(f) <==> last_wins(pm.take(i + 1), f) by {
                let t = pm.take(i as int);
                let t1 = pm.take(i + 1);
                assert(t1 =~= t.push(p));
                if f == p {
                    assert(t1[i as int] == f);
                } else if f.0 == p.0 {
                    if last_wins(t1, f) {
                        let k = choose|k: int| 0 <= k < t1.len() && t1[k] == f && forall|j: int| k < j < t1.len() ==> (#[trigger] t1[j]).0 != f.0;
                        assert(k != i);
                        assert(t1[i as int].0 == f.0);
                    }
                } else {
                    if last_wins(t, f) {
                        let k = choose|k: int| 0 <= k < t.len() && t[k] == f && forall|j: int| k < j < t.len() ==> (#[trigger] t[j]).0 != f.0;
                        assert(t1[k] == f);
                        assert forall|j: int| k < j < t1.len() implies (#[trigger] t1[j]).0 != f.0 by {
                            if j < i {
                                assert(t1[j] == t[j]);
                            }
                        }
                    }
                    if last_wins(t1, f) {
                        let k = choose|k: int| 0 <= k < t1.len() && t1[k] == f && forall|j: int| k < j < t1.len() ==> (#[trigger] t1[j]).0 != f.0;
                        assert(k < i);
                        assert(t[k] == f);
                        assert forall|j: int| k < j < t.len() implies (#[trigger] t[j]).0 != f.0 by {
                            assert(t1[j] == t[j]);
                        }
                    }
                }
            }
            i = i + 1;
        }
        assert(pm.take(i as int) =~= pm);
        out
    }
}

impl KeyMaterial {
    /// Constructs named-field key material. Names are validated in order;
    /// the first invalid or repeated name fails the construction. The
    /// resulting fields are kept in increasing name order, so the order in
    /// which the pairs are supplied does not matter.
    pub fn map(fields: Vec<(&str, KeyMaterial)>) -> (r: Result<Self, KeyMaterialValidationError>)
        ensures
            r is Ok <==> map_check_from(pairs_model(fields@), 0) is Ok,
            r matches Err(e) ==> map_check_from(pairs_model(fields@), 0) == Err::<(), KeyFault>(e@),
            r matches Ok(m) ==> m@ == KeyValue::Fields(sorted_arrangement(pairs_model(fields@))),
    {
        let ghost pm = pairs_model(fields@);
        let mut out = KeyFields::new();
        let mut i: usize = 0;
        while i < fields.len()
            invariant
                0 <= i <= fields@.len(),
                pm == pairs_model(fields@),
                fields_sorted(out@),
                forall|f: (Seq<char>, KeyValue)| #[trigger] out@.contains(f) <==> pm.take(i as int).contains(f),
                map_check_from(pm, 0) == map_check_from(pm, i as int),
            decreases fields@.len() - i,
        {
            let name = fields[i].0;
            let ghost p = pm[i as int];
            assert(p == (name@, fields@[i as int].1@));
            let ghost t = pm.take(i as int);
            match validate_material_field_name(name) {
                Err(e) => {
                    return Err(e);
                },
                Ok(()) => {},
            }
            let value = copy_material(&fields[i].1);
            let ghost prev = out@;
            proof {
                assert forall|x: Seq<char>| names_of(t).contains(x) <==> names_of(prev).contains(x) by {
                    if names_of(t).contains(x) {
                        let k = choose|k: int| 0 <= k < names_of(t).len() && names_of(t)[k] == x;
                        assert(t.contains(t[k]));
                        assert(prev.contains(t[k]));
                        let m = choose|m: int| 0 <= m < prev.len() && prev[m] == t[k];
                        assert(names_of(prev)[m] == x);
                    }
                    if names_of(prev).contains(x) {
                        let k = choose|k: int| 0 <= k < names_of(prev).len() && names_of(prev)[k] == x;
                        assert(prev.contains(prev[k]));
                        assert(t.contains(prev[k]));
                        let m = choose|m: int| 0 <= m < t.len() && t[m] == prev[k];
                        assert(names_of(t)[m] == x);
                    }
                }
            }
            let replaced = out.insert(name, value);
            if replaced {
                return Err(KeyMaterialValidationError::DuplicateMapField(name.to_owned()));
            }
            assert(pm.take(i + 1) =~= t.push(p));
            assert(!names_of(prev).contains(name@));
            assert(p == (name@, value@));
            assert forall|f: (Seq<char>, KeyValue)| #[trigger] out@.contains(f) implies t.push(p).contains(f) by {
                if f == p {
                    assert(t.push(p)[i as int] == f);
                } else {
                    assert(prev.contains(f));
                    assert(t.contains(f));
                    let m = choose|m: int| 0 <= m < t.len() && t[m] == f;
                    assert(t.push(p)[m] == f);
                }
            }
            assert forall|f: (Seq<char>, KeyValue)| #[trigger] t.push(p).contains(f) implies out@.contains(f) by {
                let m = choose|m: int| 0 <= m < t.push(p).len() && t.push(p)[m] == f;
                if m < i {
                    assert(t[m] == f);
                    assert(t.contains(f));
                    assert(prev.contains(f));
                    let k = choose|k: int| 0 <= k < prev.len() && prev[k] == f;
                    assert(names_of(prev)[k] == f.0);
                    assert(f.0 != name@);
                } else {
                    assert(f == p);
                }
            }
            i = i + 1;
        }
        assert(pm.take(i as int) =~= pm);
        proof {
            assert(out@.to_set() =~= pm.to_set());
            lemma_sorted_arrangement(out@, pm);
        }
        Ok(KeyMaterial::Fields(out))
    }
}

/// Validation failures for [`KeyDefinition`].
#[derive(Debug, Eq)]
pub enum KeyDefinitionValidationError {
    /// The definition contains no fields.
    Empty,
    /// A field name is empty.
    EmptyField,
    /// A field name contains a control character at this byte position.
    ControlCharacter { field: String, index: usize },
    /// The same field occurs more than once.
    DuplicateField(String),
}

/// Value of a [`KeyDefinitionValidationError`].
pub enum DefinitionFault {
    Empty,
    EmptyField,
    ControlCharacter { field: Seq<char>, index: usize },
    DuplicateField(Seq<char>),
}

impl View for KeyDefinitionValidationError {
    type V = DefinitionFault;

    open spec fn view(&self) -> DefinitionFault {
        match self {
            KeyDefinitionValidationError::Empty => DefinitionFault::Empty,
            KeyDefinitionValidationError::EmptyField => DefinitionFault::EmptyField,
            KeyDefinitionValidationError::ControlCharacter { field, index } => DefinitionFault::ControlCharacter {
                field: field@,
                index: *index,
            },
            KeyDefinitionValidationError::DuplicateField(f) => DefinitionFault::DuplicateField(f@),
        }
    }
}

impl Clone for KeyDefinitionValidationError {
    fn clone(&self) -> (r: Self)
        ensures
            r@ == self@,
    {
        match self {
            KeyDefinitionValidationError::Empty => KeyDefinitionValidationError::Empty,
            KeyDefinitionValidationError::EmptyField => KeyDefinitionValidationError::EmptyField,
            KeyDefinitionValidationError::ControlCharacter { field, index } => KeyDefinitionValidationError::ControlCharacter {
                field: field.clone(),
                index: *index,
            },
            KeyDefinitionValidationError::DuplicateField(f) => KeyDefinitionValidationError::DuplicateField(f.clone()),
        }
    }
}

impl PartialEq for KeyDefinitionValidationError {
    fn eq(&self, other: &Self) -> (r: bool) {
        match (self, other) {
            (KeyDefinitionValidationError::Empty, KeyDefinitionValidationError::Empty) => true,
            (KeyDefinitionValidationError::EmptyField, KeyDefinitionValidationError::EmptyField) => true,
            (
                KeyDefinitionValidationError::ControlCharacter { field: f, index: i },
                KeyDefinitionValidationError::ControlCharacter { field: g, index: j },
            ) => *f == *g && *i == *j,
            (KeyDefinitionValidationError::DuplicateField(f), KeyDefinitionValidationError::DuplicateField(g)) => *f == *g,
            _ => false,
        }
    }
}

impl PartialEqSpecImpl for KeyDefinitionValidationError {
    open spec fn obeys_eq_spec() -> bool {
        true
    }

    open spec fn eq_spec(&self, other: &Self) -> bool {
        self@ == other@
    }
}

/// Outcome of validating one key-definition field name.
pub open spec fn key_field_check(s: Seq<char>) -> Result<(), DefinitionFault> {
    if s.len() == 0 {
        Err(DefinitionFault::EmptyField)
    } else {
        match control_byte_index(s) {
            Some(i) => Err(DefinitionFault::ControlCharacter { field: s, index: i as usize }),
            None => Ok(()),
        }
    }
}

/// Outcome of checking field names from position `i` on: each name is
/// validated, then checked against the names before it.
pub open spec fn key_fields_check_from(names: Seq<Seq<char>>, i: int) -> Result<(), DefinitionFault>
    decreases names.len() - i,
{
    if i < 0 || i >= names.len() {
        Ok(())
    } else {
        match key_field_check(names[i]) {
            Err(e) => Err(e),
            Ok(()) => if names.take(i).contains(names[i]) {
                Err(DefinitionFault::DuplicateField(names[i]))
            } else {
                key_fields_check_from(names, i + 1)
            },
        }
    }
}

/// Outcome of constructing a key definition from field names.
pub open spec fn key_definition_build_check(names: Seq<Seq<char>>) -> Result<(), DefinitionFault> {
    match key_fields_check_from(names, 0) {
        Err(e) => Err(e),
        Ok(()) => if names.len() == 0 {
            Err(DefinitionFault::Empty)
        } else {
            Ok(())
        },
    }
}

/// Outcome of validating a complete key definition.
pub open spec fn key_definition_check(names: Seq<Seq<char>>) -> Result<(), DefinitionFault> {
    if names.len() == 0 {
        Err(DefinitionFault::Empty)
    } else {
        key_fields_check_from(names, 0)
    }
}

/// The tag that opens the canonical encoding of a key definition.
pub open spec fn key_definition_tag() -> Seq<u8> {
    seq![
        0x4eu8, 0x49, 0x5a, 0x41, 0x41, 0x4d, 0x2d, 0x49, 0x4e, 0x44, 0x45, 0x58, 0x2d, 0x4b,
        0x45, 0x59, 0x2d, 0x44, 0x45, 0x46, 0x49, 0x4e, 0x49, 0x54, 0x49, 0x4f, 0x4e, 0x00,
    ]
}

/// Concatenated length-prefixed encodings of field names.
pub open spec fn encode_names(names: Seq<Seq<char>>) -> Seq<u8>
    decreases names.len(),
{
    if names.len() == 0 {
        Seq::empty()
    } else {
        encode_names(names.drop_last()) + encoded_text(names.last())
    }
}

/// Canonical encoding of a key definition: tag, field count, field names.
pub open spec fn encode_key_definition(names: Seq<Seq<char>>) -> Seq<u8> {
    key_definition_tag() + be_bytes_u64(names.len() as u64) + encode_names(names)
}

fn validate_field_name(value: &str) -> (r: Result<(), KeyDefinitionValidationError>)
    ensures
        r is Ok <==> key_field_check(value@) is Ok,
        r matches Err(e) ==> key_field_check(value@) == Err::<(), DefinitionFault>(e@),
{
    if value.is_empty() {
        return Err(KeyDefinitionValidationError::EmptyField);
    }
    match find_control_byte(value) {
        Some(index) => Err(KeyDefinitionValidationError::ControlCharacter { field: value.to_owned(), index }),
        None => Ok(()),
    }
}

/// One source-defined logical field of a [`KeyDefinition`].
#[derive(Debug, Eq, PartialOrd, Ord, Hash)]
pub struct KeyField(String);

impl View for KeyField {
    type V = Seq<char>;

    closed spec fn view(&self) -> Seq<char> {
        self.0@
    }
}

impl Clone for KeyField {
    fn clone(&self) -> (r: Self)
        ensures
            r@ == self@,
    {
        KeyField(self.0.clone())
    }
}

impl PartialEq for KeyField {
    fn eq(&self, other: &Self) -> (r: bool) {
        self.0 == other.0
    }
}

impl PartialEqSpecImpl for KeyField {
    open spec fn obeys_eq_spec() -> bool {
        true
    }

    open spec fn eq_spec(&self, other: &Self) -> bool {
        self@ == other@
    }
}

impl KeyField {
    /// Creates a validated key field: non-empty, no control characters.
    pub fn new(name: &str) -> (r: Result<Self, KeyDefinitionValidationError>)
        ensures
            r is Ok <==> key_field_check(name@) is Ok,
            r matches Ok(f) ==> f@ == name@,
            r matches Err(e) ==> key_field_check(name@) == Err::<(), DefinitionFault>(e@),
    {
        match validate_field_name(name) {
            Ok(()) => Ok(KeyField(name.to_owned())),
            Err(e) => Err(e),
        }
    }

    /// Returns the field name.
    pub fn name(&self) -> (s: &str)
        ensures
            s@ == self@,
    {
        self.0.as_str()
    }
}

/// The names of a sequence of key fields.
pub open spec fn field_names(fields: Seq<KeyField>) -> Seq<Seq<char>> {
    fields.map_values(|f: KeyField| f@)
}

/// A logical definition of the fields that make up an index key: a
/// non-empty sequence of valid, distinct field names in declared order.
#[derive(Debug, Eq, PartialOrd, Ord, Hash)]
pub struct KeyDefinition {
    fields: Vec<KeyField>,
}

impl View for KeyDefinition {
    type V = Seq<Seq<char>>;

    closed spec fn view(&self) -> Seq<Seq<char>> {
        field_names(self.fields@)
    }
}

impl Clone for KeyDefinition {
    fn clone(&self) -> (r: Self)
        ensures
            r@ == self@,
    {
        proof {
            use_type_invariant(self);
        }
        let mut out: Vec<KeyField> = Vec::new();
        let mut i: usize = 0;
        while i < self.fields.len()
            invariant
                0 <= i <= self.fields@.len(),
                out@.len() == i,
                forall|j: int| 0 <= j < i ==> (#[trigger] out@[j])@ == self.fields@[j]@,
            decreases self.fields@.len() - i,
        {
            out.push(self.fields[i].clone());
            i = i + 1;
        }
        assert(field_names(out@) =~= field_names(self.fields@));
        KeyDefinition { fields: out }
    }
}

impl PartialEq for KeyDefinition {
    fn eq(&self, other: &Self) -> (r: bool) {
        if self.fields.len() != other.fields.len() {
            return false;
        }
        let mut i: usize = 0;
        while i < self.fields.len()
            invariant
                self.fields@.len() == other.fields@.len(),
                0 <= i <= self.fields@.len(),
                forall|j: int| 0 <= j < i ==> self.fields@[j]@ == other.fields@[j]@,
            decreases self.fields@.len() - i,
        {
            if self.fields[i].0 != other.fields[i].0 {
                assert(field_names(self.fields@)[i as int] != field_names(other.fields@)[i as int]);
                return false;
            }
            i = i + 1;
        }
        assert(field_names(self.fields@) =~= field_names(other.fields@));
        true
    }
}

impl PartialEqSpecImpl for KeyDefinition {
    open spec fn obeys_eq_spec() -> bool {
        true
    }

    open spec fn eq_spec(&self, other: &Self) -> bool {
        self@ == other@
    }
}

impl KeyDefinition {
    #[verifier::type_invariant]
    spec fn well_formed(self) -> bool {
        key_definition_check(self@) is Ok
    }

    /// Creates a key definition from field names in declared order. Names
    /// must be non-empty, free of control characters and distinct, and
    /// there must be at least one.
    #[verifier::loop_isolation(false)]
    pub fn new(names: &[&str]) -> (r: Result<Self, KeyDefinitionValidationError>)
        ensures
            r is Ok <==> key_definition_build_check(names@.map_values(|n: &str| n@)) is Ok,
            r matches Ok(d) ==> d@ == names@.map_values(|n: &str| n@),
            r matches Err(e) ==> key_definition_build_check(names@.map_values(|n: &str| n@)) == Err::<(), DefinitionFault>(e@),
    {
        let ghost ns = names@.map_values(|n: &str| n@);
        let mut fields: Vec<KeyField> = Vec::new();
        let mut i: usize = 0;
        while i < names.len()
            invariant
                0 <= i <= names@.len(),
                ns == names@.map_values(|n: &str| n@),
                field_names(fields@) == ns.take(i as int),
                key_fields_check_from(ns, 0) == key_fields_check_from(ns, i as int),
            decreases names@.len() - i,
        {
            let name = names[i];
            assert(ns[i as int] == name@);
            match validate_field_name(name) {
                Err(e) => {
                    return Err(e);
                },
                Ok(()) => {},
            }
            let mut j: usize = 0;
            while j < fields.len()
                invariant
                    0 <= j <= fields@.len(),
                    field_names(fields@) == ns.take(i as int),
                    forall|k: int| 0 <= k < j ==> ns.take(i as int)[k] != name@,
                decreases fields@.len() - j,
            {
                assert(field_names(fields@)[j as int] == fields@[j as int]@);
                if compare_text(fields[j].0.as_str(), name) == TextOrder::Equal {
                    assert(ns.take(i as int)[j as int] == name@);
                    return Err(KeyDefinitionValidationError::DuplicateField(name.to_owned()));
                }
                j = j + 1;
            }
            assert(!ns.take(i as int).contains(name@));
            let field = KeyField(name.to_owned());
            assert(field@ == name@);
            let ghost before = fields@;
            fields.push(field);
            assert(field_names(fields@) =~= field_names(before).push(name@));
            assert(ns.take(i + 1) =~= ns.take(i as int).push(name@));
            i = i + 1;
        }
        assert(ns.take(i as int) =~= ns);
        if fields.len() == 0 {
            return Err(KeyDefinitionValidationError::Empty);
        }
        Ok(KeyDefinition { fields })
    }

    /// Returns the fields in their declared order.
    pub fn fields(&self) -> (r: &[KeyField])
        ensures
            field_names(r@) == self@,
    {
        self.fields.as_slice()
    }

    /// Returns the number of key fields.
    pub fn len(&self) -> (n: usize)
        ensures
            n == self@.len(),
    {
        self.fields.len()
    }

    /// Returns whether the definition contains no fields; never the case for
    /// a constructed definition.
    pub fn is_empty(&self) -> (r: bool)
        ensures
            r == (self@.len() == 0),
            !r,
    {
        proof {
            use_type_invariant(self);
        }
        self.fields.len() == 0
    }

    /// Validates the complete key definition: at least one field, valid
    /// field names, distinct field names. A constructed definition always
    /// passes.
    #[verifier::loop_isolation(false)]
    pub fn validate(&self) -> (r: Result<(), KeyDefinitionValidationError>)
        ensures
            r is Ok <==> key_definition_check(self@) is Ok,
            r matches Err(e) ==> key_definition_check(self@) == Err::<(), DefinitionFault>(e@),
            r is Ok,
    {
        proof {
            use_type_invariant(self);
        }
        let ghost ns = self@;
        if self.fields.len() == 0 {
            return Err(KeyDefinitionValidationError::Empty);
        }
        let mut i: usize = 0;
        while i < self.fields.len()
            invariant
                0 <= i <= self.fields@.len(),
                ns == field_names(self.fields@),
                key_fields_check_from(ns, 0) is Ok,
                key_fields_check_from(ns, 0) == key_fields_check_from(ns, i as int),
            decreases self.fields@.len() - i,
        {
            let name = self.fields[i].0.as_str();
            assert(ns[i as int] == name@);
            match validate_field_name(name) {
                Err(e) => {
                    return Err(e);
                },
                Ok(()) => {},
            }
            let mut j: usize = 0;
            while j < i
                invariant
                    0 <= j <= i < self.fields@.len(),
                    ns == field_names(self.fields@),
                    name@ == ns[i as int],
                    forall|k: int| 0 <= k < j ==> ns.take(i as int)[k] != name@,
                decreases i - j,
            {
                assert(ns[j as int] == self.fields@[j as int]@);
                if compare_text(self.fields[j].0.as_str(), name) == TextOrder::Equal {
                    assert(ns.take(i as int)[j as int] == name@);
                    return Err(KeyDefinitionValidationError::DuplicateField(name.to_owned()));
                }
                j = j + 1;
            }
            assert(!ns.take(i as int).contains(name@));
            i = i + 1;
        }
        Ok(())
    }

    /// Returns the deterministic canonical bytes of the key definition.
    pub fn canonical_bytes(&self) -> (r: Vec<u8>)
        ensures
            r@ == encode_key_definition(self@),
    {
        let mut bytes: Vec<u8> = Vec::new();
        let tag: [u8; 28] = [
            0x4e, 0x49, 0x5a, 0x41, 0x41, 0x4d, 0x2d, 0x49, 0x4e, 0x44, 0x45, 0x58, 0x2d, 0x4b,
            0x45, 0x59, 0x2d, 0x44, 0x45, 0x46, 0x49, 0x4e, 0x49, 0x54, 0x49, 0x4f, 0x4e, 0x00,
        ];
        assert(tag@ =~= key_definition_tag());
        push_slice(tag.as_slice(), &mut bytes);
        push_u64(self.fields.len() as u64, &mut bytes);
        let ghost ns = self@;
        let ghost head = bytes@;
        assert(encode_names(ns.take(0)) =~= Seq::<u8>::empty());
        assert(bytes@ =~= head + encode_names(ns.take(0)));
        let mut i: usize = 0;
        while i < self.fields.len()
            invariant
                0 <= i <= self.fields@.len(),
                ns == field_names(self.fields@),
                bytes@ == head + encode_names(ns.take(i as int)),
            decreases self.fields@.len() - i,
        {
            assert(ns.take(i + 1).drop_last() =~= ns.take(i as int));
            push_text(self.fields[i].0.as_str(), &mut bytes);
            i = i + 1;
        }
        assert(ns.take(i as int) =~= ns);
        assert(bytes@ =~= encode_key_definition(ns));
        bytes
    }
}

/// Value of optional key material.
pub open spec fn option_value(o: Option<KeyMaterial>) -> Option<KeyValue> {
    match o {
        Some(m) => Some(m@),
        None => None,
    }
}

/// Outcome of validating optional key material.
pub open spec fn option_check(o: Option<KeyValue>) -> Result<(), KeyFault> {
    match o {
        Some(v) => key_check(v),
        None => Ok(()),
    }
}

/// Copy of optional key material.
pub fn copy_option(o: &Option<KeyMaterial>) -> (r: Option<KeyMaterial>)
    ensures
        option_value(r) == option_value(*o),
{
    match o {
        Some(m) => Some(copy_material(m)),
        None => None,
    }
}

/// Validates optional key material.
pub fn validate_option(o: &Option<KeyMaterial>) -> (r: Result<(), KeyMaterialValidationError>)
    ensures
        r is Ok <==> option_check(option_value(*o)) is Ok,
        r matches Err(e) ==> option_check(option_value(*o)) == Err::<(), KeyFault>(e@),
{
    match o {
        Some(m) => m.validate(),
        None => Ok(()),
    }
}

/// Equality of optional key material.
pub fn option_eq(a: &Option<KeyMaterial>, b: &Option<KeyMaterial>) -> (r: bool)
    ensures
        r == (option_value(*a) == option_value(*b)),
{
    match (a, b) {
        (Some(x), Some(y)) => material_eq(x, y),
        (None, None) => true,
        _ => false,
    }
}

/// Message of a key-definition validation failure.
pub open spec fn key_definition_error_message(e: DefinitionFault) -> Seq<char> {
    match e {
        DefinitionFault::Empty => "key definition must contain at least one field"@,
        DefinitionFault::EmptyField => "key-definition field name must not be empty"@,
        DefinitionFault::ControlCharacter { field, index } => "key-definition field "@ + debug_quoted(field) + " contains a control character at byte index "@ + decimal_text(index as nat),
        DefinitionFault::DuplicateField(field) => "key-definition contains duplicate field "@ + debug_quoted(field),
    }
}

impl KeyDefinitionValidationError {
    /// Returns the failure message.
    pub fn to_string(&self) -> (s: String)
        ensures
            s@ == key_definition_error_message(self@),
    {
        let mut s = String::new();
        match self {
            KeyDefinitionValidationError::Empty => {
                crate::message::push_text(&mut s, "key definition must contain at least one field");
            },
            KeyDefinitionValidationError::EmptyField => {
                crate::message::push_text(&mut s, "key-definition field name must not be empty");
            },
            KeyDefinitionValidationError::ControlCharacter { field, index } => {
                crate::message::push_text(&mut s, "key-definition field ");
                push_quoted(&mut s, field.as_str());
                crate::message::push_text(&mut s, " contains a control character at byte index ");
                push_decimal(&mut s, *index as u128);
            },
            KeyDefinitionValidationError::DuplicateField(field) => {
                crate::message::push_text(&mut s, "key-definition contains duplicate field ");
                push_quoted(&mut s, field.as_str());
            },
        }
        assert(s@ =~= key_definition_error_message(self@));
        s
    }
}

/// Message of a key-material validation failure.
pub open spec fn key_error_message(e: KeyFault) -> Seq<char> {
    match e {
        KeyFault::EmptyMapField => "key-material map field name must not be empty"@,
        KeyFault::ControlCharacter { field, index } => "key-material map field "@ + debug_quoted(field) + " contains a control character at byte index "@ + decimal_text(index as nat),
        KeyFault::DuplicateMapField(field) => "key-material map contains duplicate field "@ + debug_quoted(field),
        KeyFault::TextControlCharacter { index } => "key-material text contains a control character at byte index "@ + decimal_text(index as nat),
    }
}

impl KeyMaterialValidationError {
    /// Returns the failure message.
    pub fn to_string(&self) -> (s: String)
        ensures
            s@ == key_error_message(self@),
    {
        let mut s = String::new();
        match self {
            KeyMaterialValidationError::EmptyMapField => {
                crate::message::push_text(&mut s, "key-material map field name must not be empty");
            },
            KeyMaterialValidationError::ControlCharacter { field, index } => {
                crate::message::push_text(&mut s, "key-material map field ");
                push_quoted(&mut s, field.as_str());
                crate::message::push_text(&mut s, " contains a control character at byte index ");
                push_decimal(&mut s, *index as u128);
            },
            KeyMaterialValidationError::DuplicateMapField(field) => {
                crate::message::push_text(&mut s, "key-material map contains duplicate field ");
                push_quoted(&mut s, field.as_str());
            },
            KeyMaterialValidationError::TextControlCharacter { index } => {
                crate::message::push_text(&mut s, "key-material text contains a control character at byte index ");
                push_decimal(&mut s, *index as u128);
            },
        }
        assert(s@ =~= key_error_message(self@));
        s
    }
}

/// Debug rendering of a key value, in the notation of the logical model:
/// `Null`, `Bool(..)`, `Integer(..)`, `Unsigned(..)`, `Text(..)`,
/// `Bytes([..])`, `Sequence([..])` and `Map({name: value, ..})`.
pub open spec fn key_debug(v: KeyValue) -> Seq<char>
    decreases v,
{
    match v {
        KeyValue::Null => "Null"@,
        KeyValue::Bool(b) => "Bool("@ + bool_text(b) + ")"@,
        KeyValue::Integer(i) => "Integer("@ + signed_text(i as int) + ")"@,
        KeyValue::Unsigned(u) => "Unsigned("@ + decimal_text(u as nat) + ")"@,
        KeyValue::Text(t) => "Text("@ + debug_quoted(t) + ")"@,
        KeyValue::Bytes(b) => "Bytes(["@ + byte_list_text(b) + "])"@,
        KeyValue::Sequence(items) => "Sequence(["@ + items_debug(items) + "])"@,
        KeyValue::Fields(fs) => "Map({"@ + fields_debug(fs) + "})"@,
    }
}

/// Debug renderings of items, joined by `, `.
pub open spec fn items_debug(items: Seq<KeyValue>) -> Seq<char>
    decreases items,
{
    if items.len() == 0 {
        Seq::empty()
    } else {
        let init = items.drop_last();
        (if init.len() == 0 {
            Seq::empty()
        } else {
            items_debug(init) + ", "@
        }) + key_debug(items.last())
    }
}

/// Debug renderings of named fields as `name: value`, joined by `, `.
pub open spec fn fields_debug(fs: Seq<(Seq<char>, KeyValue)>) -> Seq<char>
    decreases fs,
{
    if fs.len() == 0 {
        Seq::empty()
    } else {
        let init = fs.drop_last();
        (if init.len() == 0 {
            Seq::empty()
        } else {
            fields_debug(init) + ", "@
        }) + debug_quoted(fs.last().0) + ": "@ + key_debug(fs.last().1)
    }
}

/// Appends the debug rendering of `m` to `s`.
#[verifier::loop_isolation(false)]
pub fn push_key_debug(s: &mut String, m: &KeyMaterial)
    ensures
        final(s)@ == old(s)@ + key_debug(m@),
    decreases m,
{
    let ghost s0 = s@;
    match m {
        KeyMaterial::Null => {
            crate::message::push_text(s, "Null");
        },
        KeyMaterial::Bool(b) => {
            crate::message::push_text(s, "Bool(");
            push_bool(s, *b);
            crate::message::push_text(s, ")");
        },
        KeyMaterial::Integer(i) => {
            crate::message::push_text(s, "Integer(");
            push_signed(s, *i);
            crate::message::push_text(s, ")");
        },
        KeyMaterial::Unsigned(u) => {
            crate::message::push_text(s, "Unsigned(");
            push_decimal(s, *u);
            crate::message::push_text(s, ")");
        },
        KeyMaterial::Text(t) => {
            crate::message::push_text(s, "Text(");
            push_quoted(s, t.as_str());
            crate::message::push_text(s, ")");
        },
        KeyMaterial::Bytes(b) => {
            crate::message::push_text(s, "Bytes([");
            push_byte_list(s, b.as_slice());
            crate::message::push_text(s, "])");
        },
        KeyMaterial::Sequence(items) => {
            crate::message::push_text(s, "Sequence([");
            let ghost vs = key_values_of(items@);
            let ghost s1 = s@;
            proof {
                lemma_key_values_of(items@);
                assert(vs.take(0) =~= Seq::<KeyValue>::empty());
            }
            let mut i: usize = 0;
            while i < items.len()
                invariant
                    0 <= i <= items@.len(),
                    vs == key_values_of(items@),
                    vs.len() == items@.len(),
                    s@ == s1 + items_debug(vs.take(i as int)),
                decreases items@.len() - i,
            {
                proof {
                    assert(decreases_to!(*m => *items));
                    assert(decreases_to!(*items => items@));
                    assert(decreases_to!(items@ => items@[i as int]));
                    assert(vs.take(i + 1).drop_last() =~= vs.take(i as int));
                    assert(vs.take(i + 1).last() == vs[i as int]);
                }
                if i > 0 {
                    crate::message::push_text(s, ", ");
                }
                push_key_debug(s, &items[i]);
                assert(s@ =~= s1 + items_debug(vs.take(i + 1)));
                i = i + 1;
            }
            assert(vs.take(items@.len() as int) =~= vs);
            crate::message::push_text(s, "])");
        },
        KeyMaterial::Fields(f) => {
            crate::message::push_text(s, "Map({");
            proof {
                use_type_invariant(f);
            }
            let ghost fs = field_values_of(f.fields@);
            let ghost s1 = s@;
            proof {
                lemma_field_values_of(f.fields@);
            }
            let mut i: usize = 0;
            while i < f.fields.len()
                invariant
                    0 <= i <= f.fields@.len(),
                    fs == field_values_of(f.fields@),
                    fs.len() == f.fields@.len(),
                    s@ == s1 + fields_debug(fs.take(i as int)),
                decreases f.fields@.len() - i,
            {
                proof {
                    assert(decreases_to!(*m => *f));
                    assert(decreases_to!(*f => f.fields@[i as int].1));
                    assert(fs.take(i + 1).drop_last() =~= fs.take(i as int));
                    assert(fs.take(i + 1).last() == fs[i as int]);
                }
                if i > 0 {
                    crate::message::push_text(s, ", ");
                }
                push_quoted(s, f.fields[i].0.as_str());
                crate::message::push_text(s, ": ");
                push_key_debug(s, &f.fields[i].1);
                assert(s@ =~= s1 + fields_debug(fs.take(i + 1)));
                i = i + 1;
            }
            assert(fs.take(f.fields@.len() as int) =~= fs);
            crate::message::push_text(s, "})");
        },
    }
    assert(final(s)@ =~= s0 + key_debug(m@));
}

impl KeyMaterial {
    /// Returns the debug rendering of the key material.
    pub fn debug_text(&self) -> (s: String)
        ensures
            s@ == key_debug(self@),
    {
        let mut s = String::new();
        push_key_debug(&mut s, self);
        assert(s@ =~= key_debug(self@));
        s
    }
}

} // verus!
