//! A single named, typed, optionally bounded, optionally persistent
//! configuration value cell with change tracking.

use crate::codec::{bytes_as_str, find_first_zero, first_zero, zero_vec, zeros};
use crate::errors::ShoobyError;
use crate::traits::ShoobyStorage;
use vstd::bytes::{spec_u32_from_le_bytes, spec_u32_to_le_bytes, u32_from_le_bytes, u32_to_le_bytes};
use vstd::prelude::*;
use vstd::slice::{slice_index_get, slice_subrange};
use vstd::string::StrSliceExecFns;
use vstd::utf8::{decode_utf8, encode_utf8, encode_utf8_decode_utf8, valid_utf8};

verus! {

/// The mathematical value of a field: its variant tag and payload.
pub ghost enum ValueModel {
    Bool(bool),
    Int(i32),
    Str(Seq<char>),
    Blob(Seq<u8>),
}

/// The typed payload of a field. The variant is fixed when the field is
/// created and never changes afterwards.
#[derive(Debug)]
pub enum FieldValue {
    Bool(bool),
    Int(i32),
    Str(String),
    Blob(Vec<u8>),
}

impl View for FieldValue {
    type V = ValueModel;

    open spec fn view(&self) -> ValueModel {
        match self {
            FieldValue::Bool(b) => ValueModel::Bool(*b),
            FieldValue::Int(x) => ValueModel::Int(*x),
            FieldValue::Str(s) => ValueModel::Str(s@),
            FieldValue::Blob(b) => ValueModel::Blob(b@),
        }
    }
}

/// The mathematical state of one field.
pub ghost struct FieldView<ID> {
    pub id: ID,
    pub name: Seq<char>,
    pub value: ValueModel,
    pub default: ValueModel,
    pub range: Option<(i32, i32)>,
    pub capacity: nat,
    pub persistent: bool,
    pub dirty: bool,
}

/// Whether a value fits the fixed byte capacity of its cell: booleans and
/// integers have their natural widths, a string's UTF-8 encoding must fit
/// the declared capacity, and a blob's length must equal the declared size.
pub open spec fn value_fits(v: ValueModel, capacity: nat) -> bool {
    match v {
        ValueModel::Bool(_) => capacity == 1,
        ValueModel::Int(_) => capacity == 4,
        ValueModel::Str(s) => encode_utf8(s).len() <= capacity,
        ValueModel::Blob(b) => b.len() == capacity,
    }
}

/// Whether two values carry the same variant tag.
pub open spec fn same_tag(a: ValueModel, b: ValueModel) -> bool {
    match (a, b) {
        (ValueModel::Bool(_), ValueModel::Bool(_)) => true,
        (ValueModel::Int(_), ValueModel::Int(_)) => true,
        (ValueModel::Str(_), ValueModel::Str(_)) => true,
        (ValueModel::Blob(_), ValueModel::Blob(_)) => true,
        _ => false,
    }
}

impl<ID> FieldView<ID> {
    /// Structural validity of a field: the current value and the default
    /// both fit the declared capacity and share one variant tag.
    pub open spec fn wf(self) -> bool {
        &&& value_fits(self.value, self.capacity)
        &&& value_fits(self.default, self.capacity)
        &&& same_tag(self.value, self.default)
    }

    /// The raw byte representation handed to storage: the natural width for
    /// booleans and integers (little endian), the NUL-padded UTF-8 bytes of
    /// a string, and a blob's bytes as they are.
    pub open spec fn spec_raw(self) -> Seq<u8> {
        match self.value {
            ValueModel::Bool(b) => seq![
                if b {
                    1u8
                } else {
                    0u8
                },
            ],
            ValueModel::Int(x) => spec_u32_to_le_bytes(x as u32),
            ValueModel::Str(s) => encode_utf8(s) + zeros(
                (self.capacity - encode_utf8(s).len()) as nat,
            ),
            ValueModel::Blob(b) => b,
        }
    }

    /// The byte length of the field's raw representation.
    pub open spec fn spec_raw_len(self) -> nat {
        match self.value {
            ValueModel::Bool(_) => 1,
            ValueModel::Int(_) => 4,
            ValueModel::Str(_) => self.capacity,
            ValueModel::Blob(_) => self.capacity,
        }
    }
}

/// Whether two field states agree on everything but the payload of the
/// stored value: identity, name, default, range, capacity, persistence,
/// change flag, and the value's variant tag.
pub open spec fn same_shape<ID>(a: FieldView<ID>, b: FieldView<ID>) -> bool {
    &&& a.id == b.id
    &&& a.name == b.name
    &&& a.default == b.default
    &&& a.range == b.range
    &&& a.capacity == b.capacity
    &&& a.persistent == b.persistent
    &&& a.dirty == b.dirty
    &&& same_tag(a.value, b.value)
}

/// What absorbing a loaded byte record does to a field: the bytes must have
/// the field's raw length; an integer is read back little endian, a boolean
/// must be the byte zero or one, a string is read up to the first zero byte
/// and must be valid UTF-8, and a blob takes the bytes as they are. The
/// change flag is never touched by a load.
pub open spec fn spec_absorb<ID>(f: FieldView<ID>, b: Seq<u8>) -> (FieldView<ID>, Result<
    (),
    ShoobyError,
>) {
    if b.len() != f.spec_raw_len() {
        (f, Err(ShoobyError::InvalidSize))
    } else {
        match f.value {
            ValueModel::Bool(_) => {
                if b[0] == 0 {
                    ((FieldView { value: ValueModel::Bool(false), ..f }), Ok(()))
                } else if b[0] == 1 {
                    ((FieldView { value: ValueModel::Bool(true), ..f }), Ok(()))
                } else {
                    (f, Err(ShoobyError::InvalidTypeConversion))
                }
            },
            ValueModel::Int(_) => (
                (FieldView { value: ValueModel::Int(spec_u32_from_le_bytes(b) as i32), ..f }),
                Ok(()),
            ),
            ValueModel::Str(_) => {
                let t = b.take(first_zero(b));
                if valid_utf8(t) {
                    ((FieldView { value: ValueModel::Str(decode_utf8(t)), ..f }), Ok(()))
                } else {
                    (f, Err(ShoobyError::InvalidTypeConversion))
                }
            },
            ValueModel::Blob(_) => ((FieldView { value: ValueModel::Blob(b), ..f }), Ok(())),
        }
    }
}

/// The decision taken by [`ShoobyField::new`]: which declarations are
/// accepted, and the field state an accepted declaration produces.
pub open spec fn spec_new<ID>(
    id: ID,
    name: Seq<char>,
    value: ValueModel,
    range: Option<(i32, i32)>,
    capacity: nat,
    persistent: bool,
) -> Result<FieldView<ID>, ShoobyError> {
    if value matches ValueModel::Blob(b) && b.len() != capacity {
        Err(ShoobyError::InvalidSize)
    } else if value matches ValueModel::Str(s) && encode_utf8(s).len() > capacity {
        Err(ShoobyError::OutOfBounds)
    } else if value matches ValueModel::Int(x) && range matches Some((mn, mx)) && (x < mn || x
        > mx) {
        Err(ShoobyError::OutOfBounds)
    } else {
        Ok(
            (FieldView {
                id,
                name,
                value,
                default: value,
                range,
                capacity: spec_cell_capacity(value, capacity),
                persistent,
                dirty: false,
            }),
        )
    }
}

/// The byte capacity a cell is given for a declared value: natural widths
/// for booleans and integers, the declared capacity otherwise.
pub open spec fn spec_cell_capacity(value: ValueModel, capacity: nat) -> nat {
    match value {
        ValueModel::Bool(_) => 1,
        ValueModel::Int(_) => 4,
        ValueModel::Str(_) => capacity,
        ValueModel::Blob(_) => capacity,
    }
}

/// What [`ShoobyField::set_bool`] decides and returns.
pub open spec fn spec_set_bool<ID>(f: FieldView<ID>, v: bool) -> (FieldView<ID>, Result<
    bool,
    ShoobyError,
>) {
    match f.value {
        ValueModel::Bool(old_v) => (
            (FieldView { value: ValueModel::Bool(v), dirty: f.dirty || v != old_v, ..f }),
            Ok(old_v),
        ),
        _ => (f, Err(ShoobyError::InvalidType)),
    }
}

/// What [`ShoobyField::set_int`] decides and returns.
pub open spec fn spec_set_int<ID>(f: FieldView<ID>, x: i64) -> (FieldView<ID>, Result<
    i32,
    ShoobyError,
>) {
    if x < i32::MIN || x > i32::MAX {
        (f, Err(ShoobyError::InvalidTypeConversion))
    } else {
        match f.value {
            ValueModel::Int(old_v) => {
                if f.range matches Some((mn, mx)) && (x < mn || x > mx) {
                    (f, Err(ShoobyError::OutOfBounds))
                } else {
                    (
                        (FieldView {
                            value: ValueModel::Int(x as i32),
                            dirty: f.dirty || x as i32 != old_v,
                            ..f
                        }),
                        Ok(old_v),
                    )
                }
            },
            _ => (f, Err(ShoobyError::InvalidType)),
        }
    }
}

/// What [`ShoobyField::set_string`] decides and returns.
pub open spec fn spec_set_string<ID>(f: FieldView<ID>, s: Seq<char>) -> (FieldView<ID>, Result<
    (),
    ShoobyError,
>) {
    match f.value {
        ValueModel::Str(old_s) => {
            if encode_utf8(s).len() > f.capacity {
                (f, Err(ShoobyError::OutOfBounds))
            } else {
                (
                    (FieldView { value: ValueModel::Str(s), dirty: f.dirty || s != old_s, ..f }),
                    Ok(()),
                )
            }
        },
        _ => (f, Err(ShoobyError::InvalidType)),
    }
}

/// What [`ShoobyField::set_blob`] decides and returns.
pub open spec fn spec_set_blob<ID>(f: FieldView<ID>, b: Seq<u8>) -> (FieldView<ID>, Result<
    (),
    ShoobyError,
>) {
    match f.value {
        ValueModel::Blob(old_b) => {
            if b.len() != f.capacity {
                (f, Err(ShoobyError::InvalidSize))
            } else {
                (
                    (FieldView { value: ValueModel::Blob(b), dirty: f.dirty || b != old_b, ..f }),
                    Ok(()),
                )
            }
        },
        _ => (f, Err(ShoobyError::InvalidType)),
    }
}

/// What [`ShoobyField::get_bool`] returns.
pub open spec fn spec_get_bool<ID>(f: FieldView<ID>) -> Result<bool, ShoobyError> {
    match f.value {
        ValueModel::Bool(b) => Ok(b),
        _ => Err(ShoobyError::InvalidType),
    }
}

/// What [`ShoobyField::get_int`] returns.
pub open spec fn spec_get_int<ID>(f: FieldView<ID>) -> Result<i32, ShoobyError> {
    match f.value {
        ValueModel::Int(x) => Ok(x),
        _ => Err(ShoobyError::InvalidType),
    }
}

/// What [`ShoobyField::get_string`] returns.
pub open spec fn spec_get_string<ID>(f: FieldView<ID>) -> Result<Seq<char>, ShoobyError> {
    match f.value {
        ValueModel::Str(s) => Ok(s),
        _ => Err(ShoobyError::InvalidType),
    }
}

/// What [`ShoobyField::get_blob`] returns.
pub open spec fn spec_get_blob<ID>(f: FieldView<ID>) -> Result<Seq<u8>, ShoobyError> {
    match f.value {
        ValueModel::Blob(b) => Ok(b),
        _ => Err(ShoobyError::InvalidType),
    }
}

/// The state of a field after a reset to its default: the default becomes
/// the value, and the change flag is raised only if the value changed.
pub open spec fn spec_reset<ID>(f: FieldView<ID>) -> FieldView<ID> {
    FieldView { value: f.default, dirty: f.dirty || f.default != f.value, ..f }
}

/// One configuration item: a named, typed value cell together with its
/// declared default, optional integer range, persistence flag and change
/// flag.
#[derive(Debug)]
pub struct ShoobyField<ID> {
    id: ID,
    name: String,
    value: FieldValue,
    default: FieldValue,
    range: Option<(i32, i32)>,
    capacity: usize,
    persistent: bool,
    has_changed: bool,
}

impl<ID> View for ShoobyField<ID> {
    type V = FieldView<ID>;

    closed spec fn view(&self) -> FieldView<ID> {
        FieldView {
            id: self.id,
            name: self.name@,
            value: self.value@,
            default: self.default@,
            range: self.range,
            capacity: self.capacity as nat,
            persistent: self.persistent,
            dirty: self.has_changed,
        }
    }
}

impl<ID> ShoobyField<ID> {
    #[verifier::type_invariant]
    spec fn type_inv(self) -> bool {
        self@.wf()
    }
}

/// Copies a byte vector element by element.
fn clone_bytes(v: &Vec<u8>) -> (r: Vec<u8>)
    ensures
        r@ == v@,
{
    let mut r: Vec<u8> = Vec::new();
    let mut i: usize = 0;
    while i < v.len()
        invariant
            i <= v.len(),
            r@ == v@.subrange(0, i as int),
        decreases v.len() - i,
    {
        r.push(v[i]);
        proof {
            assert(v@.subrange(0, i + 1) =~= v@.subrange(0, i as int).push(v@[i as int]));
        }
        i = i + 1;
    }
    proof {
        assert(r@ =~= v@);
    }
    r
}

/// Copies a field value.
fn duplicate_value(v: &FieldValue) -> (r: FieldValue)
    ensures
        r@ == v@,
{
    match v {
        FieldValue::Bool(b) => FieldValue::Bool(*b),
        FieldValue::Int(x) => FieldValue::Int(*x),
        FieldValue::Str(s) => FieldValue::Str(s.clone()),
        FieldValue::Blob(b) => FieldValue::Blob(clone_bytes(b)),
    }
}

impl<ID: Copy> ShoobyField<ID> {
    /// Creates a field from its declaration: an identity, a display name, a
    /// default value, an optional range for integer fields, a byte capacity
    /// (the string capacity or the declared blob size; ignored for booleans
    /// and integers, which use their natural widths) and a persistence flag.
    ///
    /// The declaration is rejected when the default blob's length differs
    /// from the declared size, when the default string's UTF-8 encoding
    /// exceeds the declared capacity, or when a default integer lies outside
    /// its declared range.
    pub fn new(
        id: ID,
        name: &str,
        value: FieldValue,
        range: Option<(i32, i32)>,
        capacity: usize,
        persistent: bool,
    ) -> (r: Result<Self, ShoobyError>)
        ensures
            ({
                let decision = spec_new(id, name@, value@, range, capacity as nat, persistent);
                match r {
                    Ok(f) => decision == Ok::<FieldView<ID>, ShoobyError>(f@),
                    Err(e) => decision == Err::<FieldView<ID>, ShoobyError>(e),
                }
            }),
    {
        let cell_capacity: usize;
        match &value {
            FieldValue::Blob(b) => {
                if b.len() != capacity {
                    return Err(ShoobyError::InvalidSize);
                }
                cell_capacity = capacity;
            },
            FieldValue::Str(s) => {
                if s.as_str().as_bytes().len() > capacity {
                    return Err(ShoobyError::OutOfBounds);
                }
                cell_capacity = capacity;
            },
            FieldValue::Int(x) => {
                if let Some((mn, mx)) = range {
                    if *x < mn || *x > mx {
                        return Err(ShoobyError::OutOfBounds);
                    }
                }
                cell_capacity = 4;
            },
            FieldValue::Bool(_) => {
                cell_capacity = 1;
            },
        }
        let default = duplicate_value(&value);
        Ok(
            ShoobyField {
                id,
                name: name.to_owned(),
                value,
                default,
                range,
                capacity: cell_capacity,
                persistent,
                has_changed: false,
            },
        )
    }

    /// The field's identity.
    pub fn id(&self) -> (r: ID)
        ensures
            r == self@.id,
    {
        self.id
    }

    /// The field's stable display name.
    pub fn name(&self) -> (r: &str)
        ensures
            r@ == self@.name,
    {
        self.name.as_str()
    }

    /// Reads the field as a boolean; fails with `InvalidType` on any other
    /// variant.
    pub fn get_bool(&self) -> (r: Result<bool, ShoobyError>)
        ensures
            r == spec_get_bool(self@),
    {
        match &self.value {
            FieldValue::Bool(b) => Ok(*b),
            _ => Err(ShoobyError::InvalidType),
        }
    }

    /// Reads the field as a 32-bit integer; fails with `InvalidType` on any
    /// other variant.
    pub fn get_int(&self) -> (r: Result<i32, ShoobyError>)
        ensures
            r == spec_get_int(self@),
    {
        match &self.value {
            FieldValue::Int(x) => Ok(*x),
            _ => Err(ShoobyError::InvalidType),
        }
    }

    /// Reads the field as a string; fails with `InvalidType` on any other
    /// variant.
    pub fn get_string(&self) -> (r: Result<String, ShoobyError>)
        ensures
            match r {
                Ok(s) => spec_get_string(self@) == Ok::<Seq<char>, ShoobyError>(s@),
                Err(e) => spec_get_string(self@) == Err::<Seq<char>, ShoobyError>(e),
            },
    {
        match &self.value {
            FieldValue::Str(s) => Ok(s.clone()),
            _ => Err(ShoobyError::InvalidType),
        }
    }

    /// Reads the field's blob bytes; fails with `InvalidType` on any other
    /// variant.
    pub fn get_blob(&self) -> (r: Result<Vec<u8>, ShoobyError>)
        ensures
            match r {
                Ok(b) => spec_get_blob(self@) == Ok::<Seq<u8>, ShoobyError>(b@),
                Err(e) => spec_get_blob(self@) == Err::<Seq<u8>, ShoobyError>(e),
            },
    {
        match &self.value {
            FieldValue::Blob(b) => Ok(clone_bytes(b)),
            _ => Err(ShoobyError::InvalidType),
        }
    }

    /// Writes a boolean, returning the previous value; raises the change
    /// flag only when the stored value actually changed.
    pub fn set_bool(&mut self, new_val: bool) -> (r: Result<bool, ShoobyError>)
        ensures
            final(self)@ == spec_set_bool(old(self)@, new_val).0,
            r == spec_set_bool(old(self)@, new_val).1,
    {
        proof {
            use_type_invariant(&*self);
        }
        let old_val = match &self.value {
            FieldValue::Bool(b) => *b,
            _ => {
                return Err(ShoobyError::InvalidType);
            },
        };
        if new_val != old_val {
            self.value = FieldValue::Bool(new_val);
            self.has_changed = true;
        }
        Ok(old_val)
    }

    /// Writes an integer, returning the previous value. Fails with
    /// `InvalidTypeConversion` when the input does not fit 32 bits, with
    /// `InvalidType` on a non-integer field, and with `OutOfBounds` when the
    /// value lies outside the configured range; on every failure the stored
    /// value and the change flag are left untouched.
    pub fn set_int(&mut self, new_val: i64) -> (r: Result<i32, ShoobyError>)
        ensures
            final(self)@ == spec_set_int(old(self)@, new_val).0,
            r == spec_set_int(old(self)@, new_val).1,
    {
        proof {
            use_type_invariant(&*self);
        }
        if new_val < i32::MIN as i64 || new_val > i32::MAX as i64 {
            return Err(ShoobyError::InvalidTypeConversion);
        }
        let value: i32 = new_val as i32;
        let old_val = match &self.value {
            FieldValue::Int(x) => *x,
            _ => {
                return Err(ShoobyError::InvalidType);
            },
        };
        if let Some((mn, mx)) = self.range {
            if value < mn || value > mx {
                return Err(ShoobyError::OutOfBounds);
            }
        }
        if value != old_val {
            self.value = FieldValue::Int(value);
            self.has_changed = true;
        }
        Ok(old_val)
    }

    /// Writes a string. Fails with `InvalidType` on a non-string field and
    /// with `OutOfBounds` when the UTF-8 byte length of the input exceeds
    /// the fixed capacity; on failure nothing is touched.
    pub fn set_string(&mut self, new_str: &str) -> (r: Result<(), ShoobyError>)
        ensures
            final(self)@ == spec_set_string(old(self)@, new_str@).0,
            r == spec_set_string(old(self)@, new_str@).1,
    {
        proof {
            use_type_invariant(&*self);
        }
        match &self.value {
            FieldValue::Str(_) => (),
            _ => {
                return Err(ShoobyError::InvalidType);
            },
        }
        if new_str.as_bytes().len() > self.capacity {
            return Err(ShoobyError::OutOfBounds);
        }
        let new_string = new_str.to_owned();
        let changed = match &self.value {
            FieldValue::Str(s) => !(*s == new_string),
            _ => false,
        };
        if changed {
            self.value = FieldValue::Str(new_string);
            self.has_changed = true;
        }
        Ok(())
    }

    /// Writes blob bytes. Fails with `InvalidType` on a non-blob field and
    /// with `InvalidSize` when the payload's length differs from the
    /// declared blob size; on failure nothing is touched.
    pub fn set_blob(&mut self, new_blob: &[u8]) -> (r: Result<(), ShoobyError>)
        ensures
            final(self)@ == spec_set_blob(old(self)@, new_blob@).0,
            r == spec_set_blob(old(self)@, new_blob@).1,
    {
        proof {
            use_type_invariant(&*self);
        }
        let old_b = match &self.value {
            FieldValue::Blob(b) => b,
            _ => {
                return Err(ShoobyError::InvalidType);
            },
        };
        if new_blob.len() != self.capacity {
            return Err(ShoobyError::InvalidSize);
        }
        let changed = !bytes_equal(old_b.as_slice(), new_blob);
        if changed {
            self.value = FieldValue::Blob(slice_to_bytes(new_blob));
            self.has_changed = true;
        }
        Ok(())
    }

    /// Re-applies the field's declared default through the same
    /// compare-then-assign path as the setters: the change flag is raised
    /// only if the stored value differed from the default.
    pub fn reset_to_default(&mut self)
        ensures
            final(self)@ == spec_reset(old(self)@),
    {
        proof {
            use_type_invariant(&*self);
        }
        let changed = !values_equal(&self.value, &self.default);
        if changed {
            let d = duplicate_value(&self.default);
            self.value = d;
            self.has_changed = true;
        }
    }

    /// Lowers the change flag; the registry does this at each transaction
    /// boundary.
    pub(crate) fn clear_dirty(&mut self)
        ensures
            final(self)@ == (FieldView { dirty: false, ..old(self)@ }),
    {
        proof {
            use_type_invariant(&*self);
        }
        self.has_changed = false;
    }

    /// Whether the field changed since the last transaction boundary.
    pub(crate) fn dirty(&self) -> (r: bool)
        ensures
            r == self@.dirty,
    {
        self.has_changed
    }

    /// Whether the field participates in the save/load cycle.
    pub(crate) fn persistent(&self) -> (r: bool)
        ensures
            r == self@.persistent,
    {
        self.persistent
    }

    /// The byte length of the field's raw representation.
    pub fn raw_len(&self) -> (r: usize)
        ensures
            r as nat == self@.spec_raw_len(),
    {
        match &self.value {
            FieldValue::Bool(_) => 1,
            FieldValue::Int(_) => 4,
            FieldValue::Str(_) => self.capacity,
            FieldValue::Blob(_) => self.capacity,
        }
    }

    /// The raw byte representation handed to storage.
    pub fn raw_bytes(&self) -> (r: Vec<u8>)
        ensures
            r@ == self@.spec_raw(),
    {
        proof {
            use_type_invariant(&*self);
        }
        match &self.value {
            FieldValue::Bool(b) => {
                let mut v: Vec<u8> = Vec::new();
                v.push(if *b {
                    1u8
                } else {
                    0u8
                });
                proof {
                    assert(v@ =~= self@.spec_raw());
                }
                v
            },
            FieldValue::Int(x) => u32_to_le_bytes(*x as u32),
            FieldValue::Str(s) => {
                let mut v = s.as_str().as_bytes_vec();
                let ghost enc = encode_utf8(s@);
                while v.len() < self.capacity
                    invariant
                        enc.len() <= v@.len() <= self.capacity,
                        v@ == enc + zeros((v@.len() - enc.len()) as nat),
                    decreases self.capacity - v@.len(),
                {
                    v.push(0u8);
                    proof {
                        assert(v@ =~= enc + zeros((v@.len() - enc.len()) as nat));
                    }
                }
                proof {
                    assert(v@ =~= self@.spec_raw());
                }
                v
            },
            FieldValue::Blob(b) => clone_bytes(b),
        }
    }

    /// Replaces the stored value with one decoded from a loaded byte
    /// record, leaving everything else (the change flag included) untouched.
    fn absorb_raw(&mut self, buf: Vec<u8>) -> (r: Result<(), ShoobyError>)
        ensures
            final(self)@ == spec_absorb(old(self)@, buf@).0,
            r == spec_absorb(old(self)@, buf@).1,
    {
        proof {
            use_type_invariant(&*self);
        }
        let expected = self.raw_len();
        if buf.len() != expected {
            return Err(ShoobyError::InvalidSize);
        }
        match &self.value {
            FieldValue::Bool(_) => {
                let byte = *slice_index_get(buf.as_slice(), 0);
                if byte == 0 {
                    self.value = FieldValue::Bool(false);
                    Ok(())
                } else if byte == 1 {
                    self.value = FieldValue::Bool(true);
                    Ok(())
                } else {
                    Err(ShoobyError::InvalidTypeConversion)
                }
            },
            FieldValue::Int(_) => {
                let u = u32_from_le_bytes(buf.as_slice());
                self.value = FieldValue::Int(#[verifier::truncate] (u as i32));
                Ok(())
            },
            FieldValue::Str(_) => {
                let k = find_first_zero(&buf);
                let prefix = slice_subrange(buf.as_slice(), 0, k);
                match bytes_as_str(prefix) {
                    Some(s) => {
                        let owned = s.to_owned();
                        proof {
                            encode_utf8_decode_utf8(owned@);
                            assert(buf@.take(k as int) =~= buf@.subrange(0, k as int));
                            assert(encode_utf8(owned@).len() <= self.capacity);
                        }
                        self.value = FieldValue::Str(owned);
                        Ok(())
                    },
                    None => Err(ShoobyError::InvalidTypeConversion),
                }
            },
            FieldValue::Blob(_) => {
                self.value = FieldValue::Blob(buf);
                Ok(())
            },
        }
    }

    /// Saves the field's raw bytes under its identity when it is
    /// persistent; a field outside the save/load cycle is skipped and
    /// reports success.
    pub(crate) fn save<S: ShoobyStorage<ID = ID>>(&self, storage: &S) -> (r: Result<
        (),
        ShoobyError,
    >)
        ensures
            !self@.persistent ==> r is Ok,
    {
        if !self.persistent {
            return Ok(());
        }
        let data = self.raw_bytes();
        storage.save_raw(self.id, data.as_slice())
    }

    /// Asks storage for a prior record of this field and, when one exists,
    /// replaces the stored value with the decoded record. A field outside
    /// the save/load cycle reports `Ok(false)` untouched; so does one with
    /// no prior record. On any failure the field is left as it was.
    pub(crate) fn load<S: ShoobyStorage<ID = ID>>(&mut self, storage: &mut S) -> (r: Result<
        bool,
        ShoobyError,
    >)
        ensures
            same_shape(final(self)@, old(self)@),
            !old(self)@.persistent ==> r == Ok::<bool, ShoobyError>(false),
            !(r matches Ok(true)) ==> final(self)@ == old(self)@,
            r matches Ok(true) ==> exists|b: Seq<u8>|
                #[trigger] spec_absorb(old(self)@, b) == (final(self)@, Ok::<(), ShoobyError>(())),
    {
        proof {
            use_type_invariant(&*self);
        }
        if !self.persistent {
            return Ok(false);
        }
        let n = self.raw_len();
        let mut buf = zero_vec(n);
        let loaded = match storage.load_raw(self.id, &mut buf) {
            Ok(l) => l,
            Err(e) => {
                return Err(e);
            },
        };
        if !loaded {
            return Ok(false);
        }
        let ghost loaded_bytes = buf@;
        match self.absorb_raw(buf) {
            Ok(()) => {
                proof {
                    assert(spec_absorb(old(self)@, loaded_bytes) == (
                        self@,
                        Ok::<(), ShoobyError>(()),
                    ));
                }
                Ok(true)
            },
            Err(e) => Err(e),
        }
    }
}

/// Compares two byte strings element by element.
fn bytes_equal(a: &[u8], b: &[u8]) -> (r: bool)
    ensures
        r == (a@ == b@),
{
    if a.len() != b.len() {
        proof {
            assert(a@ != b@);
        }
        return false;
    }
    let n = a.len();
    let mut i: usize = 0;
    while i < n
        invariant
            i <= n,
            n == a@.len() == b@.len(),
            forall|j: int| 0 <= j < i ==> a@[j] == b@[j],
        decreases n - i,
    {
        if *slice_index_get(a, i) != *slice_index_get(b, i) {
            return false;
        }
        i = i + 1;
    }
    proof {
        assert(a@ =~= b@);
    }
    true
}

/// Copies a byte slice into a fresh vector.
fn slice_to_bytes(v: &[u8]) -> (r: Vec<u8>)
    ensures
        r@ == v@,
{
    let mut r: Vec<u8> = Vec::new();
    let mut i: usize = 0;
    let n = v.len();
    while i < n
        invariant
            i <= n,
            n == v@.len(),
            r@ == v@.subrange(0, i as int),
        decreases n - i,
    {
        r.push(*slice_index_get(v, i));
        proof {
            assert(v@.subrange(0, i + 1) =~= v@.subrange(0, i as int).push(v@[i as int]));
        }
        i = i + 1;
    }
    proof {
        assert(r@ =~= v@);
    }
    r
}

/// Compares two field values; true exactly when their models agree.
fn values_equal(a: &FieldValue, b: &FieldValue) -> (r: bool)
    ensures
        r == (a@ == b@),
{
    match (a, b) {
        (FieldValue::Bool(x), FieldValue::Bool(y)) => *x == *y,
        (FieldValue::Int(x), FieldValue::Int(y)) => *x == *y,
        (FieldValue::Str(x), FieldValue::Str(y)) => *x == *y,
        (FieldValue::Blob(x), FieldValue::Blob(y)) => bytes_equal(x.as_slice(), y.as_slice()),
        _ => false,
    }
}

} // verus!
