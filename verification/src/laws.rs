//! Laws of the field store, stated over the spec-level models that the
//! executable functions are proved to implement.

use crate::codec::{first_zero, lemma_encode_utf8_no_zero, lemma_first_zero_at, zeros};
use crate::errors::ShoobyError;
use crate::shooby_field::{
    spec_absorb, spec_get_blob, spec_get_string, spec_reset, spec_set_blob, spec_set_bool,
    spec_set_int, spec_set_string, FieldView, ValueModel,
};
use vstd::bytes::{lemma_auto_spec_u32_to_from_le_bytes, spec_u32_from_le_bytes, spec_u32_to_le_bytes};
use vstd::prelude::*;
use vstd::utf8::{encode_utf8, encode_utf8_decode_utf8, encode_utf8_valid_utf8};

verus! {

/// Setting a boolean twice with one value is one set: the second call
/// changes nothing and returns the value itself, and on a clean field the
/// change flag rises after the first call exactly when the value differed
/// from the stored one.
pub proof fn lemma_set_bool_idempotent<ID>(f: FieldView<ID>, v: bool)
    ensures
        spec_set_bool(spec_set_bool(f, v).0, v).0 == spec_set_bool(f, v).0,
        spec_set_bool(f, v).1 is Ok ==> spec_set_bool(spec_set_bool(f, v).0, v).1 == Ok::<
            bool,
            ShoobyError,
        >(v),
        spec_set_bool(f, v).1 is Err ==> spec_set_bool(f, v).0 == f,
        !f.dirty ==> (spec_set_bool(f, v).0.dirty <==> (f.value matches ValueModel::Bool(b0)
            && b0 != v)),
{
}

/// Setting an integer twice with one value is one set: the second call
/// changes nothing and returns the value itself, every failure leaves the
/// field untouched, and on a clean field the change flag rises after the
/// first call exactly when the accepted value differed from the stored one.
pub proof fn lemma_set_int_idempotent<ID>(f: FieldView<ID>, x: i64)
    ensures
        spec_set_int(spec_set_int(f, x).0, x).0 == spec_set_int(f, x).0,
        spec_set_int(f, x).1 is Ok ==> spec_set_int(spec_set_int(f, x).0, x).1 == Ok::<
            i32,
            ShoobyError,
        >(x as i32),
        spec_set_int(f, x).1 is Err ==> spec_set_int(f, x).0 == f,
        !f.dirty ==> (spec_set_int(f, x).0.dirty <==> (spec_set_int(f, x).1 is Ok && (
        f.value matches ValueModel::Int(v0) && v0 != x))),
{
}

/// Setting a string twice with one value is one set: the second call
/// changes nothing, every failure leaves the field untouched, and on a
/// clean field the change flag rises after the first call exactly when the
/// accepted payload differed from the stored one.
pub proof fn lemma_set_string_idempotent<ID>(f: FieldView<ID>, s: Seq<char>)
    ensures
        spec_set_string(spec_set_string(f, s).0, s).0 == spec_set_string(f, s).0,
        spec_set_string(f, s).1 is Ok ==> spec_set_string(spec_set_string(f, s).0, s).1 is Ok,
        spec_set_string(f, s).1 is Err ==> spec_set_string(f, s).0 == f,
        !f.dirty ==> (spec_set_string(f, s).0.dirty <==> (spec_set_string(f, s).1 is Ok && (
        f.value matches ValueModel::Str(s0) && s0 != s))),
{
}

/// Setting a blob twice with one value is one set: the second call changes
/// nothing, every failure leaves the field untouched, and on a clean field
/// the change flag rises after the first call exactly when the accepted
/// payload differed from the stored one.
pub proof fn lemma_set_blob_idempotent<ID>(f: FieldView<ID>, b: Seq<u8>)
    ensures
        spec_set_blob(spec_set_blob(f, b).0, b).0 == spec_set_blob(f, b).0,
        spec_set_blob(f, b).1 is Ok ==> spec_set_blob(spec_set_blob(f, b).0, b).1 is Ok,
        spec_set_blob(f, b).1 is Err ==> spec_set_blob(f, b).0 == f,
        !f.dirty ==> (spec_set_blob(f, b).0.dirty <==> (spec_set_blob(f, b).1 is Ok && (
        f.value matches ValueModel::Blob(b0) && b0 != b))),
{
}

/// Range enforcement: on an integer field with a configured range, a value
/// outside the range is rejected with `OutOfBounds` and the field — value
/// and change flag alike — is left untouched; a value inside the range is
/// accepted, the previous value is returned, and the change flag rises
/// exactly when the value changed.
pub proof fn lemma_int_range_enforcement<ID>(f: FieldView<ID>, x: i64, mn: i32, mx: i32)
    requires
        f.value is Int,
        f.range == Some((mn, mx)),
        i32::MIN <= x <= i32::MAX,
    ensures
        x < mn || x > mx ==> spec_set_int(f, x).0 == f && spec_set_int(f, x).1 == Err::<
            i32,
            ShoobyError,
        >(ShoobyError::OutOfBounds),
        mn <= x <= mx ==> spec_set_int(f, x).1 == Ok::<i32, ShoobyError>(f.value->Int_0),
        mn <= x <= mx ==> spec_set_int(f, x).0 == (FieldView {
            value: ValueModel::Int(x as i32),
            dirty: f.dirty || x != f.value->Int_0,
            ..f
        }),
{
}

/// String capacity: a string field accepts exactly the payloads whose
/// UTF-8 byte length fits its capacity; a rejected payload leaves the field
/// untouched; after an accepted set the field reads back exactly the
/// payload, and its raw byte image is the payload's UTF-8 bytes followed by
/// zeros up to the capacity.
pub proof fn lemma_string_capacity<ID>(f: FieldView<ID>, s: Seq<char>)
    requires
        f.value is Str,
    ensures
        spec_set_string(f, s).1 is Ok <==> encode_utf8(s).len() <= f.capacity,
        encode_utf8(s).len() > f.capacity ==> spec_set_string(f, s).0 == f && spec_set_string(
            f,
            s,
        ).1 == Err::<(), ShoobyError>(ShoobyError::OutOfBounds),
        spec_set_string(f, s).1 is Ok ==> spec_get_string(spec_set_string(f, s).0) == Ok::<
            Seq<char>,
            ShoobyError,
        >(s),
        spec_set_string(f, s).1 is Ok ==> spec_set_string(f, s).0.spec_raw() == encode_utf8(s)
            + zeros((f.capacity - encode_utf8(s).len()) as nat),
{
}

/// Blob round trip: a blob field accepts exactly the payloads of its
/// declared size, and after an accepted set it reads back byte-identical to
/// the payload.
pub proof fn lemma_blob_round_trip<ID>(f: FieldView<ID>, b: Seq<u8>)
    requires
        f.value is Blob,
    ensures
        spec_set_blob(f, b).1 is Ok <==> b.len() == f.capacity,
        spec_set_blob(f, b).1 is Err ==> spec_set_blob(f, b).0 == f,
        spec_set_blob(f, b).1 is Ok ==> spec_get_blob(spec_set_blob(f, b).0) == Ok::<
            Seq<u8>,
            ShoobyError,
        >(b),
{
}

/// Factory reset restores the declared default: a reset field holds its
/// default, keeps all its metadata, and its change flag rises exactly when
/// the reset actually changed the value.
pub proof fn lemma_reset_restores_default<ID>(f: FieldView<ID>)
    ensures
        spec_reset(f).value == f.default,
        spec_reset(f).dirty <==> f.dirty || f.default != f.value,
        spec_reset(spec_reset(f)) == spec_reset(f),
{
}

/// Storage round trip: absorbing a field's own raw byte image accepts it
/// and reproduces the field exactly — what a save writes, a load reads
/// back. For a string field this holds when the stored text contains no
/// NUL character, the one character the NUL-padded byte image cannot
/// distinguish from its padding.
pub proof fn lemma_save_load_round_trip<ID>(f: FieldView<ID>)
    requires
        f.wf(),
        f.value matches ValueModel::Str(s) ==> forall|i: int| 0 <= i < s.len() ==> s[i] as u32
            != 0,
    ensures
        spec_absorb(f, f.spec_raw()) == (f, Ok::<(), ShoobyError>(())),
{
    let raw = f.spec_raw();
    match f.value {
        ValueModel::Bool(b) => {},
        ValueModel::Int(x) => {
            lemma_auto_spec_u32_to_from_le_bytes();
            let u = x as u32;
            assert(spec_u32_to_le_bytes(u).len() == 4);
            assert(spec_u32_from_le_bytes(spec_u32_to_le_bytes(u)) == u);
            assert((u as i32) == x) by (bit_vector)
                requires
                    u == x as u32,
            ;
            assert((FieldView { value: ValueModel::Int(x), ..f }) == f);
        },
        ValueModel::Str(s) => {
            let enc = encode_utf8(s);
            lemma_encode_utf8_no_zero(s);
            assert(raw.len() == f.capacity);
            assert forall|j: int| 0 <= j < enc.len() implies raw[j] != 0 by {
                assert(raw[j] == enc[j]);
            }
            if enc.len() < raw.len() {
                assert(raw[enc.len() as int] == 0);
            }
            lemma_first_zero_at(raw, enc.len() as int);
            assert(raw.take(enc.len() as int) =~= enc);
            encode_utf8_valid_utf8(s);
            encode_utf8_decode_utf8(s);
            assert((FieldView { value: ValueModel::Str(s), ..f }) == f);
        },
        ValueModel::Blob(b) => {
            assert((FieldView { value: ValueModel::Blob(b), ..f }) == f);
        },
    }
}

} // verus!
