//! The sequence consumer: one decode call against one input sequence.
//!
//! A decode call reads the input one element at a time into a per-call
//! position buffer of `max_position + 1` slots, discarding (but still
//! consuming) every element beyond the greatest declared position. If the
//! input held fewer than `max_position + 1` elements the call fails;
//! otherwise each field, in declaration order, reads the element at its
//! declared position. The buffer is local to one call, so decoding is
//! reentrant and keeps no state across calls.

use vstd::prelude::*;
use vstd::string::StringExecFns;
use crate::schema::{FieldSpec, RecordSchema, lemma_max_position};
use crate::decimal::{spec_dec_digits, usize_to_decimal};

verus! {

/// Per-call decode failures. They are returned to the caller of the one
/// decode invocation; no partially decoded result ever escapes.
#[derive(Debug, PartialEq, Eq)]
pub enum DecodeError {
    /// The input held fewer elements than the schema demands.
    InsufficientElements { got: usize, need: usize },
    /// The element a field reads did not convert to the field's type.
    FieldConversionError { field: String, position: usize, cause: String },
}

/// The values a schema reads from an input: for each field in declaration
/// order, the input element at the field's declared position.
pub open spec fn spec_selected<V>(fields: Seq<FieldSpec>, input: Seq<V>) -> Seq<V> {
    Seq::new(fields.len(), |k: int| input[fields[k].position as int])
}

/// Decodes one input sequence against `schema`.
///
/// The input is consumed in full, one element at a time; elements at
/// positions beyond `schema.max_position` are discarded and never affect
/// the result. An input of fewer than `max_position + 1` elements fails
/// with `InsufficientElements`, whatever its contents. Otherwise the call
/// returns, in declaration order, a reference to the element each field
/// reads — positions that no field declares are simply never read, so a
/// sparse schema never fails by itself.
pub fn select_positions<'a, V>(schema: &RecordSchema, input: &'a Vec<V>) -> (out: Result<
    Vec<&'a V>,
    DecodeError,
>)
    requires
        schema.wf(),
        schema.max_position < usize::MAX,
    ensures
        match out {
            Ok(sel) => {
                &&& input@.len() > schema.max_position
                &&& sel@.len() == schema.fields@.len()
                &&& forall|k: int|
                    0 <= k < sel@.len() ==> *(#[trigger] sel@[k]) == spec_selected(
                        schema.fields@,
                        input@,
                    )[k]
            },
            Err(e) => {
                &&& input@.len() <= schema.max_position
                &&& e == (DecodeError::InsufficientElements {
                    got: input.len(),
                    need: (schema.max_position + 1) as usize,
                })
            },
        },
{
    let max = schema.max_position;
    // Reading: a per-call position buffer, one null slot per position up
    // to the greatest declared one.
    let mut buffer: Vec<Option<&'a V>> = Vec::new();
    let mut j: usize = 0;
    while j < max + 1
        invariant
            j <= max + 1,
            max < usize::MAX,
            buffer@.len() == j,
        decreases max + 1 - j,
    {
        buffer.push(None);
        j = j + 1;
    }
    // Consume the input one element at a time, tracking how many elements
    // it held; elements beyond the greatest position are discarded.
    let mut count: usize = 0;
    while count < input.len()
        invariant
            max < usize::MAX,
            buffer@.len() == max + 1,
            count <= input@.len(),
            forall|t: int|
                0 <= t <= max && t < count ==> ((#[trigger] buffer@[t]) matches Some(r) && *r
                    == input@[t]),
        decreases input@.len() - count,
    {
        if count <= max {
            buffer[count] = Some(&input[count]);
        }
        count = count + 1;
    }
    // LengthCheck: fewer elements than the schema demands.
    if count <= max {
        return Err(DecodeError::InsufficientElements { got: count, need: max + 1 });
    }
    // FieldExtraction: each field reads its buffered slot, in declaration
    // order.
    proof {
        lemma_max_position(schema.fields@);
    }
    let mut sel: Vec<&'a V> = Vec::new();
    let mut k: usize = 0;
    while k < schema.fields.len()
        invariant
            schema.wf(),
            max == schema.max_position,
            max < usize::MAX,
            buffer@.len() == max + 1,
            input@.len() > max,
            k <= schema.fields@.len(),
            sel@.len() == k,
            forall|t: int|
                0 <= t < schema.fields@.len() ==> (#[trigger] schema.fields@[t]).position <= max,
            forall|t: int|
                0 <= t <= max ==> ((#[trigger] buffer@[t]) matches Some(r) && *r == input@[t]),
            forall|t: int|
                0 <= t < k ==> *(#[trigger] sel@[t]) == input@[schema.fields@[t].position as int],
        decreases schema.fields@.len() - k,
    {
        let pos = schema.fields[k].position;
        let slot = buffer[pos];
        sel.push(slot.unwrap());
        k = k + 1;
    }
    Ok(sel)
}

/// Order independence: a field that two schemas map to the same position
/// decodes to the same value from the same input, wherever the field
/// stands in each schema's declaration order. Field-wise, a schema that
/// declares the same fields in another order decodes any input to an equal
/// record.
pub proof fn lemma_order_independence<V>(
    f1: Seq<FieldSpec>,
    f2: Seq<FieldSpec>,
    input: Seq<V>,
    k1: int,
    k2: int,
)
    requires
        0 <= k1 < f1.len(),
        0 <= k2 < f2.len(),
        f1[k1].name == f2[k2].name,
        f1[k1].position == f2[k2].position,
    ensures
        spec_selected(f1, input)[k1] == spec_selected(f2, input)[k2],
{
}

/// Extra-element ignorance: two inputs that agree on every position up to
/// the greatest one any field reads decode to the same values, whatever
/// either holds beyond it.
pub proof fn lemma_extra_elements_ignored<V>(fields: Seq<FieldSpec>, a: Seq<V>, b: Seq<V>, m: int)
    requires
        forall|k: int| 0 <= k < fields.len() ==> (#[trigger] fields[k]).position <= m,
        forall|i: int| 0 <= i <= m ==> a[i] == b[i],
        m < a.len(),
        m < b.len(),
    ensures
        spec_selected(fields, a) == spec_selected(fields, b),
{
    assert(spec_selected(fields, a) =~= spec_selected(fields, b));
}

/// The description of a decode failure, in the shape callers rely on.
pub open spec fn spec_decode_message(e: DecodeError) -> Seq<char> {
    match e {
        DecodeError::InsufficientElements { got, need } => "expected a sequence with at least "@
            + spec_dec_digits(need as int) + " elements, got "@ + spec_dec_digits(got as int),
        DecodeError::FieldConversionError { field, position, cause } => "failed to convert field `"@
            + field@ + "` at position "@ + spec_dec_digits(position as int) + ": "@ + cause@,
    }
}

impl DecodeError {
    /// Renders the failure for callers.
    pub fn message(&self) -> (m: String)
        ensures
            m@ == spec_decode_message(*self),
    {
        match self {
            DecodeError::InsufficientElements { got, need } => {
                let mut m = "expected a sequence with at least ".to_owned();
                let need_digits = usize_to_decimal(*need);
                m.append(need_digits.as_str());
                m.append(" elements, got ");
                let got_digits = usize_to_decimal(*got);
                m.append(got_digits.as_str());
                m
            },
            DecodeError::FieldConversionError { field, position, cause } => {
                let mut m = "failed to convert field `".to_owned();
                m.append(field.as_str());
                m.append("` at position ");
                let position_digits = usize_to_decimal(*position);
                m.append(position_digits.as_str());
                m.append(": ");
                m.append(cause.as_str());
                m
            },
        }
    }
}

} // verus!
