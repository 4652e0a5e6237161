//! Field metadata, its validation, and the schema a record type registers.
//!
//! A host registers a record type once by handing over, in declaration
//! order, each field's name and the raw text of its position annotation.
//! Registration validates every annotation and plans the schema: the
//! fields in declaration order, each with the zero-based input position it
//! reads from, and the greatest such position. The schema is immutable
//! after that, and decode calls only read it.

use vstd::prelude::*;
use vstd::string::StringExecFns;
use crate::decimal::{spec_valid_position, spec_dec_val, parse_position};

verus! {

/// Per-field metadata as the host supplies it at registration time: the
/// field's name and the raw text of its position annotation, if the field
/// carries one.
#[derive(Debug)]
pub struct RawField {
    pub name: String,
    pub annotation: Option<String>,
}

/// A validated field: its name and the zero-based input position it reads
/// from. Positions of distinct fields need not be contiguous, sorted, or
/// unique; a shared position simply hands both fields the same element.
#[derive(Debug)]
pub struct FieldSpec {
    pub name: String,
    pub position: usize,
}

/// Registration-time failures. They abort schema construction for the
/// offending record type and never surface at decode time.
#[derive(Debug, PartialEq, Eq)]
pub enum SchemaError {
    /// A field carries no position annotation.
    MissingPositionAnnotation { field: String },
    /// A field's annotation payload is not a non-negative integer that
    /// fits in `usize`.
    InvalidPositionAnnotation { field: String },
}

/// Whether a raw field carries a valid position annotation.
pub open spec fn spec_raw_field_ok(r: RawField) -> bool {
    r.annotation matches Some(a) && spec_valid_position(a@)
}

/// The position a raw field's annotation declares.
pub open spec fn spec_raw_position(r: RawField) -> int
    recommends
        spec_raw_field_ok(r),
{
    spec_dec_val(r.annotation->Some_0@)
}

/// The error extraction reports for the raw field `r`.
pub open spec fn spec_field_error(r: RawField) -> SchemaError {
    if r.annotation is None {
        SchemaError::MissingPositionAnnotation { field: r.name }
    } else {
        SchemaError::InvalidPositionAnnotation { field: r.name }
    }
}

/// Reads each field's declared position, in declaration order. Fails on the
/// first field without a valid annotation: `MissingPositionAnnotation` when
/// the annotation is absent, `InvalidPositionAnnotation` when its payload
/// does not parse as a position.
pub fn extract_field_specs(raw: &Vec<RawField>) -> (out: Result<Vec<FieldSpec>, SchemaError>)
    ensures
        match out {
            Ok(fields) => {
                &&& forall|k: int| 0 <= k < raw@.len() ==> spec_raw_field_ok(#[trigger] raw@[k])
                &&& fields@.len() == raw@.len()
                &&& forall|k: int|
                    0 <= k < raw@.len() ==> (#[trigger] fields@[k]).name == raw@[k].name
                        && fields@[k].position == spec_raw_position(raw@[k])
            },
            Err(e) => exists|k: int|
                0 <= k < raw@.len() && !spec_raw_field_ok(#[trigger] raw@[k]) && (forall|j: int|
                    0 <= j < k ==> spec_raw_field_ok(#[trigger] raw@[j])) && e == spec_field_error(
                    raw@[k],
                ),
        },
{
    let mut fields: Vec<FieldSpec> = Vec::new();
    let mut k: usize = 0;
    while k < raw.len()
        invariant
            k <= raw@.len(),
            fields@.len() == k,
            forall|j: int| 0 <= j < k ==> spec_raw_field_ok(#[trigger] raw@[j]),
            forall|j: int|
                0 <= j < k ==> (#[trigger] fields@[j]).name == raw@[j].name
                    && fields@[j].position == spec_raw_position(raw@[j]),
        decreases raw@.len() - k,
    {
        let rf = &raw[k];
        match &rf.annotation {
            None => {
                return Err(SchemaError::MissingPositionAnnotation { field: rf.name.clone() });
            },
            Some(a) => {
                match parse_position(a.as_str()) {
                    Some(p) => {
                        fields.push(FieldSpec { name: rf.name.clone(), position: p });
                    },
                    None => {
                        return Err(
                            SchemaError::InvalidPositionAnnotation { field: rf.name.clone() },
                        );
                    },
                }
            },
        }
        k = k + 1;
    }
    Ok(fields)
}

/// The greatest position any field declares; 0 when there are no fields.
pub open spec fn spec_max_position(fields: Seq<FieldSpec>) -> int
    decreases fields.len(),
{
    if fields.len() == 0 {
        0
    } else {
        let rest = spec_max_position(fields.drop_last());
        if fields.last().position as int >= rest {
            fields.last().position as int
        } else {
            rest
        }
    }
}

/// Every declared position is at most the maximum, the maximum fits in
/// `usize`, and a non-empty field list attains it.
pub proof fn lemma_max_position(fields: Seq<FieldSpec>)
    ensures
        0 <= spec_max_position(fields) <= usize::MAX,
        forall|k: int|
            0 <= k < fields.len() ==> (#[trigger] fields[k]).position <= spec_max_position(fields),
        fields.len() > 0 ==> exists|k: int|
            0 <= k < fields.len() && (#[trigger] fields[k]).position == spec_max_position(fields),
    decreases fields.len(),
{
    if fields.len() > 0 {
        let rest = fields.drop_last();
        lemma_max_position(rest);
        assert(forall|k: int| 0 <= k < rest.len() ==> rest[k] == fields[k]);
        if fields.last().position as int >= spec_max_position(rest) {
            assert(fields[fields.len() - 1].position == spec_max_position(fields));
        } else {
            let k = choose|k: int|
                0 <= k < rest.len() && (#[trigger] rest[k]).position == spec_max_position(rest);
            assert(fields[k].position == spec_max_position(fields));
        }
    }
}

/// The immutable per-record-type schema: the declared fields in declaration
/// order, and the derived greatest position any of them reads.
pub struct RecordSchema {
    pub fields: Vec<FieldSpec>,
    pub max_position: usize,
}

impl RecordSchema {
    /// Well-formed: `max_position` is the greatest declared position, 0
    /// when the record has no fields.
    pub open spec fn wf(self) -> bool {
        self.max_position == spec_max_position(self.fields@)
    }

    /// Plans the mapping for a validated field list: keeps the fields in
    /// declaration order and derives the greatest declared position.
    pub fn new(fields: Vec<FieldSpec>) -> (s: RecordSchema)
        ensures
            s.wf(),
            s.fields == fields,
    {
        let mut m: usize = 0;
        let mut k: usize = 0;
        while k < fields.len()
            invariant
                k <= fields@.len(),
                m == spec_max_position(fields@.take(k as int)),
            decreases fields@.len() - k,
        {
            proof {
                assert(fields@.take(k as int + 1).drop_last() =~= fields@.take(k as int));
                assert(fields@.take(k as int + 1).last() == fields@[k as int]);
            }
            let p = fields[k].position;
            if p > m {
                m = p;
            }
            k = k + 1;
        }
        proof {
            assert(fields@.take(fields@.len() as int) =~= fields@);
        }
        RecordSchema { fields, max_position: m }
    }

    /// The minimum input length the schema demands: one more than the
    /// greatest declared position. A record with no fields keeps the same
    /// convention and so demands an input of at least one element.
    pub fn min_required_len(&self) -> (n: usize)
        requires
            self.max_position < usize::MAX,
        ensures
            n == self.max_position + 1,
    {
        self.max_position + 1
    }
}

/// Registers a record type: validates every field's annotation and plans
/// the schema. This runs once per record type; decode calls reuse the
/// schema unchanged.
pub fn build_schema(raw: &Vec<RawField>) -> (out: Result<RecordSchema, SchemaError>)
    ensures
        match out {
            Ok(s) => {
                &&& s.wf()
                &&& s.fields@.len() == raw@.len()
                &&& forall|k: int| 0 <= k < raw@.len() ==> spec_raw_field_ok(#[trigger] raw@[k])
                &&& forall|k: int|
                    0 <= k < raw@.len() ==> (#[trigger] s.fields@[k]).name == raw@[k].name
                        && s.fields@[k].position == spec_raw_position(raw@[k])
            },
            Err(e) => exists|k: int|
                0 <= k < raw@.len() && !spec_raw_field_ok(#[trigger] raw@[k]) && (forall|j: int|
                    0 <= j < k ==> spec_raw_field_ok(#[trigger] raw@[j])) && e == spec_field_error(
                    raw@[k],
                ),
        },
{
    match extract_field_specs(raw) {
        Ok(fields) => Ok(RecordSchema::new(fields)),
        Err(e) => Err(e),
    }
}

/// The description of a registration failure.
pub open spec fn spec_schema_message(e: SchemaError) -> Seq<char> {
    match e {
        SchemaError::MissingPositionAnnotation { field } => "field `"@ + field@
            + "` is missing a position annotation"@,
        SchemaError::InvalidPositionAnnotation { field } => "invalid position annotation for field `"@
            + field@ + "`"@,
    }
}

impl SchemaError {
    /// Renders the failure for callers.
    pub fn message(&self) -> (m: String)
        ensures
            m@ == spec_schema_message(*self),
    {
        match self {
            SchemaError::MissingPositionAnnotation { field } => {
                let mut m = "field `".to_owned();
                m.append(field.as_str());
                m.append("` is missing a position annotation");
                m
            },
            SchemaError::InvalidPositionAnnotation { field } => {
                let mut m = "invalid position annotation for field `".to_owned();
                m.append(field.as_str());
                m.append("`");
                m
            },
        }
    }
}

} // verus!
