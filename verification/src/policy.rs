//! How the schema and the type text of a slot are extracted.
//!
//! The policy is fixed for each kind of slot and is the same for every
//! endpoint, so that the documents of the registry agree with each other:
//! path parameters are never null and never optional; a query and a payload
//! may be null and may be left out; an output may be null and is never
//! left out. Inputs are described as they are decoded, the output as it is
//! encoded.

use vstd::prelude::*;

verus! {

/// The four kinds of slot.
#[derive(Debug, Clone, Copy, PartialEq, Eq, Structural)]
pub enum SlotKind {
    Params,
    Query,
    Payload,
    Output,
}

/// Whether a type is described as it is encoded or as it is decoded.
#[derive(Debug, Clone, Copy, PartialEq, Eq, Structural)]
pub enum ShapeOptionsKind {
    Serialize,
    Deserialize,
}

/// How the type text of a slot is written.
#[derive(Debug, Clone, Copy, PartialEq, Eq, Structural)]
pub struct ShapeOptions {
    pub kind: ShapeOptionsKind,
    /// An optional value may be `null`.
    pub option_add_null: bool,
    /// An optional value may be `undefined`.
    pub option_add_undefined: bool,
    /// The member of an optional value may be left out.
    pub option_is_optional: bool,
}

/// How the schema of a slot is generated.
#[derive(Debug, Clone, Copy, PartialEq, Eq, Structural)]
pub struct SchemaOptions {
    pub kind: ShapeOptionsKind,
    /// An optional value has `null` among its types.
    pub option_add_null_type: bool,
    /// An optional value is marked as nullable.
    pub option_nullable: bool,
    /// Schemas of named types are written in place, not referred to.
    pub inline_subschemas: bool,
}

/// Whether a value of the slot may be null.
pub open spec fn nullable(slot: SlotKind) -> bool {
    !(slot is Params)
}

/// Whether a value of the slot may be left out.
pub open spec fn optional(slot: SlotKind) -> bool {
    slot is Query || slot is Payload
}

/// Whether the slot is described as it is encoded or as it is decoded.
pub open spec fn direction(slot: SlotKind) -> ShapeOptionsKind {
    if slot is Output {
        ShapeOptionsKind::Serialize
    } else {
        ShapeOptionsKind::Deserialize
    }
}

/// The options for the type text of a slot.
pub open spec fn spec_shape_options(slot: SlotKind) -> ShapeOptions {
    ShapeOptions {
        kind: direction(slot),
        option_add_null: nullable(slot),
        option_add_undefined: optional(slot),
        option_is_optional: optional(slot),
    }
}

/// The options for the schema of a slot.
pub open spec fn spec_schema_options(slot: SlotKind) -> SchemaOptions {
    SchemaOptions {
        kind: direction(slot),
        option_add_null_type: nullable(slot),
        option_nullable: nullable(slot),
        inline_subschemas: true,
    }
}

/// The options for the type text of path parameters.
pub fn shape_params_options() -> (r: ShapeOptions)
    ensures
        r == spec_shape_options(SlotKind::Params),
{
    ShapeOptions {
        kind: ShapeOptionsKind::Deserialize,
        option_add_null: false,
        option_add_undefined: false,
        option_is_optional: false,
    }
}

/// The options for the type text of a query.
pub fn shape_query_options() -> (r: ShapeOptions)
    ensures
        r == spec_shape_options(SlotKind::Query),
{
    ShapeOptions {
        kind: ShapeOptionsKind::Deserialize,
        option_add_null: true,
        option_add_undefined: true,
        option_is_optional: true,
    }
}

/// The options for the type text of a payload.
pub fn shape_payload_options() -> (r: ShapeOptions)
    ensures
        r == spec_shape_options(SlotKind::Payload),
{
    ShapeOptions {
        kind: ShapeOptionsKind::Deserialize,
        option_add_null: true,
        option_add_undefined: true,
        option_is_optional: true,
    }
}

/// The options for the type text of an output, and of the error payload.
pub fn shape_output_options() -> (r: ShapeOptions)
    ensures
        r == spec_shape_options(SlotKind::Output),
{
    ShapeOptions {
        kind: ShapeOptionsKind::Serialize,
        option_add_null: true,
        option_add_undefined: false,
        option_is_optional: false,
    }
}

/// The options for the schema of a slot.
pub fn schema_options(slot: SlotKind) -> (r: SchemaOptions)
    ensures
        r == spec_schema_options(slot),
{
    match slot {
        SlotKind::Params => SchemaOptions {
            kind: ShapeOptionsKind::Deserialize,
            option_add_null_type: false,
            option_nullable: false,
            inline_subschemas: true,
        },
        SlotKind::Query | SlotKind::Payload => SchemaOptions {
            kind: ShapeOptionsKind::Deserialize,
            option_add_null_type: true,
            option_nullable: true,
            inline_subschemas: true,
        },
        SlotKind::Output => SchemaOptions {
            kind: ShapeOptionsKind::Serialize,
            option_add_null_type: true,
            option_nullable: true,
            inline_subschemas: true,
        },
    }
}

} // verus!
