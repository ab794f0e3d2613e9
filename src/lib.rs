//! A complete serialization tree for serde's data model.
//!
//! [`Save`] records every detail of the data model: struct names, field
//! names, skipped fields, and enum variant information. The builders of
//! [`Serializer`] check that a value obeys the serde protocol (declared
//! lengths, unique field names) and either stop at the first error
//! ([`ShortCircuit`]) or keep every error in the tree ([`Persist`]).
//!
//! Each builder takes what serializing a nested value gave, so the nesting
//! is driven from outside; [`replay`] drives it from a tree, and gives a
//! reproducible tree back unchanged.
//!
//! Capturing and replaying recurse once for each level of nesting, so the
//! depth of a tree is bounded by the call stack.
mod message;
mod replay;
mod save;
mod sealed;
mod ser;

pub use message::{decimal, decimal_text, digit, duplicates_message, jagged_message, joined, length_message};
pub use replay::{
    all_reproducible, fields_reproducible, lemma_round_trip, pairs_reproducible, prepend,
    prepend_entries, replay, replayed, replayed_all, replayed_entries, replayed_fields,
    reproducible,
};
pub use save::{
    field_of, fields_of, pairs_of, tree_of, trees_of, unskipped_fields, Error, ErrorModel,
    ErrorPayload, Save, Tree, Variant, VariantModel,
};
pub use ser::{
    duplicates, error_field_name, handled, hint_checked, hint_len, length_checked, lemma_disciplines,
    map_checked, names_of, outcome, paired, persisted, protocol_error, status, struct_checked,
    zipped, Config, ErrorDiscipline, Persist, SerializeMap, SerializeSeq, SerializeStruct,
    SerializeStructVariant, SerializeTuple, SerializeTupleStruct, SerializeTupleVariant,
    Serializer, ShortCircuit,
};
