//! A structural transformer for record-type definitions.
//!
//! Given the definition of a struct whose fields carry attribute lists, the
//! library rewrites the definition so that every named field carries a
//! `default_value_t = <expression>` argument inside its configuration
//! attribute, with the default expression resolved by field name from a
//! caller-supplied table. The rewritten definition can then be serialized
//! back to source text for a downstream argument-parser generator.

use vstd::prelude::*;

pub mod emit;
pub mod errors;
pub mod laws;
pub mod merge;
pub mod model;
pub mod table;

use vstd::string::StringExecFns;

use crate::errors::{TransformError, TransformErrorV};
use crate::merge::spec_transform;
use crate::model::TypeDef;
use crate::table::{DefaultTable, TableEntryV};

verus! {

/// The identifier of the configuration attribute that carries parser
/// arguments on a field; the merger both scans for it and creates it.
pub open spec fn spec_marker() -> Seq<char> {
    "arg"@
}

/// The built-in default-expression table: `bar` defaults to
/// `String::from("bar")` and `baz` to `0`.
pub open spec fn spec_default_table() -> Seq<TableEntryV> {
    seq![
        TableEntryV { name: "bar"@, expr: "String::from(\"bar\")"@ },
        TableEntryV { name: "baz"@, expr: "0"@ },
    ]
}

/// Builds the built-in table, as [`spec_default_table`] states.
pub fn default_table() -> (r: DefaultTable)
    ensures
        r@ == spec_default_table(),
{
    let mut t = DefaultTable::new();
    t.insert(String::from_str("bar"), String::from_str("String::from(\"bar\")"));
    t.insert(String::from_str("baz"), String::from_str("0"));
    proof {
        assert(t@ =~= spec_default_table());
    }
    t
}

/// The whole pipeline over one definition: merges a default-value
/// argument into every field, resolving defaults from the built-in
/// table, and serializes the transformed definition back to source
/// text; any failure of the pass is reported instead, with no output.
pub fn gen_struct(def: TypeDef) -> (r: Result<String, TransformError>)
    ensures
        match r {
            Ok(s) => spec_transform(spec_default_table(), def@) is Ok && s@ == crate::emit::spec_emit(
                spec_transform(spec_default_table(), def@)->Ok_0,
            ),
            Err(e) => spec_transform(spec_default_table(), def@) == Err::<
                crate::model::TypeDefV,
                TransformErrorV,
            >(e@),
        },
{
    let table = default_table();
    match crate::merge::transform(&table, def) {
        Err(e) => Err(e),
        Ok(d) => Ok(crate::emit::emit(&d)),
    }
}

} // verus!
