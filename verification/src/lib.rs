//! A typed persistence and schema-migration core.
//!
//! The library turns a declared object model (named types with typed,
//! labeled fields) into relational DDL and DML text, converts between a
//! structured value and bound statement parameters, and drives a
//! forward-only streaming read as a verified state machine.  Statement
//! execution, connection pooling and transactions are the embedding
//! application's concern: the library hands it finished statement text
//! plus parameters and consumes the plain values it gets back.

use vstd::prelude::*;

pub mod codec;
pub mod engine;
pub mod error;
pub mod laws;
pub mod migrate;
pub mod stream;
pub mod text;
pub mod types;
pub mod value;

verus! {

/// Checks a version name handed in by a caller: a version name must not
/// be empty.  Returns the name unchanged when it is acceptable.
pub fn parse_version(version: &str) -> (r: Result<String, String>)
    ensures
        r is Ok <==> version@.len() > 0,
        r is Ok ==> r->Ok_0@ == version@,
{
    if version.is_empty() {
        Err(String::from_str("version name can't be empty"))
    } else {
        Ok(version.to_owned())
    }
}

} // verus!

