//! What every PostgreSQL operation needs first: a location of PostgreSQL
//! on record.

use vstd::prelude::*;
use crate::text::{owned, result_text};
use crate::tools::{ConfigView, EnvironmentConfig, Tool};

verus! {

/// What is said where PostgreSQL has no location on record.
pub const NOT_CONFIGURED: &'static str =
    "PostgreSQL no configurado\nEjecuta: devenv --setup-postgres\n";

/// The mathematical content of what [`run_with_config`] returns.
pub open spec fn outcome_view(r: Result<EnvironmentConfig, String>) -> Result<ConfigView, Seq<char>> {
    match r {
        Ok(config) => Ok(config@),
        Err(notice) => Err(notice@),
    }
}

/// The configuration that the recorded location `record` gives, or the
/// notice that there is none.
pub open spec fn configuration(record: Option<Seq<char>>) -> Result<ConfigView, Seq<char>> {
    match record {
        Some(root) => Ok(Tool::PostgreSQL.config_at(root)),
        None => Err(NOT_CONFIGURED@),
    }
}

/// The configuration under which a PostgreSQL operation runs, given the
/// location on record: its executables are in `bin` under that location.
/// With nothing on record there is none, and the error is the notice that
/// names the command that sets PostgreSQL up.
pub fn run_with_config(record: Option<String>) -> (r: Result<EnvironmentConfig, String>)
    ensures
        outcome_view(r) == configuration(record.deep_view()),
        r is Ok <==> record is Some,
{
    match record {
        Some(root) => Ok(Tool::PostgreSQL.configure(root)),
        None => Err(owned(NOT_CONFIGURED)),
    }
}

} // verus!
