//! PostgreSQL: recorded in `.postgres-config`, recognized by
//! `bin\postgres.exe`, with its executables in `bin` under the root.

use vstd::prelude::*;
use crate::config::DevEnvManager;
use crate::flow::{Flow, FlowView, Purpose, PurposeView};
use crate::request::Step;
pub use crate::tools::EnvironmentConfig;
use crate::tools::{find, probed, Tool};

verus! {

/// Starts the setup of PostgreSQL: the recorded location is used where
/// there is a valid one; else the well-known locations are tried, and then
/// the operator is asked.
pub fn setup(manager: &DevEnvManager) -> (r: (Flow, Step))
    ensures
        r@ == FlowView::begin(manager.config_dir@, PurposeView::Setup(Tool::PostgreSQL)),
{
    Flow::begin(manager, Purpose::Setup(Tool::PostgreSQL))
}

/// Picks the installation of PostgreSQL among its well-known roots, given
/// for each of them, in order, whether `bin\postgres.exe` exists there:
/// the first root where it does.
pub fn find_postgres(manager: &DevEnvManager, flags: &Vec<bool>) -> (r: Option<EnvironmentConfig>)
    ensures
        r.deep_view() == probed(Tool::PostgreSQL, manager.config_dir@, flags@),
{
    find(Tool::PostgreSQL, manager, flags)
}

} // verus!
