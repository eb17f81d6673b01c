//! MinGW64: recorded in `.mingw64-config`, recognized by `bin\gcc.exe`,
//! with its executables in `bin` under the root.

use vstd::prelude::*;
use crate::config::DevEnvManager;
use crate::flow::{Flow, FlowView, Purpose, PurposeView};
use crate::request::Step;
pub use crate::tools::EnvironmentConfig;
use crate::tools::{find, probed, Tool};

verus! {

/// Starts the setup of MinGW64: the recorded location is used where there
/// is a valid one; else the well-known locations are tried, and then the
/// operator is asked.
pub fn setup(manager: &DevEnvManager) -> (r: (Flow, Step))
    ensures
        r@ == FlowView::begin(manager.config_dir@, PurposeView::Setup(Tool::MinGW64)),
{
    Flow::begin(manager, Purpose::Setup(Tool::MinGW64))
}

/// Picks the installation of MinGW64 among its well-known roots, given for
/// each of them, in order, whether `bin\gcc.exe` exists there: the first
/// root where it does.
pub fn find_mingw(manager: &DevEnvManager, flags: &Vec<bool>) -> (r: Option<EnvironmentConfig>)
    ensures
        r.deep_view() == probed(Tool::MinGW64, manager.config_dir@, flags@),
{
    find(Tool::MinGW64, manager, flags)
}

} // verus!
