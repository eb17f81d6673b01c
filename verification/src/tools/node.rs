//! Node.js: recorded in `.node-config`, recognized by `node.exe`, with its
//! executables in the root itself.

use vstd::prelude::*;
use crate::config::DevEnvManager;
use crate::flow::{Flow, FlowView, Purpose, PurposeView};
use crate::request::Step;
pub use crate::tools::EnvironmentConfig;
use crate::tools::{find, probed, Tool};

verus! {

/// Starts the setup of Node.js: the recorded location is used where there
/// is a valid one; else the well-known locations are tried, and then the
/// operator is asked.
pub fn setup(manager: &DevEnvManager) -> (r: (Flow, Step))
    ensures
        r@ == FlowView::begin(manager.config_dir@, PurposeView::Setup(Tool::NodeJs)),
{
    Flow::begin(manager, Purpose::Setup(Tool::NodeJs))
}

/// Picks the installation of Node.js among its well-known roots, given for
/// each of them, in order, whether `node.exe` exists there: the first root
/// where it does.
pub fn find_node(manager: &DevEnvManager, flags: &Vec<bool>) -> (r: Option<EnvironmentConfig>)
    ensures
        r.deep_view() == probed(Tool::NodeJs, manager.config_dir@, flags@),
{
    find(Tool::NodeJs, manager, flags)
}

} // verus!
