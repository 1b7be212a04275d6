//! Resources of a manager (the BMC itself).

use vstd::prelude::*;

use crate::model::{ODataId, ODataLinks};

verus! {

#[derive(Debug, Clone)]
pub struct ActionsManagerReset {
    pub target: String,
}

#[derive(Debug, Clone)]
pub struct Action {
    pub manager_reset: ActionsManagerReset,
}

#[derive(Debug, Clone)]
pub struct Availableaction {
    pub action: String,
}

/// The command shell (serial console) service of a manager.
#[derive(Debug, Clone)]
pub struct Commandshell {
    pub connect_types_supported: Vec<String>,
    pub enabled: Option<bool>,
    pub max_concurrent_sessions: i64,
    pub service_enabled: bool,
}

#[derive(Debug, Clone)]
pub struct Status {
    pub state: String,
}

/// The collection of managers.
#[derive(Debug)]
pub struct Managers {
    pub odata: ODataLinks,
    pub description: String,
    pub members: Vec<ODataId>,
    pub name: String,
}

} // verus!
