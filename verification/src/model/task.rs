//! Tasks the Redfish task service runs, and the messages it returns.

use vstd::prelude::*;

use super::ODataLinks;

verus! {

/// http://redfish.dmtf.org/schemas/v1/Task.v1_7_1.json
#[derive(Debug)]
pub struct Task {
    pub odata: ODataLinks,
    pub id: String,
    pub messages: Option<Vec<Message>>,
    pub name: Option<String>,
    pub task_state: Option<String>,
    pub task_status: Option<String>,
    pub task_monitor: Option<String>,
    pub percent_complete: Option<u32>,
}

/// https://redfish.dmtf.org/schemas/v1/Message.v1_1_2.json
#[derive(Debug, Clone)]
pub struct Message {
    pub message: String,
    pub message_args: Option<Vec<String>>,
    pub message_id: String,
    pub resolution: Option<String>,
    pub severity: Option<String>,
}

} // verus!
