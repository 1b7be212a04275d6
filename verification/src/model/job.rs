//! Jobs, which some BMCs run in place of tasks.

use vstd::prelude::*;

use super::task::Task;
use super::{clone_opt_string, text_or_empty, ODataLinks};

verus! {

/// A "Job" is very similar to a "Task"; the library hands it out as a `Task`.
#[derive(Debug)]
pub struct Job {
    pub odata: ODataLinks,
    pub id: Option<String>,
    pub name: Option<String>,
    pub percent_complete: Option<u32>,
    pub job_state: Option<String>,
}

impl Job {
    /// The job as a task: same annotations, name, state and progress, the id
    /// or the empty string, no status, no monitor and an empty message list.
    pub fn as_task(&self) -> (t: Task)
        ensures
            t.odata == self.odata,
            t.id@ == text_or_empty(self.id),
            t.messages matches Some(m) && m@.len() == 0,
            t.name == self.name,
            t.task_state == self.job_state,
            t.task_status is None,
            t.task_monitor is None,
            t.percent_complete == self.percent_complete,
    {
        let id = match &self.id {
            Some(i) => i.clone(),
            None => String::new(),
        };
        Task {
            odata: self.odata.duplicate(),
            id,
            messages: Some(Vec::new()),
            name: clone_opt_string(&self.name),
            task_state: clone_opt_string(&self.job_state),
            task_status: None,
            task_monitor: None,
            percent_complete: self.percent_complete,
        }
    }
}

} // verus!
