use vstd::prelude::*;

use crate::workflow::prompt::Prompt;

verus! {

/// Struct representing an image preview.
#[derive(Debug, PartialEq)]
pub struct Preview(pub Vec<u8>);

/// Struct representing a progress update.
#[derive(Debug, Clone, Copy, PartialEq)]
pub struct Progress {
    /// The current progress value.
    pub value: u64,
    /// The maximum progress value.
    pub max: u64,
}

/// Struct representing execution information.
#[derive(Debug, Clone, Copy, PartialEq)]
pub struct ExecInfo {
    /// Number of items remaining in the queue.
    pub queue_remaining: u64,
}

/// Struct representing a status update.
#[derive(Debug, Clone, Copy, PartialEq)]
pub struct Status {
    /// The current status.
    pub exec_info: ExecInfo,
}

/// Struct representing an execution start update.
#[derive(Debug, Clone, Copy, PartialEq)]
pub struct ExecutionStart {
    /// The prompt id, as the 128-bit value of its uuid.
    pub prompt_id: u128,
}

/// Struct representing an execution cached update.
#[derive(Debug, PartialEq)]
pub struct ExecutionCached {
    /// The prompt id, as the 128-bit value of its uuid.
    pub prompt_id: u128,
    /// The ids of the nodes that were cached.
    pub nodes: Vec<String>,
}

/// Struct representing an executing update.
#[derive(Debug, PartialEq)]
pub struct Executing {
    /// The prompt id, as the 128-bit value of its uuid; absent when the
    /// server sends none.
    pub prompt_id: Option<u128>,
    /// The node that is executing; `None` once the prompt has finished.
    pub node: Option<String>,
}

/// Struct representing an image.
#[derive(Debug, PartialEq)]
pub struct Image {
    /// The filename of the image.
    pub filename: String,
    /// The subfolder.
    pub subfolder: String,
    /// The folder type.
    pub folder_type: String,
}

impl Clone for Image {
    fn clone(&self) -> (r: Self)
        ensures
            r == *self,
    {
        Image {
            filename: self.filename.clone(),
            subfolder: self.subfolder.clone(),
            folder_type: self.folder_type.clone(),
        }
    }
}

/// Struct representing an output.
#[derive(Debug, PartialEq)]
pub struct Output {
    /// A list of images.
    pub images: Vec<Image>,
}

/// Struct representing an executed update.
#[derive(Debug, PartialEq)]
pub struct Executed {
    /// The prompt id, as the 128-bit value of its uuid.
    pub prompt_id: u128,
    /// The node that was executed.
    pub node: String,
    /// The output of the node.
    pub output: Output,
}

/// Struct representing an execution interrupted update.
#[derive(Debug, PartialEq)]
pub struct ExecutionInterrupted {
    /// The prompt id, as the 128-bit value of its uuid.
    pub prompt_id: u128,
    /// The node that was executing.
    pub node_id: String,
    /// The type of the node.
    pub node_type: String,
    /// What was executed prior to interruption.
    pub executed: Vec<String>,
}

/// Struct representing an execution error update.
#[derive(Debug, PartialEq)]
pub struct ExecutionError {
    /// The state of execution that was interrupted.
    pub execution_status: ExecutionInterrupted,
    /// The exception message.
    pub exception_message: String,
    /// The exception type.
    pub exception_type: String,
    /// The traceback.
    pub traceback: Vec<String>,
    /// The current inputs, by input name, each as JSON text.
    pub current_inputs: Vec<(String, String)>,
    /// The current outputs, by node id, each as a list of JSON texts.
    pub current_outputs: Vec<(String, Vec<String>)>,
}

/// Enum of possible update variants.
#[derive(Debug, PartialEq)]
pub enum Update {
    /// Enum variant representing a status update.
    Status { status: Status },
    /// Enum variant representing a progress update.
    Progress(Progress),
    /// Enum variant representing an execution start update.
    ExecutionStart(ExecutionStart),
    /// Enum variant representing an executing update.
    Executing(Executing),
    /// Enum variant representing an executed update.
    Executed(Executed),
    /// Enum variant representing an execution cached update.
    ExecutionCached(ExecutionCached),
    /// Enum variant representing an execution interrupted update.
    ExecutionInterrupted(ExecutionInterrupted),
    /// Enum variant representing an execution error update.
    ExecutionError(ExecutionError),
}

/// An enum representing a websocket message.
#[derive(Debug, PartialEq)]
pub enum PreviewOrUpdate {
    /// Enum variant representing an image preview.
    Preview(Preview),
    /// Enum variant representing an update.
    Update(Update),
}

/// Struct representing image outputs from a node.
#[derive(Debug, PartialEq)]
pub struct NodeOutput {
    /// Images from the node.
    pub images: Vec<Image>,
}

/// Enumeration of all possible output types from a node.
#[derive(Debug, PartialEq)]
pub enum NodeOutputOrUnknown {
    /// Enum variant representing image outputs from a node.
    NodeOutput(NodeOutput),
    /// Unknown outputs, as JSON text.
    Unknown(String),
}

/// Struct representing outputs from a task.
#[derive(Debug, PartialEq)]
pub struct Outputs {
    /// Outputs from the task, by node id.
    pub nodes: Vec<(String, NodeOutputOrUnknown)>,
}

/// Struct representing extra data about prompt execution.
#[derive(Debug, Clone, Copy, PartialEq)]
pub struct ExtraData {
    /// The client id that performed the request, as the 128-bit value of its uuid.
    pub client_id: u128,
}

/// Struct representing outputs to execute for a prompt.
#[derive(Debug, PartialEq)]
pub struct OutputsToExecute {
    /// List of nodes which have outputs.
    pub nodes: Vec<String>,
}

/// Struct representing a prompt result.
#[derive(Debug, PartialEq)]
pub struct PromptResult {
    /// The task number.
    pub num: u64,
    /// The task id, as the 128-bit value of its uuid.
    pub id: u128,
    /// The prompt that was executed.
    pub prompt: Prompt,
    /// Extra data about execution.
    pub extra_data: ExtraData,
    /// Outputs executed for this prompt.
    pub outputs_to_execute: OutputsToExecute,
}

impl PromptResult {
    /// Builds a prompt result from the tuple the history endpoint sends.
    pub fn from_parts(parts: (u64, u128, Prompt, ExtraData, OutputsToExecute)) -> (r: Self)
        ensures
            r.num == parts.0,
            r.id == parts.1,
            r.prompt == parts.2,
            r.extra_data == parts.3,
            r.outputs_to_execute == parts.4,
    {
        let (num, id, prompt, extra_data, outputs_to_execute) = parts;
        PromptResult { num, id, prompt, extra_data, outputs_to_execute }
    }

    /// The tuple the history endpoint sends for this prompt result.
    pub fn into_parts(self) -> (r: (u64, u128, Prompt, ExtraData, OutputsToExecute))
        ensures
            r.0 == self.num,
            r.1 == self.id,
            r.2 == self.prompt,
            r.3 == self.extra_data,
            r.4 == self.outputs_to_execute,
    {
        (self.num, self.id, self.prompt, self.extra_data, self.outputs_to_execute)
    }
}

/// Struct representing a single task result from the ComfyUI API `history` endpoint.
#[derive(Debug, PartialEq)]
pub struct Task {
    /// Outputs from the task.
    pub outputs: Outputs,
    /// Information about prompt execution.
    pub prompt: PromptResult,
}

/// Struct containing task results from the ComfyUI API `history` endpoint.
#[derive(Debug, PartialEq)]
pub struct History {
    /// Completed tasks, each with the 128-bit value of its uuid; no id
    /// occurs twice.
    pub tasks: Vec<(u128, Task)>,
}

/// Whether the id `id` is among the first `n` tasks.
pub open spec fn has_task(tasks: Seq<(u128, Task)>, id: u128) -> bool {
    exists|i: int| 0 <= i < tasks.len() && (#[trigger] tasks[i]).0 == id
}

impl History {
    /// Takes out the task of prompt `prompt_id`; `None` when there is none.
    pub fn take_task(&mut self, prompt_id: u128) -> (r: Option<Task>)
        ensures
            r is Some <==> has_task(old(self).tasks@, prompt_id),
            r matches Some(t) ==> exists|i: int| 0 <= i < old(self).tasks@.len() && old(self).tasks@[i] == (prompt_id, t)
                && final(self).tasks@ == old(self).tasks@.remove(i),
            r is None ==> final(self).tasks@ == old(self).tasks@,
    {
        let mut i: usize = 0;
        while i < self.tasks.len()
            invariant
                i <= self.tasks.len(),
                self.tasks@ == old(self).tasks@,
                forall|j: int| 0 <= j < i ==> (#[trigger] self.tasks@[j]).0 != prompt_id,
            decreases self.tasks.len() - i,
        {
            if self.tasks[i].0 == prompt_id {
                let (_, t) = self.tasks.remove(i);
                return Some(t);
            }
            i += 1;
        }
        None
    }
}

/// Struct representing an uploaded image.
#[derive(Debug, PartialEq)]
pub struct ImageUpload {
    /// The filename of the image.
    pub name: String,
    /// The subfolder.
    pub subfolder: String,
    /// The folder type.
    pub folder_type: String,
}

} // verus!
