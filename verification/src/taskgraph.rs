//! The jump to the page that draws a task graph.

use vstd::prelude::*;
use crate::text::push_text;
use crate::ToolItem;

verus! {

/// The kind of flow whose graph is drawn.
#[derive(Clone, Copy, Debug, PartialEq, Eq, Structural)]
pub enum GraphType {
    ReproduceTask,
    RetestTask,
    ReproduceResult,
    RetestResult,
    TaskTrigger,
}

impl GraphType {
    /// The name of the kind in the address of the page.
    pub open spec fn spec_name(self) -> Seq<char> {
        match self {
            GraphType::ReproduceTask => "task_reproduce"@,
            GraphType::RetestTask => "task_retest"@,
            GraphType::ReproduceResult => "result_reproduce"@,
            GraphType::RetestResult => "result_retest"@,
            GraphType::TaskTrigger => "trigger_task"@,
        }
    }

    /// The name of the kind in the address of the page.
    pub fn as_str(&self) -> (r: &'static str)
        ensures
            r@ == self.spec_name(),
    {
        match self {
            GraphType::ReproduceTask => "task_reproduce",
            GraphType::RetestTask => "task_retest",
            GraphType::ReproduceResult => "result_reproduce",
            GraphType::RetestResult => "result_retest",
            GraphType::TaskTrigger => "trigger_task",
        }
    }
}

/// The address of the page that draws the graph of kind `graph_type` for the run
/// `exec_id`. The run's id stands in the address as it was entered.
pub open spec fn graph_url(graph_type: GraphType, exec_id: Seq<char>) -> Seq<char> {
    "https://aip.nioint.com/api/issue-sim-beta/v1/taskgraph/render?type="@
        + graph_type.spec_name() + "&exec_id="@ + exec_id + "&redirect=true"@
}

/// The state of the jump to a task graph: the kind of flow and the id of the run.
pub struct TaskGraphJump {
    graph_type: GraphType,
    exec_id: String,
}

impl TaskGraphJump {
    /// The kind of flow chosen.
    pub closed spec fn spec_graph_type(&self) -> GraphType {
        self.graph_type
    }

    /// The id of the run, as a sequence of characters.
    pub closed spec fn spec_exec_id(&self) -> Seq<char> {
        self.exec_id@
    }

    /// The kind of flow chosen.
    pub fn graph_type(&self) -> (r: GraphType)
        ensures
            r == self.spec_graph_type(),
    {
        self.graph_type
    }

    /// The id of the run.
    pub fn exec_id(&self) -> (r: &str)
        ensures
            r@ == self.spec_exec_id(),
    {
        self.exec_id.as_str()
    }

    /// Chooses the kind of flow.
    pub fn set_graph_type(&mut self, graph_type: GraphType)
        ensures
            final(self).spec_graph_type() == graph_type,
            final(self).spec_exec_id() == old(self).spec_exec_id(),
    {
        self.graph_type = graph_type;
    }

    /// Replaces the id of the run.
    pub fn set_exec_id(&mut self, exec_id: String)
        ensures
            final(self).spec_exec_id() == exec_id@,
            final(self).spec_graph_type() == old(self).spec_graph_type(),
    {
        self.exec_id = exec_id;
    }

    /// The address to open for the kind and the run chosen.
    pub fn url(&self) -> (r: String)
        ensures
            r@ == graph_url(self.spec_graph_type(), self.spec_exec_id()),
    {
        let mut out = String::new();
        push_text(&mut out, "https://aip.nioint.com/api/issue-sim-beta/v1/taskgraph/render?type=");
        push_text(&mut out, self.graph_type.as_str());
        push_text(&mut out, "&exec_id=");
        push_text(&mut out, self.exec_id.as_str());
        push_text(&mut out, "&redirect=true");
        out
    }
}

impl ToolItem for TaskGraphJump {
    open spec fn spec_name(&self) -> Seq<char> {
        "任务图快速跳转"@
    }

    open spec fn spec_description(&self) -> Seq<char> {
        "通过 id 快速打开任务图页面"@
    }

    fn name(&self) -> (r: &str) {
        "任务图快速跳转"
    }

    fn description(&self) -> (r: &str) {
        "通过 id 快速打开任务图页面"
    }
}

impl Default for TaskGraphJump {
    /// The tool as it opens: the graph of a task of reproduction, and no id.
    fn default() -> (r: Self)
        ensures
            r.spec_graph_type() == GraphType::ReproduceTask,
            r.spec_exec_id() == Seq::<char>::empty(),
    {
        TaskGraphJump { graph_type: GraphType::ReproduceTask, exec_id: String::new() }
    }
}

} // verus!
