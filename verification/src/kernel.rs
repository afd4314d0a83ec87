//! Kernel orchestration: the capability graph plus a FIFO scheduler of
//! bundle tasks, and the syscall surface bundles use.

use vstd::prelude::*;
use crate::capgraph::{
    label_chars, BundleId, EdgeId, EdgeView, Graph, GraphError, GraphView, NodeId, NodePattern, PropMap,
    WatchEvent, WatchId, WatchReason, opt_chars,
};

verus! {

/// Unique identifier for kernel-managed tasks.
#[derive(Debug, Clone, Copy, PartialEq, Eq, Structural, Hash, PartialOrd, Ord)]
pub struct TaskId(pub u64);

/// Execution state for a task.
#[derive(Debug, Clone, Copy, PartialEq, Eq, Structural)]
pub enum TaskState {
    Ready,
    Running,
    Sleeping,
    Blocked,
}

/// Kernel-visible task metadata.
#[derive(Debug)]
pub struct Task {
    pub id: TaskId,
    pub bundle: BundleId,
    pub state: TaskState,
    pub name: String,
}

/// What a task is: its bundle, state and name.
pub struct TaskView {
    pub bundle: u64,
    pub state: TaskState,
    pub name: Seq<char>,
}

/// The scheduler's state: task `i` has id `i`; the ready queue runs
/// front to back.
#[verifier::ext_equal]
pub struct SchedulerView {
    pub tasks: Seq<TaskView>,
    pub ready: Seq<u64>,
}

/// Minimal scheduler model: tasks in creation order and a FIFO ready
/// queue.
#[derive(Debug)]
pub struct Scheduler {
    tasks: Vec<Task>,
    ready: Vec<TaskId>,
}

impl View for Scheduler {
    type V = SchedulerView;

    closed spec fn view(&self) -> SchedulerView {
        SchedulerView {
            tasks: self.tasks@.map_values(
                |t: Task| TaskView { bundle: t.bundle.0, state: t.state, name: t.name@ },
            ),
            ready: self.ready@.map_values(|t: TaskId| t.0),
        }
    }
}

impl Scheduler {
    /// Task ids match positions.
    pub closed spec fn wf(&self) -> bool {
        forall|i: int| 0 <= i < self.tasks@.len() ==> (#[trigger] self.tasks@[i]).id.0 == i
    }

    /// An empty scheduler.
    pub fn new() -> (s: Scheduler)
        ensures
            s.wf(),
            s@.tasks == Seq::<TaskView>::empty(),
            s@.ready == Seq::<u64>::empty(),
    {
        let s = Scheduler { tasks: Vec::new(), ready: Vec::new() };
        assert(s@.tasks =~= Seq::<TaskView>::empty());
        assert(s@.ready =~= Seq::<u64>::empty());
        s
    }

    /// Number of tasks spawned so far (the next task's id).
    pub fn task_count(&self) -> (n: usize)
        ensures
            n == self@.tasks.len(),
    {
        self.tasks.len()
    }

    /// Spawn a ready task for `bundle`; it joins the back of the queue.
    pub fn spawn(&mut self, bundle: BundleId, name: &str) -> (id: TaskId)
        requires
            old(self).wf(),
        ensures
            final(self).wf(),
            id.0 == old(self)@.tasks.len(),
            final(self)@ == (SchedulerView {
                tasks: old(self)@.tasks.push(
                    TaskView { bundle: bundle.0, state: TaskState::Ready, name: name@ },
                ),
                ready: old(self)@.ready.push(id.0),
            }),
    {
        let id = TaskId(self.tasks.len() as u64);
        let task = Task { id, bundle, state: TaskState::Ready, name: String::from_str(name) };
        self.tasks.push(task);
        self.ready.push(id);
        proof {
            assert(self@.tasks =~= old(self)@.tasks.push(
                TaskView { bundle: bundle.0, state: TaskState::Ready, name: name@ },
            ));
            assert(self@.ready =~= old(self)@.ready.push(id.0));
        }
        id
    }

    fn set_state(&mut self, task_id: TaskId, state: TaskState)
        requires
            old(self).wf(),
            task_id.0 < old(self)@.tasks.len(),
        ensures
            final(self).wf(),
            final(self)@ == (SchedulerView {
                tasks: old(self)@.tasks.update(
                    task_id.0 as int,
                    TaskView { state, ..old(self)@.tasks[task_id.0 as int] },
                ),
                ..old(self)@
            }),
    {
        let n = self.tasks.len();
        assert(task_id.0 < n);
        let i = task_id.0 as usize;
        let ghost before = self.tasks@;
        self.tasks[i].state = state;
        proof {
            assert forall|j: int| 0 <= j < self.tasks@.len() && j != i implies self.tasks@[j] == before[j] by {}
            assert(self@.tasks =~= old(self)@.tasks.update(
                task_id.0 as int,
                TaskView { state, ..old(self)@.tasks[task_id.0 as int] },
            ));
        }
    }

    /// Take the task at the front of the ready queue and mark it running.
    pub fn schedule_next(&mut self) -> (r: Option<TaskId>)
        requires
            old(self).wf(),
        ensures
            final(self).wf(),
            old(self)@.ready.len() == 0 ==> r is None && final(self)@ == old(self)@,
            old(self)@.ready.len() > 0 ==> {
                let t = old(self)@.ready[0];
                &&& r == Some(TaskId(t))
                &&& final(self)@.ready == old(self)@.ready.drop_first()
                &&& t < old(self)@.tasks.len() ==> final(self)@.tasks == old(self)@.tasks.update(
                    t as int,
                    TaskView { state: TaskState::Running, ..old(self)@.tasks[t as int] },
                )
                &&& t >= old(self)@.tasks.len() ==> final(self)@.tasks == old(self)@.tasks
            },
    {
        if self.ready.len() == 0 {
            return None;
        }
        let task_id = self.ready.remove(0);
        proof {
            assert(self@.ready =~= old(self)@.ready.drop_first());
        }
        if task_id.0 < self.tasks.len() as u64 {
            self.set_state(task_id, TaskState::Running);
        }
        Some(task_id)
    }

    /// Put a known task back at the end of the ready queue, marked ready;
    /// an unknown id changes nothing.
    pub fn yield_task(&mut self, task_id: TaskId)
        requires
            old(self).wf(),
        ensures
            final(self).wf(),
            task_id.0 >= old(self)@.tasks.len() ==> final(self)@ == old(self)@,
            task_id.0 < old(self)@.tasks.len() ==> final(self)@ == (SchedulerView {
                tasks: old(self)@.tasks.update(
                    task_id.0 as int,
                    TaskView { state: TaskState::Ready, ..old(self)@.tasks[task_id.0 as int] },
                ),
                ready: old(self)@.ready.push(task_id.0),
            }),
    {
        if task_id.0 < self.tasks.len() as u64 {
            self.set_state(task_id, TaskState::Ready);
            self.ready.push(task_id);
            proof {
                assert(self@.ready =~= old(self)@.ready.push(task_id.0));
            }
        }
    }

    /// The state of a task, if it exists.
    pub fn state_of(&self, task_id: TaskId) -> (r: Option<TaskState>)
        ensures
            task_id.0 < self@.tasks.len() ==> r == Some(self@.tasks[task_id.0 as int].state),
            task_id.0 >= self@.tasks.len() ==> r is None,
    {
        if task_id.0 < self.tasks.len() as u64 {
            let t = &self.tasks[task_id.0 as usize];
            Some(t.state)
        } else {
            None
        }
    }
}

/// Kernel runtime that exposes the syscall surface to bundles.
#[derive(Debug)]
pub struct Kernel {
    graph: Graph,
    scheduler: Scheduler,
}

/// The kernel's state: its graph and scheduler.
#[verifier::ext_equal]
pub struct KernelView {
    pub graph: GraphView,
    pub scheduler: SchedulerView,
}

impl View for Kernel {
    type V = KernelView;

    closed spec fn view(&self) -> KernelView {
        KernelView { graph: self.graph@, scheduler: self.scheduler@ }
    }
}

impl Kernel {
    /// The graph and scheduler are well formed.
    pub closed spec fn wf(&self) -> bool {
        self.graph.wf() && self.scheduler.wf()
    }

    /// A kernel with an empty graph and no tasks.
    pub fn new() -> (k: Kernel)
        ensures
            k.wf(),
            k@.graph == Graph::new_view(),
            k@.scheduler.tasks == Seq::<crate::kernel::TaskView>::empty(),
            k@.scheduler.ready == Seq::<u64>::empty(),
    {
        Kernel { graph: Graph::new(), scheduler: Scheduler::new() }
    }

    /// The graph.
    pub fn graph(&self) -> (g: &Graph)
        ensures
            g@ == self@.graph,
            self.wf() ==> g.wf(),
    {
        &self.graph
    }

    /// The scheduler.
    pub fn scheduler(&self) -> (s: &Scheduler)
        ensures
            s@ == self@.scheduler,
            self.wf() ==> s.wf(),
    {
        &self.scheduler
    }

    /// The scheduler, for changing it in place.
    pub fn scheduler_mut(&mut self) -> (s: &mut Scheduler)
        ensures
            s@ == old(self)@.scheduler,
            old(self).wf() ==> s.wf(),
            final(self)@ == (KernelView { scheduler: final(s)@, ..old(self)@ }),
            old(self).wf() && final(s).wf() ==> final(self).wf(),
    {
        &mut self.scheduler
    }

    /// The graph, for changing it in place.
    pub fn graph_mut(&mut self) -> (g: &mut Graph)
        ensures
            g@ == old(self)@.graph,
            old(self).wf() ==> g.wf(),
            final(self)@ == (KernelView { graph: final(g)@, ..old(self)@ }),
            old(self).wf() && final(g).wf() ==> final(self).wf(),
    {
        &mut self.graph
    }

    /// Take the next ready task (the scheduler's `schedule_next`).
    pub fn schedule_next(&mut self) -> (r: Option<TaskId>)
        requires
            old(self).wf(),
        ensures
            final(self).wf(),
            final(self)@.graph == old(self)@.graph,
            old(self)@.scheduler.ready.len() == 0 ==> r is None,
            old(self)@.scheduler.ready.len() > 0 ==> r == Some(TaskId(old(self)@.scheduler.ready[0])),
            final(self)@.scheduler.ready == (if old(self)@.scheduler.ready.len() > 0 {
                old(self)@.scheduler.ready.drop_first()
            } else {
                old(self)@.scheduler.ready
            }),
    {
        self.scheduler.schedule_next()
    }

    /// Register a bundle in the graph and allocate a task for it. The
    /// bundle id is one more than the new task's id.
    pub fn launch_bundle(&mut self, name: &str) -> (r: (BundleId, TaskId))
        requires
            old(self).wf(),
            old(self)@.scheduler.tasks.len() < u64::MAX,
        ensures
            final(self).wf(),
            r.1.0 == old(self)@.scheduler.tasks.len(),
            r.0.0 == r.1.0 + 1,
            final(self)@.graph == old(self)@.graph.ensure_bundle(r.0.0, Some(name@)).0,
            final(self)@.scheduler == (crate::kernel::SchedulerView {
                tasks: old(self)@.scheduler.tasks.push(
                    TaskView { bundle: r.0.0, state: TaskState::Ready, name: name@ },
                ),
                ready: old(self)@.scheduler.ready.push(r.1.0),
            }),
    {
        let n = self.scheduler.task_count() as u64;
        let bundle = BundleId(n + 1);
        self.graph.ensure_bundle_node(bundle, Some(name));
        let task = self.scheduler.spawn(bundle, name);
        (bundle, task)
    }

    /// Syscall: create a node (the graph's `fiat_node`).
    pub fn syscall_graph_fiat_node(&mut self, bundle: BundleId, labels: Vec<String>, props: PropMap) -> (r:
        Result<NodeId, GraphError>)
        requires
            old(self).wf(),
        ensures
            final(self).wf(),
            final(self)@.scheduler == old(self)@.scheduler,
            r == Ok::<NodeId, GraphError>(NodeId(old(self)@.graph.nodes.len() as u64)),
            final(self)@.graph == old(self)@.graph.fiat(bundle.0, label_chars(labels@).to_set(), props@),
    {
        self.graph.fiat_node(bundle, labels, props)
    }

    /// Syscall: create an edge (the graph's `link`).
    pub fn syscall_graph_link(
        &mut self,
        bundle: BundleId,
        kind: String,
        from: NodeId,
        to: NodeId,
        props: PropMap,
    ) -> (r: Result<EdgeId, GraphError>)
        requires
            old(self).wf(),
        ensures
            final(self).wf(),
            final(self)@.scheduler == old(self)@.scheduler,
            old(self)@.graph.link_refusal(bundle.0, kind@, from.0, to.0) matches Some(e) ==> r == Err::<
                EdgeId,
                GraphError,
            >(e) && final(self)@.graph == old(self)@.graph,
            old(self)@.graph.link_refusal(bundle.0, kind@, from.0, to.0) is None ==> {
                let id = old(self)@.graph.edges.len() as u64;
                &&& r == Ok::<EdgeId, GraphError>(EdgeId(id))
                &&& final(self)@.graph == old(self)@.graph.add_edge(
                    EdgeView { kind: kind@, from: from.0, to: to.0, props: props@, owner: bundle.0 },
                ).enqueue(bundle.0, from.0, WatchReason::EdgeCreated(EdgeId(id))).enqueue(
                    bundle.0,
                    to.0,
                    WatchReason::EdgeCreated(EdgeId(id)),
                )
            },
    {
        self.graph.link(bundle, kind, from, to, props)
    }

    /// Syscall: query visible matching nodes (the graph's `get_nodes`).
    pub fn syscall_graph_get_nodes(&self, bundle: BundleId, pattern: &NodePattern) -> (r: Result<
        Vec<NodeId>,
        GraphError,
    >)
        requires
            self.wf(),
        ensures
            r matches Ok(v) && v@ == self@.graph.visible_upto(
                bundle.0,
                pattern@,
                self@.graph.nodes.len() as int,
            ),
    {
        self.graph.get_nodes(bundle, pattern)
    }

    /// Syscall: read properties (the graph's `get_props`).
    pub fn syscall_graph_get_props(&self, bundle: BundleId, node: NodeId, keys: &[String]) -> (r: Result<
        PropMap,
        GraphError,
    >)
        requires
            self.wf(),
        ensures
            node.0 >= self@.graph.nodes.len() ==> r matches Err(GraphError::NodeNotFound),
            node.0 < self@.graph.nodes.len() && !self@.graph.can_read(bundle.0, node.0) ==> r matches Err(
                GraphError::Forbidden,
            ),
            node.0 < self@.graph.nodes.len() && self@.graph.can_read(bundle.0, node.0) ==> (r matches Ok(m)
                && m@ == self@.graph.nodes[node.0 as int].props.restrict(label_chars(keys@).to_set())),
    {
        self.graph.get_props(bundle, node, keys)
    }

    /// Syscall: set properties (the graph's `set_props`).
    pub fn syscall_graph_set_props(&mut self, bundle: BundleId, node: NodeId, props: PropMap) -> (r: Result<
        (),
        GraphError,
    >)
        requires
            old(self).wf(),
        ensures
            final(self).wf(),
            final(self)@.scheduler == old(self)@.scheduler,
            old(self)@.graph.write_refusal(bundle.0, node.0) matches Some(e) ==> r == Err::<(), GraphError>(e)
                && final(self)@.graph == old(self)@.graph,
            old(self)@.graph.write_refusal(bundle.0, node.0) is None ==> r == Ok::<(), GraphError>(())
                && final(self)@.graph == old(self)@.graph.set_node_props(node.0, props@).enqueue(
                bundle.0,
                node.0,
                WatchReason::PropertiesChanged,
            ),
    {
        self.graph.set_props(bundle, node, props)
    }

    /// Syscall: register a watch (the graph's `watch_register`).
    pub fn syscall_watch_register(&mut self, bundle: BundleId, pattern: NodePattern) -> (r: Result<
        WatchId,
        GraphError,
    >)
        requires
            old(self).wf(),
        ensures
            final(self).wf(),
            final(self)@.scheduler == old(self)@.scheduler,
            r == Ok::<WatchId, GraphError>(WatchId(old(self)@.graph.watches.len() as u64)),
            final(self)@.graph == (GraphView {
                watches: old(self)@.graph.watches.push((bundle.0, pattern@)),
                ..old(self)@.graph
            }),
    {
        self.graph.watch_register(bundle, pattern)
    }

    /// Syscall: take the bundle's queued watch events (the graph's
    /// `watch_poll`).
    pub fn syscall_watch_poll(&mut self, bundle: BundleId) -> (r: Vec<WatchEvent>)
        requires
            old(self).wf(),
        ensures
            final(self).wf(),
            final(self)@.scheduler == old(self)@.scheduler,
            r@ == old(self)@.graph.queue_of(bundle.0),
            final(self)@.graph == (GraphView {
                events: crate::capgraph::events_not_for(old(self)@.graph.events, bundle.0),
                ..old(self)@.graph
            }),
    {
        self.graph.watch_poll(bundle)
    }

    /// Privileged helper for granting capability edges between bundles
    /// (the graph's `grant_capability_edge`).
    pub fn grant_capability_edge(
        &mut self,
        issuer: BundleId,
        grantee: BundleId,
        kind: &str,
        resource: NodeId,
        props: PropMap,
        link_target: Option<NodeId>,
    ) -> (r: Result<EdgeId, GraphError>)
        requires
            old(self).wf(),
        ensures
            final(self).wf(),
            final(self)@.scheduler == old(self)@.scheduler,
            ({
                let target = match link_target {
                    Some(t) => t.0,
                    None => resource.0,
                };
                let (g2, bn) = old(self)@.graph.ensure_bundle(grantee.0, None);
                &&& r == Ok::<EdgeId, GraphError>(EdgeId(old(self)@.graph.edges.len() as u64))
                &&& final(self)@.graph == g2.add_edge(
                    EdgeView {
                        kind: kind@,
                        from: bn,
                        to: resource.0,
                        props: GraphView::grant_props(kind@, props@, target),
                        owner: issuer.0,
                    },
                )
            }),
    {
        self.graph.grant_capability_edge(issuer, grantee, kind, resource, props, link_target)
    }
}

} // verus!
