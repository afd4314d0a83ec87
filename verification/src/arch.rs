//! Architecture glue: a boot-time handle that wires bring-up into the
//! generic kernel and launches the built-in bundles.

use vstd::prelude::*;
use crate::kernel::{Kernel, TaskId};

verus! {

/// Boot-time handle that wires architecture bring-up into the kernel.
pub struct ArchKernel {
    pub kernel: Kernel,
}

impl ArchKernel {
    /// A handle around a fresh kernel.
    pub fn new() -> (a: ArchKernel)
        ensures
            a.kernel.wf(),
            a.kernel@.scheduler.tasks.len() == 0,
            a.kernel@.graph == crate::capgraph::Graph::new_view(),
    {
        ArchKernel { kernel: Kernel::new() }
    }

    /// Platform set-up (descriptor tables, paging, timers) happens outside
    /// this model; the kernel state is left as it is.
    pub fn initialize_platform(&mut self)
        ensures
            final(self).kernel@ == old(self).kernel@,
            old(self).kernel.wf() ==> final(self).kernel.wf(),
    {
    }

    /// Launch the built-in bundles `framebuffer`, `keyboard`, `mouse`,
    /// `compositor` and `demo-app` in that order; their tasks, in order.
    pub fn launch_boot_bundles(&mut self) -> (tasks: Vec<TaskId>)
        requires
            old(self).kernel.wf(),
            old(self).kernel@.scheduler.tasks.len() + 5 < u64::MAX,
        ensures
            final(self).kernel.wf(),
            tasks@.len() == 5,
            forall|i: int| 0 <= i < 5 ==> tasks@[i].0 == old(self).kernel@.scheduler.tasks.len() + i,
            final(self).kernel@.scheduler.tasks.len() == old(self).kernel@.scheduler.tasks.len() + 5,
    {
        let mut tasks: Vec<TaskId> = Vec::new();
        let names: [&str; 5] = ["framebuffer", "keyboard", "mouse", "compositor", "demo-app"];
        let ghost n0 = self.kernel@.scheduler.tasks.len();
        let mut i: usize = 0;
        while i < 5
            invariant
                self.kernel.wf(),
                i <= 5,
                self.kernel@.scheduler.tasks.len() == n0 + i,
                n0 + 5 < u64::MAX,
                tasks@.len() == i,
                forall|j: int| 0 <= j < i ==> tasks@[j].0 == n0 + j,
            decreases 5 - i,
        {
            let (_, task) = self.kernel.launch_bundle(names[i]);
            tasks.push(task);
            i = i + 1;
        }
        tasks
    }
}

} // verus!
