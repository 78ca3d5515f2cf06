//! The command pool: allocates command buffers for one queue family, owned
//! by the device context it was created against.

use crate::resources::{RegistryError, ResourceKind, ResourceRegistry, VulkanObject};
use vstd::prelude::*;

verus! {

/// A command pool bound to one queue family.
pub struct CommandPool {
    command_pool: u64,
    queue_family_index: u32,
    id: usize,
}

impl CommandPool {
    /// The queue family the pool allocates command buffers for.
    pub closed spec fn queue_family_spec(self) -> u32 {
        self.queue_family_index
    }

    /// Wraps the created native pool and registers it against the device
    /// context it was created from, for the queue family the device
    /// context reported.
    pub fn new(
        reg: &mut ResourceRegistry,
        device: usize,
        queue_family_index: u32,
        pool_handle: u64,
    ) -> (p: CommandPool)
        requires
            old(reg).wf(),
            device < old(reg).res().len(),
            old(reg).res()[device as int].alive,
        ensures
            final(reg).wf(),
            p.handle_spec() == pool_handle,
            p.queue_family_spec() == queue_family_index,
            p.id_spec() as int == old(reg).res().len(),
            p.registered_in(*final(reg)),
            final(reg).res().len() == old(reg).res().len() + 1,
            final(reg).res()[p.id_spec() as int].kind == ResourceKind::CommandPool,
            final(reg).res()[p.id_spec() as int].alive,
            final(reg).res()[p.id_spec() as int].deps@ == seq![device],
            forall|i: int|
                0 <= i < old(reg).res().len() ==> final(reg).res()[i] == old(reg).res()[i],
    {
        let mut deps: Vec<usize> = Vec::new();
        deps.push(device);
        proof {
            assert(deps@ =~= seq![device]);
        }
        let id = reg.register(ResourceKind::CommandPool, pool_handle, deps);
        CommandPool { command_pool: pool_handle, queue_family_index, id }
    }

    /// The queue family index, read-only.
    pub fn queue_family(&self) -> (q: u32)
        ensures
            q == self.queue_family_spec(),
    {
        self.queue_family_index
    }
}

impl VulkanObject for CommandPool {
    closed spec fn handle_spec(&self) -> u64 {
        self.command_pool
    }

    closed spec fn id_spec(&self) -> usize {
        self.id
    }

    fn vulkan_object(&self) -> (h: u64) {
        self.command_pool
    }

    fn resource_id(&self) -> (id: usize) {
        self.id
    }

    fn cleanup(&self, reg: &mut ResourceRegistry) -> (r: Result<u64, RegistryError>) {
        reg.teardown(self.id)
    }
}

} // verus!
