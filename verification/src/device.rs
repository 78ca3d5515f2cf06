//! The device context: the logical device every other GPU resource is
//! created against.
//!
//! The context is constructed first (against the instance) and carries the
//! capability this crate's dependents consume: the graphics queue family
//! index. Command pools, buffers and pipelines register themselves as its
//! dependents, so the registry refuses to tear the context down while any
//! of them is alive.

use crate::resources::{RegistryError, ResourceKind, ResourceRegistry, VulkanObject};
use vstd::prelude::*;

verus! {

/// The logical device and the capabilities dependents read from it.
pub struct DeviceContext {
    device: u64,
    graphics_queue_family: u32,
    id: usize,
}

impl DeviceContext {
    /// The graphics queue family index reported by the physical device.
    pub closed spec fn graphics_index_spec(self) -> u32 {
        self.graphics_queue_family
    }

    /// Wraps the created logical device and registers it against the
    /// instance it was created from.
    pub fn new(
        reg: &mut ResourceRegistry,
        instance: usize,
        device_handle: u64,
        graphics_queue_family: u32,
    ) -> (d: DeviceContext)
        requires
            old(reg).wf(),
            instance < old(reg).res().len(),
            old(reg).res()[instance as int].alive,
        ensures
            final(reg).wf(),
            d.handle_spec() == device_handle,
            d.graphics_index_spec() == graphics_queue_family,
            d.id_spec() as int == old(reg).res().len(),
            d.registered_in(*final(reg)),
            final(reg).res().len() == old(reg).res().len() + 1,
            final(reg).res()[d.id_spec() as int].kind == ResourceKind::DeviceContext,
            final(reg).res()[d.id_spec() as int].alive,
            final(reg).res()[d.id_spec() as int].deps@ == seq![instance],
            forall|i: int|
                0 <= i < old(reg).res().len() ==> final(reg).res()[i] == old(reg).res()[i],
    {
        let mut deps: Vec<usize> = Vec::new();
        deps.push(instance);
        proof {
            assert(deps@ =~= seq![instance]);
        }
        let id = reg.register(ResourceKind::DeviceContext, device_handle, deps);
        DeviceContext { device: device_handle, graphics_queue_family, id }
    }

    /// The graphics queue family index, read-only.
    pub fn graphics_index(&self) -> (q: u32)
        ensures
            q == self.graphics_index_spec(),
    {
        self.graphics_queue_family
    }
}

impl VulkanObject for DeviceContext {
    closed spec fn handle_spec(&self) -> u64 {
        self.device
    }

    closed spec fn id_spec(&self) -> usize {
        self.id
    }

    fn vulkan_object(&self) -> (h: u64) {
        self.device
    }

    fn resource_id(&self) -> (id: usize) {
        self.id
    }

    fn cleanup(&self, reg: &mut ResourceRegistry) -> (r: Result<u64, RegistryError>) {
        reg.teardown(self.id)
    }
}

} // verus!
