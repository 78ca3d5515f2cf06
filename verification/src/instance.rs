//! Instance bootstrapping: the decisions behind creating the engine's
//! native API instance.
//!
//! Validation instrumentation is an explicit configuration value handed in
//! by the caller, never read from ambient process state here. Requesting
//! validation when the driver does not support the validation layers is a
//! fatal bootstrap error: construction is refused, not retried. The plan
//! also fixes the extension list the instance must be created with.

use crate::resources::{RegistryError, ResourceKind, ResourceRegistry, VulkanObject};
use vstd::prelude::*;

verus! {

/// A native extension the instance is created with.
#[derive(Clone, Copy, Debug, PartialEq, Eq, Structural)]
pub enum InstanceExtension {
    /// The presentation surface extension.
    Surface,
    /// The platform's window-system surface extension.
    PlatformSurface,
    /// The debug-utils extension carrying validation instrumentation.
    DebugUtils,
}

/// Why instance construction was refused.
#[derive(Clone, Copy, Debug, PartialEq, Eq, Structural)]
pub enum InstanceError {
    /// Validation was requested but the validation layers are not
    /// supported by the driver. A fatal bootstrap error.
    ValidationLayersUnsupported,
}

/// The decided instance configuration: whether validation is enabled and
/// which extensions the instance must be created with.
#[derive(Debug)]
pub struct InstancePlan {
    pub enable_validation: bool,
    pub extensions: Vec<InstanceExtension>,
}

/// The extensions every instance needs regardless of configuration: the
/// surface pair used for presenting to a window.
pub fn required_extension_names() -> (v: Vec<InstanceExtension>)
    ensures
        v@ == seq![InstanceExtension::Surface, InstanceExtension::PlatformSurface],
{
    let mut v: Vec<InstanceExtension> = Vec::new();
    v.push(InstanceExtension::Surface);
    v.push(InstanceExtension::PlatformSurface);
    proof {
        assert(v@ =~= seq![InstanceExtension::Surface, InstanceExtension::PlatformSurface]);
    }
    v
}

/// Decides the instance configuration from the explicit validation toggle
/// and the driver's reported validation-layer support. Refused exactly when
/// validation is requested but unsupported; otherwise the extension list is
/// the surface pair, plus debug-utils when validation is enabled.
pub fn plan_instance(validation_requested: bool, validation_supported: bool) -> (r: Result<
    InstancePlan,
    InstanceError,
>)
    ensures
        r is Err <==> (validation_requested && !validation_supported),
        r is Err ==> r == Err::<InstancePlan, InstanceError>(
            InstanceError::ValidationLayersUnsupported,
        ),
        r matches Ok(p) ==> {
            &&& p.enable_validation == validation_requested
            &&& p.extensions@ == if validation_requested {
                seq![
                    InstanceExtension::Surface,
                    InstanceExtension::PlatformSurface,
                    InstanceExtension::DebugUtils,
                ]
            } else {
                seq![InstanceExtension::Surface, InstanceExtension::PlatformSurface]
            }
        },
{
    if validation_requested && !validation_supported {
        return Err(InstanceError::ValidationLayersUnsupported);
    }
    let mut extensions = required_extension_names();
    if validation_requested {
        extensions.push(InstanceExtension::DebugUtils);
        proof {
            assert(extensions@ =~= seq![
                InstanceExtension::Surface,
                InstanceExtension::PlatformSurface,
                InstanceExtension::DebugUtils,
            ]);
        }
    }
    Ok(InstancePlan { enable_validation: validation_requested, extensions })
}

/// The created native instance, root of the resource ownership graph.
pub struct Instance {
    instance: u64,
    id: usize,
}

impl Instance {
    /// Wraps the created native instance and registers it as a root
    /// resource (it depends on nothing; everything else is created against
    /// it).
    pub fn new(reg: &mut ResourceRegistry, instance_handle: u64) -> (inst: Instance)
        requires
            old(reg).wf(),
        ensures
            final(reg).wf(),
            inst.handle_spec() == instance_handle,
            inst.id_spec() as int == old(reg).res().len(),
            inst.registered_in(*final(reg)),
            final(reg).res().len() == old(reg).res().len() + 1,
            final(reg).res()[inst.id_spec() as int].kind == ResourceKind::Instance,
            final(reg).res()[inst.id_spec() as int].alive,
            final(reg).res()[inst.id_spec() as int].deps@ == Seq::<usize>::empty(),
            forall|i: int|
                0 <= i < old(reg).res().len() ==> final(reg).res()[i] == old(reg).res()[i],
    {
        let deps: Vec<usize> = Vec::new();
        proof {
            assert(deps@ =~= Seq::<usize>::empty());
        }
        let id = reg.register(ResourceKind::Instance, instance_handle, deps);
        Instance { instance: instance_handle, id }
    }
}

impl VulkanObject for Instance {
    closed spec fn handle_spec(&self) -> u64 {
        self.instance
    }

    closed spec fn id_spec(&self) -> usize {
        self.id
    }

    fn vulkan_object(&self) -> (h: u64) {
        self.instance
    }

    fn resource_id(&self) -> (id: usize) {
        self.id
    }

    fn cleanup(&self, reg: &mut ResourceRegistry) -> (r: Result<u64, RegistryError>) {
        reg.teardown(self.id)
    }
}

} // verus!
