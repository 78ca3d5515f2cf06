use render_core::command_pool::CommandPool;
use render_core::device::DeviceContext;
use render_core::instance::{
    plan_instance, required_extension_names, Instance, InstanceError, InstanceExtension,
};
use render_core::resources::{RegistryError, ResourceRegistry, VulkanObject};

#[test]
fn base_extensions_are_the_surface_pair() {
    let exts = required_extension_names();
    assert_eq!(exts, vec![InstanceExtension::Surface, InstanceExtension::PlatformSurface]);
}

#[test]
fn plan_without_validation() {
    let plan = plan_instance(false, false).expect("no validation requested");
    assert!(!plan.enable_validation);
    assert_eq!(
        plan.extensions,
        vec![InstanceExtension::Surface, InstanceExtension::PlatformSurface]
    );
}

#[test]
fn plan_with_supported_validation_adds_debug_utils() {
    let plan = plan_instance(true, true).expect("validation is supported");
    assert!(plan.enable_validation);
    assert_eq!(
        plan.extensions,
        vec![
            InstanceExtension::Surface,
            InstanceExtension::PlatformSurface,
            InstanceExtension::DebugUtils,
        ]
    );
}

#[test]
fn plan_with_unsupported_validation_is_refused() {
    assert_eq!(
        plan_instance(true, false).unwrap_err(),
        InstanceError::ValidationLayersUnsupported
    );
}

#[test]
fn command_pool_binds_to_the_device_queue_family() {
    let mut reg = ResourceRegistry::new();
    let inst = Instance::new(&mut reg, 700);
    let dev = DeviceContext::new(&mut reg, inst.resource_id(), 701, 2);
    let pool = CommandPool::new(&mut reg, dev.resource_id(), dev.graphics_index(), 702);
    assert_eq!(pool.vulkan_object(), 702);
    assert_eq!(pool.queue_family(), 2);
    // the device context is pinned under its command pool
    assert_eq!(dev.cleanup(&mut reg), Err(RegistryError::HasLiveDependent));
    assert_eq!(pool.cleanup(&mut reg), Ok(702));
    assert_eq!(dev.cleanup(&mut reg), Ok(701));
    assert_eq!(inst.cleanup(&mut reg), Ok(700));
}
