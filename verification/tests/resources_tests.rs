use render_core::resources::{RegistryError, ResourceKind, ResourceRegistry, VulkanObject};
use render_core::device::DeviceContext;
use render_core::instance::Instance;

#[test]
fn register_and_query() {
    let mut reg = ResourceRegistry::new();
    assert_eq!(reg.len(), 0);
    let a = reg.register(ResourceKind::Instance, 100, Vec::new());
    let b = reg.register(ResourceKind::DeviceContext, 200, vec![a]);
    assert_eq!(a, 0);
    assert_eq!(b, 1);
    assert_eq!(reg.len(), 2);
    assert!(reg.is_alive(a));
    assert!(reg.is_alive(b));
    assert_eq!(reg.handle_of(a), 100);
    assert_eq!(reg.handle_of(b), 200);
}

#[test]
fn teardown_refuses_while_a_dependent_is_alive() {
    // device context first, a dependent built against it: tearing the
    // context down under the dependent is refused, never silently done
    let mut reg = ResourceRegistry::new();
    let device = reg.register(ResourceKind::DeviceContext, 1, Vec::new());
    let pipeline = reg.register(ResourceKind::Pipeline, 2, vec![device]);
    assert_eq!(reg.teardown(device), Err(RegistryError::HasLiveDependent));
    assert!(reg.is_alive(device));
    // anti-topological order works: dependent first, then the context
    assert_eq!(reg.teardown(pipeline), Ok(2));
    assert_eq!(reg.teardown(device), Ok(1));
    assert!(!reg.is_alive(device));
}

#[test]
fn teardown_error_cases() {
    let mut reg = ResourceRegistry::new();
    let a = reg.register(ResourceKind::Buffer, 7, Vec::new());
    assert_eq!(reg.teardown(5), Err(RegistryError::UnknownResource));
    assert_eq!(reg.teardown(a), Ok(7));
    assert_eq!(reg.teardown(a), Err(RegistryError::AlreadyDestroyed));
}

#[test]
fn teardown_all_runs_in_reverse_creation_order() {
    let mut reg = ResourceRegistry::new();
    let instance = reg.register(ResourceKind::Instance, 11, Vec::new());
    let device = reg.register(ResourceKind::DeviceContext, 22, vec![instance]);
    let pool = reg.register(ResourceKind::CommandPool, 33, vec![device]);
    // one resource already torn down by hand is skipped
    assert_eq!(reg.teardown(pool), Ok(33));
    let buffer = reg.register(ResourceKind::Buffer, 44, vec![device]);
    let handles = reg.teardown_all();
    assert_eq!(handles, vec![44, 22, 11]);
    assert!(!reg.is_alive(instance));
    assert!(!reg.is_alive(device));
    assert!(!reg.is_alive(buffer));
}

#[test]
fn cleanup_through_the_uniform_contract() {
    let mut reg = ResourceRegistry::new();
    let inst = Instance::new(&mut reg, 900);
    let dev = DeviceContext::new(&mut reg, inst.resource_id(), 901, 3);
    assert_eq!(inst.vulkan_object(), 900);
    assert_eq!(dev.vulkan_object(), 901);
    assert_eq!(dev.graphics_index(), 3);
    // the instance cannot be cleaned up under a live device context
    assert_eq!(inst.cleanup(&mut reg), Err(RegistryError::HasLiveDependent));
    assert_eq!(dev.cleanup(&mut reg), Ok(901));
    assert_eq!(inst.cleanup(&mut reg), Ok(900));
    assert_eq!(inst.cleanup(&mut reg), Err(RegistryError::AlreadyDestroyed));
}
