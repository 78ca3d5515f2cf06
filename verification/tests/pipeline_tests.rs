use render_core::pipeline::{Pipeline, PipelineBuildError};
use render_core::resources::{RegistryError, ResourceKind, ResourceRegistry, VulkanObject};

fn build_targets() -> (ResourceRegistry, usize, usize, usize) {
    let mut reg = ResourceRegistry::new();
    let device = reg.register(ResourceKind::DeviceContext, 1, Vec::new());
    let render_pass = reg.register(ResourceKind::RenderPass, 2, vec![device]);
    let descriptor_layout = reg.register(ResourceKind::DescriptorLayout, 3, vec![device]);
    (reg, device, render_pass, descriptor_layout)
}

#[test]
fn successful_build_frees_the_shader_modules() {
    let (mut reg, device, render_pass, descriptor_layout) = build_targets();
    let before = reg.len();
    let (result, transients) =
        Pipeline::new(&mut reg, device, render_pass, descriptor_layout, 41, 42, 50, Some(60));
    let pipeline = result.expect("the driver reported success");
    // the two transient shader modules come back for destruction
    assert_eq!(transients, vec![41, 42]);
    // and their registry entries are already dead
    assert!(!reg.is_alive(before));
    assert!(!reg.is_alive(before + 1));
    // the layout and the pipeline are alive
    assert!(reg.is_alive(pipeline.get_layout_id()));
    assert!(reg.is_alive(pipeline.resource_id()));
    assert_eq!(pipeline.vulkan_object(), 60);
    assert_eq!(pipeline.get_layout(), 50);
}

#[test]
fn failed_build_frees_modules_and_layout() {
    let (mut reg, device, render_pass, descriptor_layout) = build_targets();
    let before = reg.len();
    let (result, transients) =
        Pipeline::new(&mut reg, device, render_pass, descriptor_layout, 41, 42, 50, None);
    // a failed driver call is fatal, and nothing leaks: modules and the
    // already-created layout all come back for destruction
    assert_eq!(result.unwrap_err(), PipelineBuildError::CreationFailed);
    assert_eq!(transients, vec![41, 42, 50]);
    assert!(!reg.is_alive(before));
    assert!(!reg.is_alive(before + 1));
    assert!(!reg.is_alive(before + 2));
}

#[test]
fn pipeline_pins_its_ancestors_until_destroyed() {
    let (mut reg, device, render_pass, descriptor_layout) = build_targets();
    let (result, _) =
        Pipeline::new(&mut reg, device, render_pass, descriptor_layout, 41, 42, 50, Some(60));
    let pipeline = result.unwrap();
    // the device context cannot go away under the pipeline
    assert_eq!(reg.teardown(device), Err(RegistryError::HasLiveDependent));
    assert_eq!(reg.teardown(render_pass), Err(RegistryError::HasLiveDependent));
    // destroying the pipeline also destroys its layout, in order
    let (pipeline_handle, layout_handle) = pipeline.destroy(&mut reg);
    assert_eq!((pipeline_handle, layout_handle), (60, 50));
    assert!(!reg.is_alive(pipeline.resource_id()));
    assert!(!reg.is_alive(pipeline.get_layout_id()));
    // now the ancestors can be torn down, leaves first
    assert_eq!(reg.teardown(render_pass), Ok(2));
    assert_eq!(reg.teardown(descriptor_layout), Ok(3));
    assert_eq!(reg.teardown(device), Ok(1));
}

#[test]
fn cleanup_tears_down_the_pipeline_entry() {
    let (mut reg, device, render_pass, descriptor_layout) = build_targets();
    let (result, _) =
        Pipeline::new(&mut reg, device, render_pass, descriptor_layout, 41, 42, 50, Some(60));
    let pipeline = result.unwrap();
    assert_eq!(pipeline.cleanup(&mut reg), Ok(60));
    assert_eq!(pipeline.cleanup(&mut reg), Err(RegistryError::AlreadyDestroyed));
}
