use render_core::buffers::{Buffer, BufferError, UniformBufferObject, UNIFORM_BUFFER_SIZE};
use render_core::resources::{RegistryError, ResourceKind, ResourceRegistry, VulkanObject};

fn registry_with_device() -> (ResourceRegistry, usize) {
    let mut reg = ResourceRegistry::new();
    let device = reg.register(ResourceKind::DeviceContext, 1, Vec::new());
    (reg, device)
}

#[test]
fn uniform_buffer_round_trips_a_full_block() {
    // a buffer sized for three 4x4 matrices of 4-byte scalars: 192 bytes
    assert_eq!(UNIFORM_BUFFER_SIZE, 192);
    let (mut reg, device) = registry_with_device();
    let mut ubo = UniformBufferObject::new(&mut reg, device, 100, 101);
    let data: Vec<u8> = (0..192).map(|i| (i % 251) as u8).collect();
    assert_eq!(ubo.update2(&data), Ok(()));
    // the mapped region holds exactly the written bytes
    assert_eq!(ubo.mapped(), &data);
}

#[test]
fn uniform_buffer_refuses_an_oversized_write() {
    let (mut reg, device) = registry_with_device();
    let mut ubo = UniformBufferObject::new(&mut reg, device, 100, 101);
    let first: Vec<u8> = vec![7u8; 192];
    assert_eq!(ubo.update2(&first), Ok(()));
    let oversized: Vec<u8> = vec![9u8; 256];
    // 256 bytes into a 192-byte allocation fails fast, with no overrun
    assert_eq!(ubo.update2(&oversized), Err(BufferError::WriteTooLarge));
    assert_eq!(ubo.mapped(), &first);
}

#[test]
fn partial_write_keeps_the_tail() {
    let (mut reg, device) = registry_with_device();
    let mut ubo = UniformBufferObject::new(&mut reg, device, 100, 101);
    let full: Vec<u8> = vec![5u8; 192];
    assert_eq!(ubo.update2(&full), Ok(()));
    let head: Vec<u8> = vec![8u8; 64];
    assert_eq!(ubo.update2(&head), Ok(()));
    let mapped = ubo.mapped();
    assert_eq!(&mapped[..64], &vec![8u8; 64][..]);
    assert_eq!(&mapped[64..], &vec![5u8; 128][..]);
}

#[test]
fn device_local_memory_refuses_mapped_writes() {
    let (mut reg, device) = registry_with_device();
    // device-local-only memory: not host-visible, not host-coherent
    let mut buf = Buffer::new(&mut reg, device, 300, 301, 64, false, false);
    let data: Vec<u8> = vec![1u8; 16];
    assert_eq!(buf.map_memory(&data), Err(BufferError::NotHostVisible));
    assert_eq!(buf.get_size(), 64);
    assert_eq!(buf.get_memory(), 301);
}

#[test]
fn buffer_starts_zeroed_and_reports_handles() {
    let (mut reg, device) = registry_with_device();
    let buf = Buffer::new(&mut reg, device, 300, 301, 8, true, true);
    assert_eq!(buf.vulkan_object(), 300);
    assert_eq!(buf.mapped(), &vec![0u8; 8]);
}

#[test]
fn buffer_cleanup_releases_the_registry_entry() {
    let (mut reg, device) = registry_with_device();
    let ubo = UniformBufferObject::new(&mut reg, device, 100, 101);
    assert_eq!(ubo.vulkan_object(), 100);
    // the device context is pinned while the buffer lives
    assert_eq!(reg.teardown(device), Err(RegistryError::HasLiveDependent));
    assert_eq!(ubo.cleanup(&mut reg), Ok(100));
    assert_eq!(reg.teardown(device), Ok(1));
}
