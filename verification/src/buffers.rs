//! GPU memory buffers: a generic buffer over a block of device memory, and
//! the per-frame uniform buffer specialization.
//!
//! A buffer knows its allocated byte size and whether its memory was
//! created host-visible and host-coherent. For such memory the CPU may
//! write through a mapped region; the `contents` model mirrors, byte for
//! byte, what has been written there. A mapped write larger than the
//! allocation, or any mapped write to memory that is not both host-visible
//! and host-coherent, is refused before a byte moves.

use crate::resources::{RegistryError, ResourceKind, ResourceRegistry, VulkanObject};
use vstd::pervasive::VecAdditionalExecFns;
use vstd::prelude::*;

verus! {

/// Byte size of the per-frame uniform block: three 4-by-4 matrices of
/// 4-byte scalars (model, view, projection).
pub const UNIFORM_BUFFER_SIZE: usize = 192;

/// Why a mapped write was refused.
#[derive(Clone, Copy, Debug, PartialEq, Eq)]
pub enum BufferError {
    /// The buffer's memory is not host-visible and host-coherent, so the
    /// CPU may not write it through a mapping.
    NotHostVisible,
    /// The write is larger than the buffer's allocated size.
    WriteTooLarge,
}

/// A buffer object with its backing device memory.
pub struct Buffer {
    buffer: u64,
    memory: u64,
    size: usize,
    host_visible: bool,
    host_coherent: bool,
    contents: Vec<u8>,
    id: usize,
}

impl Buffer {
    /// Allocated size in bytes.
    pub closed spec fn size_spec(self) -> int {
        self.size as int
    }

    /// Handle of the backing device memory.
    pub closed spec fn memory_spec(self) -> u64 {
        self.memory
    }

    /// Whether the memory was created host-visible.
    pub closed spec fn host_visible_spec(self) -> bool {
        self.host_visible
    }

    /// Whether the memory was created host-coherent.
    pub closed spec fn host_coherent_spec(self) -> bool {
        self.host_coherent
    }

    /// The CPU may write the buffer through a mapping.
    pub open spec fn writable(self) -> bool {
        self.host_visible_spec() && self.host_coherent_spec()
    }

    /// The bytes written through the mapped region, one per allocated byte.
    pub closed spec fn contents_spec(self) -> Seq<u8> {
        self.contents@
    }

    /// Well-formedness: the mapped-region model covers the allocation.
    pub open spec fn wf(self) -> bool {
        self.contents_spec().len() == self.size_spec()
    }

    /// The static identity of the buffer: handles, size, memory flags and
    /// registry entry, which never change after creation.
    pub open spec fn same_buffer(a: Buffer, b: Buffer) -> bool {
        &&& b.handle_spec() == a.handle_spec()
        &&& b.id_spec() == a.id_spec()
        &&& b.memory_spec() == a.memory_spec()
        &&& b.size_spec() == a.size_spec()
        &&& b.host_visible_spec() == a.host_visible_spec()
        &&& b.host_coherent_spec() == a.host_coherent_spec()
    }

    /// Wraps a freshly allocated buffer and its bound memory, registering
    /// it against the device context it was created from. The mapped-region
    /// model starts zeroed.
    pub fn new(
        reg: &mut ResourceRegistry,
        device: usize,
        buffer_handle: u64,
        memory_handle: u64,
        size: usize,
        host_visible: bool,
        host_coherent: bool,
    ) -> (b: Buffer)
        requires
            old(reg).wf(),
            device < old(reg).res().len(),
            old(reg).res()[device as int].alive,
        ensures
            final(reg).wf(),
            b.wf(),
            b.handle_spec() == buffer_handle,
            b.memory_spec() == memory_handle,
            b.size_spec() == size,
            b.host_visible_spec() == host_visible,
            b.host_coherent_spec() == host_coherent,
            b.contents_spec() == Seq::new(size as nat, |i: int| 0u8),
            b.id_spec() as int == old(reg).res().len(),
            b.registered_in(*final(reg)),
            final(reg).res().len() == old(reg).res().len() + 1,
            final(reg).res()[b.id_spec() as int].kind == ResourceKind::Buffer,
            final(reg).res()[b.id_spec() as int].alive,
            final(reg).res()[b.id_spec() as int].deps@ == seq![device],
            forall|i: int|
                0 <= i < old(reg).res().len() ==> final(reg).res()[i] == old(reg).res()[i],
    {
        let mut contents: Vec<u8> = Vec::new();
        let mut i: usize = 0;
        while i < size
            invariant
                i <= size,
                contents@.len() == i,
                forall|k: int| 0 <= k < i ==> contents@[k] == 0u8,
            decreases size - i,
        {
            contents.push(0u8);
            i = i + 1;
        }
        let mut deps: Vec<usize> = Vec::new();
        deps.push(device);
        proof {
            assert(deps@ =~= seq![device]);
        }
        let id = reg.register(ResourceKind::Buffer, buffer_handle, deps);
        let b = Buffer {
            buffer: buffer_handle,
            memory: memory_handle,
            size,
            host_visible,
            host_coherent,
            contents,
            id,
        };
        proof {
            assert(b.contents_spec() =~= Seq::new(size as nat, |k: int| 0u8));
        }
        b
    }

    /// Copies `data` into the mapped region, starting at its beginning, as
    /// the scoped mapped-write of the engine does. Refused without moving a
    /// byte if the memory is not host-visible and host-coherent, or if
    /// `data` is larger than the allocation.
    pub fn map_memory(&mut self, data: &[u8]) -> (r: Result<(), BufferError>)
        requires
            old(self).wf(),
        ensures
            final(self).wf(),
            Buffer::same_buffer(*old(self), *final(self)),
            r is Ok <==> (old(self).writable() && data@.len() <= old(self).size_spec()),
            r == Err::<(), BufferError>(BufferError::NotHostVisible) <==> !old(self).writable(),
            r == Err::<(), BufferError>(BufferError::WriteTooLarge) <==> (old(self).writable()
                && data@.len() > old(self).size_spec()),
            r is Ok ==> final(self).contents_spec() == data@ + old(self).contents_spec().skip(
                data@.len() as int,
            ),
            r is Err ==> final(self).contents_spec() == old(self).contents_spec(),
    {
        if !(self.host_visible && self.host_coherent) {
            return Err(BufferError::NotHostVisible);
        }
        if data.len() > self.size {
            return Err(BufferError::WriteTooLarge);
        }
        let n = data.len();
        let mut i: usize = 0;
        while i < n
            invariant
                old(self).wf(),
                Buffer::same_buffer(*old(self), *self),
                self.contents@.len() == old(self).contents@.len(),
                n == data@.len(),
                n <= self.contents@.len(),
                i <= n,
                forall|k: int| 0 <= k < i ==> self.contents@[k] == data@[k],
                forall|k: int|
                    i <= k < self.contents@.len() ==> self.contents@[k] == old(self).contents@[k],
            decreases n - i,
        {
            let byte = data[i];
            self.contents.set(i, byte);
            i = i + 1;
        }
        proof {
            assert(self.contents_spec() =~= data@ + old(self).contents_spec().skip(
                data@.len() as int,
            ));
        }
        Ok(())
    }

    /// The bytes currently in the mapped region.
    pub fn mapped(&self) -> (r: &Vec<u8>)
        ensures
            r@ == self.contents_spec(),
    {
        &self.contents
    }

    /// Allocated size in bytes.
    pub fn get_size(&self) -> (n: usize)
        ensures
            n == self.size_spec(),
    {
        self.size
    }

    /// Handle of the backing device memory.
    pub fn get_memory(&self) -> (h: u64)
        ensures
            h == self.memory_spec(),
    {
        self.memory
    }
}

impl VulkanObject for Buffer {
    closed spec fn handle_spec(&self) -> u64 {
        self.buffer
    }

    closed spec fn id_spec(&self) -> usize {
        self.id
    }

    fn vulkan_object(&self) -> (h: u64) {
        self.buffer
    }

    fn resource_id(&self) -> (id: usize) {
        self.id
    }

    fn cleanup(&self, reg: &mut ResourceRegistry) -> (r: Result<u64, RegistryError>) {
        reg.teardown(self.id)
    }
}

/// The per-frame uniform buffer: a buffer sized for the uniform block,
/// created with host-visible and host-coherent memory so it can be written
/// each frame.
pub struct UniformBufferObject {
    buffer: Buffer,
}

impl UniformBufferObject {
    /// The underlying buffer.
    pub closed spec fn buffer_spec(self) -> Buffer {
        self.buffer
    }

    /// Well-formedness: the buffer is writable and sized for the uniform
    /// block.
    pub open spec fn wf(self) -> bool {
        &&& self.buffer_spec().wf()
        &&& self.buffer_spec().writable()
        &&& self.buffer_spec().size_spec() == UNIFORM_BUFFER_SIZE
    }

    /// The bytes last written into the uniform block.
    pub open spec fn contents_spec(self) -> Seq<u8> {
        self.buffer_spec().contents_spec()
    }

    /// Wraps a freshly allocated uniform buffer: sized for the uniform
    /// block, with host-visible and host-coherent memory, registered
    /// against the device context it was created from.
    pub fn new(
        reg: &mut ResourceRegistry,
        device: usize,
        buffer_handle: u64,
        memory_handle: u64,
    ) -> (u: UniformBufferObject)
        requires
            old(reg).wf(),
            device < old(reg).res().len(),
            old(reg).res()[device as int].alive,
        ensures
            final(reg).wf(),
            u.wf(),
            u.handle_spec() == buffer_handle,
            u.buffer_spec().memory_spec() == memory_handle,
            u.contents_spec() == Seq::new(UNIFORM_BUFFER_SIZE as nat, |i: int| 0u8),
            u.id_spec() as int == old(reg).res().len(),
            u.registered_in(*final(reg)),
            final(reg).res().len() == old(reg).res().len() + 1,
            final(reg).res()[u.id_spec() as int].kind == ResourceKind::Buffer,
            final(reg).res()[u.id_spec() as int].alive,
            forall|i: int|
                0 <= i < old(reg).res().len() ==> final(reg).res()[i] == old(reg).res()[i],
    {
        let buffer = Buffer::new(
            reg,
            device,
            buffer_handle,
            memory_handle,
            UNIFORM_BUFFER_SIZE,
            true,
            true,
        );
        UniformBufferObject { buffer }
    }

    /// Writes one uniform block's worth of caller-supplied bytes into the
    /// mapped region; refused without moving a byte if `data` exceeds the
    /// block size.
    pub fn update2(&mut self, data: &[u8]) -> (r: Result<(), BufferError>)
        requires
            old(self).wf(),
        ensures
            final(self).wf(),
            Buffer::same_buffer(old(self).buffer_spec(), final(self).buffer_spec()),
            r is Ok <==> data@.len() <= UNIFORM_BUFFER_SIZE,
            r == Err::<(), BufferError>(BufferError::WriteTooLarge) <==> data@.len()
                > UNIFORM_BUFFER_SIZE,
            r is Ok ==> final(self).contents_spec() == data@ + old(self).contents_spec().skip(
                data@.len() as int,
            ),
            r is Err ==> final(self).contents_spec() == old(self).contents_spec(),
    {
        self.buffer.map_memory(data)
    }

    /// The bytes currently in the mapped region.
    pub fn mapped(&self) -> (r: &Vec<u8>)
        ensures
            r@ == self.contents_spec(),
    {
        self.buffer.mapped()
    }
}

impl VulkanObject for UniformBufferObject {
    closed spec fn handle_spec(&self) -> u64 {
        self.buffer.handle_spec()
    }

    closed spec fn id_spec(&self) -> usize {
        self.buffer.id_spec()
    }

    fn vulkan_object(&self) -> (h: u64) {
        self.buffer.vulkan_object()
    }

    fn resource_id(&self) -> (id: usize) {
        self.buffer.resource_id()
    }

    fn cleanup(&self, reg: &mut ResourceRegistry) -> (r: Result<u64, RegistryError>) {
        self.buffer.cleanup(reg)
    }
}

} // verus!
