//! Per-frame CPU/GPU synchronization: frame slots with their semaphore pair
//! and fence, the frame cursor, and the swapchain-image in-flight table.
//!
//! A frame slot is an index below `max_frames`; each slot owns one
//! image-available semaphore, one render-finished semaphore and one fence,
//! all given here by their native handle values. The in-flight table has one
//! entry per swapchain image and records which slot's fence guards that
//! image, so a new render into the image can first wait for the older work.
//!
//! The blocking fence waits themselves are driver calls made by the
//! unverified render loop; this module makes the decisions: which fence must
//! be waited on, which slot's fence is recorded against an image, and how
//! the cursor advances. Fence signal state is tracked as the render loop
//! reports it back (a wait that returned, a submission that re-armed the
//! current fence), and the hazard rules are stated and proved over that
//! model. All state is owned exclusively by this object and is meant to be
//! driven by the single thread that runs the render loop.

use vstd::arithmetic::div_mod::{
    lemma_add_mod_noop, lemma_mod_bound, lemma_mod_self_0, lemma_small_mod,
};
use vstd::pervasive::VecAdditionalExecFns;
use vstd::prelude::*;

verus! {

/// Synchronization state for a fixed number of frame slots and a fixed
/// number of swapchain images. The two counts are independent: the slot
/// count bounds how many frames the CPU may prepare ahead of the GPU, while
/// the image count comes from the presentation surface.
pub struct SyncObjects {
    max_frames: usize,
    num_images: usize,
    current_frame: usize,
    image_available_semaphores: Vec<u64>,
    render_finished_semaphores: Vec<u64>,
    in_flight_fences: Vec<u64>,
    fence_signaled: Vec<bool>,
    images_in_flight: Vec<Option<usize>>,
}

impl SyncObjects {
    /// Number of frame slots.
    pub closed spec fn frames(self) -> int {
        self.max_frames as int
    }

    /// Number of swapchain images.
    pub closed spec fn images(self) -> int {
        self.num_images as int
    }

    /// The current frame slot, as the index stored in the cursor.
    pub closed spec fn cursor_slot(self) -> usize {
        self.current_frame
    }

    /// The current frame slot as a mathematical index.
    pub open spec fn cursor(self) -> int {
        self.cursor_slot() as int
    }

    /// Handles of the per-slot image-available semaphores.
    pub closed spec fn image_sems(self) -> Seq<u64> {
        self.image_available_semaphores@
    }

    /// Handles of the per-slot render-finished semaphores.
    pub closed spec fn render_sems(self) -> Seq<u64> {
        self.render_finished_semaphores@
    }

    /// Handles of the per-slot fences.
    pub closed spec fn fences(self) -> Seq<u64> {
        self.in_flight_fences@
    }

    /// Signal state of each slot's fence, as reported by the render loop.
    pub closed spec fn signaled(self) -> Seq<bool> {
        self.fence_signaled@
    }

    /// The in-flight table: for each swapchain image, the frame slot whose
    /// fence guards it, or `None` if no frame has targeted the image yet.
    pub closed spec fn table(self) -> Seq<Option<usize>> {
        self.images_in_flight@
    }

    /// Well-formedness: at least one frame slot, the cursor in range, one
    /// semaphore pair, fence and signal flag per slot, one table entry per
    /// swapchain image, and every recorded table entry a valid slot.
    pub open spec fn wf(self) -> bool {
        &&& self.frames() >= 1
        &&& 0 <= self.cursor() < self.frames()
        &&& self.image_sems().len() == self.frames()
        &&& self.render_sems().len() == self.frames()
        &&& self.fences().len() == self.frames()
        &&& self.signaled().len() == self.frames()
        &&& self.table().len() == self.images()
        &&& forall|i: int|
            0 <= i < self.images() ==> (#[trigger] self.table()[i] matches Some(s)
                ==> (s as int) < self.frames())
    }

    /// A wait for the current slot's fence would block: the fence is not
    /// signaled, i.e. the GPU has not finished the slot's previous work.
    pub open spec fn would_block_current(self) -> bool {
        !self.signaled()[self.cursor()]
    }

    /// A new render into image `i` would first have to block: some frame
    /// slot's fence is recorded against the image and is not yet signaled.
    pub open spec fn image_wait_pending(self, i: int) -> bool {
        match self.table()[i] {
            Some(s) => !self.signaled()[s as int],
            None => false,
        }
    }

    /// Creates the synchronization state over freshly created native
    /// handles, one semaphore pair and one fence per frame slot. Every
    /// fence starts signaled — its native counterpart is created in the
    /// signaled state — so the first pass of each slot never blocks; the
    /// in-flight table starts with one empty entry per swapchain image.
    pub fn new(
        max_frames: usize,
        num_images: usize,
        image_available_semaphores: Vec<u64>,
        render_finished_semaphores: Vec<u64>,
        in_flight_fences: Vec<u64>,
    ) -> (s: SyncObjects)
        requires
            max_frames >= 1,
            image_available_semaphores@.len() == max_frames,
            render_finished_semaphores@.len() == max_frames,
            in_flight_fences@.len() == max_frames,
        ensures
            s.wf(),
            s.frames() == max_frames,
            s.images() == num_images,
            s.cursor() == 0,
            s.image_sems() == image_available_semaphores@,
            s.render_sems() == render_finished_semaphores@,
            s.fences() == in_flight_fences@,
            forall|k: int| 0 <= k < s.frames() ==> s.signaled()[k],
            forall|k: int| 0 <= k < s.images() ==> s.table()[k] is None,
            !s.would_block_current(),
    {
        let mut fence_signaled: Vec<bool> = Vec::new();
        let mut i: usize = 0;
        while i < max_frames
            invariant
                i <= max_frames,
                fence_signaled@.len() == i,
                forall|k: int| 0 <= k < i ==> fence_signaled@[k],
            decreases max_frames - i,
        {
            fence_signaled.push(true);
            i = i + 1;
        }
        let mut images_in_flight: Vec<Option<usize>> = Vec::new();
        let mut j: usize = 0;
        while j < num_images
            invariant
                j <= num_images,
                images_in_flight@.len() == j,
                forall|k: int| 0 <= k < j ==> images_in_flight@[k] is None,
            decreases num_images - j,
        {
            images_in_flight.push(None);
            j = j + 1;
        }
        SyncObjects {
            max_frames,
            num_images,
            current_frame: 0,
            image_available_semaphores,
            render_finished_semaphores,
            in_flight_fences,
            fence_signaled,
            images_in_flight,
        }
    }

    /// The fence the render loop must wait on before reusing the current
    /// slot's resources (command buffer, uniform buffer) for a new frame.
    /// When the wait returns, report it with [`Self::note_fence_signaled`].
    pub fn wait_fence_current(&self) -> (f: u64)
        requires
            self.wf(),
        ensures
            f == self.fences()[self.cursor()],
    {
        self.in_flight_fences[self.current_frame]
    }

    /// Records that a wait on slot `frame`'s fence returned (or that a
    /// status query found it signaled): the GPU is done with that slot's
    /// last submission.
    pub fn note_fence_signaled(&mut self, frame: usize)
        requires
            old(self).wf(),
            frame < old(self).frames(),
        ensures
            final(self).wf(),
            same_sync_objects(*old(self), *final(self)),
            final(self).cursor() == old(self).cursor(),
            final(self).signaled() == old(self).signaled().update(frame as int, true),
            final(self).table() == old(self).table(),
    {
        self.fence_signaled.set(frame, true);
    }

    /// Records that the current slot's fence was reset and handed to a
    /// queue submission: it is unsignaled until the GPU completes that
    /// work. Reusing the slot without the prerequisite wait is a caller
    /// contract violation, so the slot's fence must be signaled here.
    pub fn mark_current_submitted(&mut self)
        requires
            old(self).wf(),
            !old(self).would_block_current(),
        ensures
            final(self).wf(),
            same_sync_objects(*old(self), *final(self)),
            final(self).cursor() == old(self).cursor(),
            final(self).signaled() == old(self).signaled().update(old(self).cursor(), false),
            final(self).table() == old(self).table(),
    {
        self.fence_signaled.set(self.current_frame, false);
    }

    /// Whether slot `frame`'s fence is signaled in the tracked model; lets
    /// the unverified shell test a wait's precondition before calling.
    pub fn fence_is_signaled(&self, frame: usize) -> (r: bool)
        requires
            self.wf(),
            frame < self.frames(),
        ensures
            r == self.signaled()[frame as int],
    {
        self.fence_signaled[frame]
    }

    /// Hands swapchain image `image_index` over to the current frame slot.
    /// Returns the fence of the older slot still rendering into the image,
    /// which the render loop must wait on before proceeding, or `None` on
    /// the image's first use; then records the current slot's fence against
    /// the image so a future use can detect the new hazard.
    pub fn wait_fence_image(&mut self, image_index: usize) -> (pending: Option<u64>)
        requires
            old(self).wf(),
            image_index < old(self).images(),
        ensures
            final(self).wf(),
            same_sync_objects(*old(self), *final(self)),
            final(self).cursor() == old(self).cursor(),
            final(self).signaled() == old(self).signaled(),
            final(self).table() == old(self).table().update(
                image_index as int,
                Some(old(self).cursor_slot()),
            ),
            pending == (match old(self).table()[image_index as int] {
                Some(s) => Some(old(self).fences()[s as int]),
                None => None::<u64>,
            }),
    {
        let pending: Option<u64> = match self.images_in_flight[image_index] {
            Some(s) => Some(self.in_flight_fences[s]),
            None => None,
        };
        self.images_in_flight.set(image_index, Some(self.current_frame));
        pending
    }

    /// The current slot's render-finished semaphore: the submission's
    /// signal semaphore, waited on by presentation.
    pub fn get_render_semaphore(&self) -> (h: u64)
        requires
            self.wf(),
        ensures
            h == self.render_sems()[self.cursor()],
    {
        self.render_finished_semaphores[self.current_frame]
    }

    /// The current slot's image-available semaphore: signaled by image
    /// acquisition, waited on by the submission.
    pub fn get_image_semaphore(&self) -> (h: u64)
        requires
            self.wf(),
        ensures
            h == self.image_sems()[self.cursor()],
    {
        self.image_available_semaphores[self.current_frame]
    }

    /// The current slot's fence, to be reset and passed to the queue
    /// submission so the GPU re-signals it on completion.
    pub fn get_flight_fence(&self) -> (f: u64)
        requires
            self.wf(),
        ensures
            f == self.fences()[self.cursor()],
    {
        self.in_flight_fences[self.current_frame]
    }

    /// Records slot `frame`'s fence against swapchain image `index`.
    pub fn set_image_in_flight(&mut self, index: usize, frame: usize)
        requires
            old(self).wf(),
            index < old(self).images(),
            frame < old(self).frames(),
        ensures
            final(self).wf(),
            same_sync_objects(*old(self), *final(self)),
            final(self).cursor() == old(self).cursor(),
            final(self).signaled() == old(self).signaled(),
            final(self).table() == old(self).table().update(index as int, Some(frame)),
    {
        self.images_in_flight.set(index, Some(frame));
    }

    /// The fence recorded against swapchain image `index`, or `None` if no
    /// frame slot has targeted the image yet.
    pub fn get_image_in_flight(&self, index: usize) -> (f: Option<u64>)
        requires
            self.wf(),
            index < self.images(),
        ensures
            f == (match self.table()[index as int] {
                Some(s) => Some(self.fences()[s as int]),
                None => None::<u64>,
            }),
    {
        match self.images_in_flight[index] {
            Some(s) => Some(self.in_flight_fences[s]),
            None => None,
        }
    }

    /// The current frame slot.
    pub fn get_current_frame(&self) -> (c: usize)
        requires
            self.wf(),
        ensures
            c == self.cursor_slot(),
    {
        self.current_frame
    }

    /// Advances the frame cursor by one slot, wrapping at the slot count.
    /// To be called exactly once per completed frame, after submission and
    /// presentation.
    pub fn increment_frame(&mut self)
        requires
            old(self).wf(),
        ensures
            final(self).wf(),
            same_sync_objects(*old(self), *final(self)),
            final(self).cursor() == (old(self).cursor() + 1) % old(self).frames(),
            final(self).signaled() == old(self).signaled(),
            final(self).table() == old(self).table(),
    {
        self.current_frame = (self.current_frame + 1) % self.max_frames;
    }
}

/// The fixed part of the synchronization state: slot and image counts and
/// the native handle sets, which never change after construction.
pub open spec fn same_sync_objects(a: SyncObjects, b: SyncObjects) -> bool {
    &&& b.frames() == a.frames()
    &&& b.images() == a.images()
    &&& b.image_sems() == a.image_sems()
    &&& b.render_sems() == a.render_sems()
    &&& b.fences() == a.fences()
}

/// The cursor value after `k` single-slot advances from cursor `c` with `n`
/// frame slots: each step is exactly the step [`SyncObjects::increment_frame`]
/// makes.
pub open spec fn cursor_after(c: int, k: nat, n: int) -> int
    decreases k,
{
    if k == 0 {
        c
    } else {
        (cursor_after(c, (k - 1) as nat, n) + 1) % n
    }
}

/// `k` advances from cursor `c` land on `(c + k) % n`.
pub proof fn lemma_cursor_after_linear(c: int, k: nat, n: int)
    requires
        0 <= c < n,
    ensures
        cursor_after(c, k, n) == (c + k) % n,
    decreases k,
{
    if k == 0 {
        lemma_small_mod(c as nat, n as nat);
    } else {
        lemma_cursor_after_linear(c, (k - 1) as nat, n);
        lemma_add_mod_noop(c + k - 1, 1, n);
        if n == 1 {
            lemma_mod_bound(c + k, 1);
            lemma_mod_bound((c + k - 1) % 1 + 1, 1);
        } else {
            lemma_small_mod(1nat, n as nat);
        }
    }
}

/// Cyclic invariant of the frame cursor: with `n` frame slots, `n` advances
/// return the cursor to where it started.
pub proof fn lemma_advance_full_cycle(c: int, n: int)
    requires
        0 <= c < n,
    ensures
        cursor_after(c, n as nat, n) == c,
{
    lemma_cursor_after_linear(c, n as nat, n);
    lemma_add_mod_noop(c, n, n);
    lemma_mod_self_0(n);
    lemma_small_mod(c as nat, n as nat);
}

/// The in-flight table keeps exactly one entry per swapchain image
/// throughout the object's lifetime.
pub proof fn lemma_table_tracks_images(s: SyncObjects)
    requires
        s.wf(),
    ensures
        s.table().len() == s.images(),
{
}

/// Right after construction no wait can block: every slot's fence starts
/// signaled and no image has a recorded fence.
pub proof fn lemma_fresh_never_blocks(s: SyncObjects)
    requires
        s.wf(),
        forall|k: int| 0 <= k < s.frames() ==> s.signaled()[k],
        forall|k: int| 0 <= k < s.images() ==> s.table()[k] is None,
    ensures
        !s.would_block_current(),
        forall|i: int| 0 <= i < s.images() ==> !s.image_wait_pending(i),
{
}

/// Hazard enforcement across the image hand-off: `before` is the state in
/// which some frame rendered into image `i` (so `wait_fence_image` recorded
/// the then-current slot's fence against `i`, giving `after.table()`); as
/// long as that fence has not signaled, a later use of image `i` finds the
/// hazard recorded and must first wait — on exactly that fence.
pub proof fn lemma_image_hazard(before: SyncObjects, after: SyncObjects, i: int)
    requires
        before.wf(),
        after.wf(),
        same_sync_objects(before, after),
        0 <= i < before.images(),
        after.table() == before.table().update(i, Some(before.cursor_slot())),
        !after.signaled()[before.cursor()],
    ensures
        after.table()[i] == Some(before.cursor_slot()),
        after.image_wait_pending(i),
{
}

} // verus!
