use render_core::sync::SyncObjects;

fn fresh(max_frames: usize, num_images: usize) -> SyncObjects {
    let mut image_sems: Vec<u64> = Vec::new();
    let mut render_sems: Vec<u64> = Vec::new();
    let mut fences: Vec<u64> = Vec::new();
    let mut i: usize = 0;
    while i < max_frames {
        image_sems.push(10 + i as u64);
        render_sems.push(20 + i as u64);
        fences.push(30 + i as u64);
        i += 1;
    }
    SyncObjects::new(max_frames, num_images, image_sems, render_sems, fences)
}

#[test]
fn construction_starts_at_slot_zero_with_signaled_fences() {
    let s = fresh(2, 3);
    assert_eq!(s.get_current_frame(), 0);
    // every frame-slot fence starts signaled, so the first waits never block
    assert!(s.fence_is_signaled(0));
    assert!(s.fence_is_signaled(1));
    // the in-flight table starts empty for every image
    assert_eq!(s.get_image_in_flight(0), None);
    assert_eq!(s.get_image_in_flight(1), None);
    assert_eq!(s.get_image_in_flight(2), None);
}

#[test]
fn getters_follow_the_cursor() {
    let mut s = fresh(3, 3);
    assert_eq!(s.get_image_semaphore(), 10);
    assert_eq!(s.get_render_semaphore(), 20);
    assert_eq!(s.get_flight_fence(), 30);
    assert_eq!(s.wait_fence_current(), 30);
    s.increment_frame();
    assert_eq!(s.get_image_semaphore(), 11);
    assert_eq!(s.get_render_semaphore(), 21);
    assert_eq!(s.get_flight_fence(), 31);
    assert_eq!(s.wait_fence_current(), 31);
}

#[test]
fn advancing_slot_count_times_returns_to_start() {
    for n in 1..6usize {
        let mut s = fresh(n, 2);
        s.increment_frame();
        assert_eq!(s.get_current_frame(), if n == 1 { 0 } else { 1 });
        for _ in 1..n {
            s.increment_frame();
        }
        // n advances in all: the cursor is back at its original value
        assert_eq!(s.get_current_frame(), 0);
    }
}

#[test]
fn set_and_get_image_in_flight() {
    let mut s = fresh(2, 3);
    s.set_image_in_flight(2, 1);
    assert_eq!(s.get_image_in_flight(2), Some(31));
    s.set_image_in_flight(2, 0);
    assert_eq!(s.get_image_in_flight(2), Some(30));
}

#[test]
fn image_hazard_reports_the_recorded_fence_until_it_signals() {
    let mut s = fresh(2, 3);
    // slot 0 takes image 1 and submits
    assert_eq!(s.wait_fence_image(1), None);
    s.mark_current_submitted();
    s.increment_frame();
    // slot 1 wants image 1 while slot 0's fence is still unsignaled:
    // the hand-off reports exactly slot 0's fence to wait on
    assert!(!s.fence_is_signaled(0));
    assert_eq!(s.wait_fence_image(1), Some(30));
    // the wait returned: the GPU finished slot 0's work
    s.note_fence_signaled(0);
    assert!(s.fence_is_signaled(0));
    // the image is now recorded against slot 1
    assert_eq!(s.get_image_in_flight(1), Some(31));
}

#[test]
fn two_slots_three_images_frame_sequence() {
    // two frame slots pipelined over three swapchain images, rendering
    // into images 0, 1, 2, 0, 1; slots cycle 0, 1, 0, 1, 0
    let mut s = fresh(2, 3);
    let targets = [0usize, 1, 2, 0, 1];
    let expected_pending: [Option<u64>; 5] = [None, None, None, Some(30), Some(31)];
    let expected_recorded: [u64; 5] = [30, 31, 30, 31, 30];
    for frame in 0..5 {
        let slot = s.get_current_frame();
        assert_eq!(slot, frame % 2);
        // wait for this slot's own fence before reusing its resources
        let own_fence = s.wait_fence_current();
        assert_eq!(own_fence, 30 + slot as u64);
        if !s.fence_is_signaled(slot) {
            s.note_fence_signaled(slot);
        }
        // hand the target image over to this slot
        let pending = s.wait_fence_image(targets[frame]);
        // no wait is issued for an image's first use; once image 0 is
        // reused, the fence of the slot that last rendered into it is
        // reported for waiting
        assert_eq!(pending, expected_pending[frame]);
        if let Some(f) = pending {
            // the wait on the older slot's fence returned
            let older_slot = (f - 30) as usize;
            s.note_fence_signaled(older_slot);
        }
        assert_eq!(s.get_image_in_flight(targets[frame]), Some(expected_recorded[frame]));
        s.mark_current_submitted();
        assert!(!s.fence_is_signaled(slot));
        s.increment_frame();
    }
    // the table still has exactly one entry per image, all recorded
    assert_eq!(s.get_image_in_flight(0), Some(31));
    assert_eq!(s.get_image_in_flight(1), Some(30));
    assert_eq!(s.get_image_in_flight(2), Some(30));
}

#[test]
fn single_slot_wraps_every_frame() {
    let mut s = fresh(1, 2);
    assert_eq!(s.get_current_frame(), 0);
    s.increment_frame();
    assert_eq!(s.get_current_frame(), 0);
    assert_eq!(s.wait_fence_image(0), None);
    s.mark_current_submitted();
    s.increment_frame();
    s.note_fence_signaled(0);
    assert_eq!(s.wait_fence_image(0), Some(30));
}
