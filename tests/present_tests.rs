use raytracer::present::{
    dispatch_size, AcquireOutcome, Extent, FlushOutcome, Frame, Phase, Request, Token, Vk,
    Workgroups,
};

fn ext(width: u32, height: u32) -> Extent {
    Extent { width, height }
}

#[test]
fn dispatch_covers_whole_tiles_only() {
    assert_eq!(dispatch_size(ext(1920, 1080)), Workgroups { x: 240, y: 135, z: 1 });
    assert_eq!(dispatch_size(ext(1000, 1001)), Workgroups { x: 125, y: 125, z: 1 });
    assert_eq!(dispatch_size(ext(7, 7)), Workgroups { x: 0, y: 0, z: 1 });
    assert_eq!(dispatch_size(ext(0, 0)), Workgroups { x: 0, y: 0, z: 1 });
}

#[test]
fn frame_without_resize_keeps_ring_extent() {
    let mut vk = Vk::new(ext(800, 600));
    assert_eq!(vk.next_frame(ext(800, 600)), Request::Acquire);
    let f = vk.on_acquire(AcquireOutcome::Ready { index: 2 }).unwrap();
    assert_eq!(f, Frame { idx: 2, extent: ext(800, 600), serial: 0 });
    assert_eq!(f.workgroups(), Workgroups { x: 100, y: 75, z: 1 });
    assert_eq!(vk.phase(), Phase::Acquired { frame: f });
}

#[test]
fn resize_rebuilds_at_the_drawable_extent() {
    let mut vk = Vk::new(ext(800, 600));
    vk.mark_for_resize();
    vk.mark_for_resize();
    assert!(vk.needs_rebuild());
    assert_eq!(vk.next_frame(ext(1024, 768)), Request::Rebuild { extent: ext(1024, 768) });
    assert!(!vk.needs_rebuild());
    assert_eq!(vk.extent(), ext(1024, 768));
    let f = vk.on_acquire(AcquireOutcome::Ready { index: 0 }).unwrap();
    assert_eq!(f.extent, ext(1024, 768));
    assert_eq!(f.workgroups(), Workgroups { x: 128, y: 96, z: 1 });
}

#[test]
fn stale_acquire_rebuilds_exactly_once_then_hands_out_frame() {
    let mut vk = Vk::new(ext(640, 480));
    assert_eq!(vk.next_frame(ext(640, 480)), Request::Acquire);
    assert_eq!(vk.on_acquire(AcquireOutcome::Stale), None);
    assert!(vk.needs_rebuild());
    assert_eq!(vk.next_frame(ext(660, 500)), Request::Rebuild { extent: ext(660, 500) });
    let f = vk.on_acquire(AcquireOutcome::Ready { index: 1 }).unwrap();
    assert_eq!(f, Frame { idx: 1, extent: ext(660, 500), serial: 0 });
    assert!(!vk.needs_rebuild());
}

#[test]
fn repeated_stale_answers_end_with_a_frame() {
    let mut vk = Vk::new(ext(640, 480));
    let mut rebuilds = 0;
    let mut answers = vec![AcquireOutcome::Stale; 5];
    answers.push(AcquireOutcome::Ready { index: 3 });
    let mut frame = None;
    for a in answers {
        if let Request::Rebuild { .. } = vk.next_frame(ext(320, 240)) {
            rebuilds += 1;
        }
        frame = vk.on_acquire(a);
    }
    assert_eq!(rebuilds, 5);
    assert_eq!(frame, Some(Frame { idx: 3, extent: ext(320, 240), serial: 0 }));
}

#[test]
fn each_submission_waits_on_the_previous_frame() {
    let mut vk = Vk::new(ext(64, 64));
    for n in 0..4u64 {
        vk.next_frame(ext(64, 64));
        let f = vk.on_acquire(AcquireOutcome::Ready { index: (n % 3) as usize }).unwrap();
        assert_eq!(f.serial, n);
        let s = vk.submit(f);
        assert_eq!(s.frame, f);
        assert_eq!(s.after.frames, n);
        assert_eq!(s.after.pending, n > 0);
        vk.on_flush(FlushOutcome::Flushed);
        assert_eq!(vk.end_of_frame(), Token { frames: n + 1, pending: true });
        assert_eq!(vk.phase(), Phase::Idle);
    }
}

#[test]
fn stale_flush_drops_frame_and_asks_for_rebuild() {
    let mut vk = Vk::new(ext(64, 64));
    vk.next_frame(ext(64, 64));
    let f = vk.on_acquire(AcquireOutcome::Ready { index: 0 }).unwrap();
    vk.submit(f);
    vk.on_flush(FlushOutcome::Stale);
    assert_eq!(vk.end_of_frame(), Token { frames: 1, pending: false });
    assert!(vk.needs_rebuild());
    assert_eq!(vk.next_frame(ext(80, 80)), Request::Rebuild { extent: ext(80, 80) });
    let g = vk.on_acquire(AcquireOutcome::Ready { index: 1 }).unwrap();
    assert_eq!(g.serial, 1);
    assert_eq!(vk.submit(g).after, Token { frames: 1, pending: false });
}

#[test]
fn failed_flush_drops_frame_without_rebuild() {
    let mut vk = Vk::new(ext(64, 64));
    vk.next_frame(ext(64, 64));
    let f = vk.on_acquire(AcquireOutcome::Ready { index: 0 }).unwrap();
    vk.submit(f);
    vk.on_flush(FlushOutcome::Failed);
    assert_eq!(vk.end_of_frame(), Token { frames: 1, pending: false });
    assert!(!vk.needs_rebuild());
    assert_eq!(vk.next_frame(ext(64, 64)), Request::Acquire);
}

#[test]
fn new_engine_starts_with_signalled_token() {
    let vk = Vk::new(ext(10, 20));
    assert_eq!(vk.end_of_frame(), Token { frames: 0, pending: false });
    assert_eq!(vk.phase(), Phase::Idle);
    assert_eq!(vk.extent(), ext(10, 20));
    assert!(!vk.needs_rebuild());
}
