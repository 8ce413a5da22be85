use wire::frame::{
    AcquireOutcome, DrawAction, DrawError, DrawEvent, DrawLoop, DrawPhase, PresentOutcome,
    FRAMES_IN_FLIGHT,
};
use wire::vulkan::{ERROR_OUT_OF_DATE_KHR, SUBOPTIMAL_KHR};

const ERROR_DEVICE_LOST: i32 = -4;

fn acquired(image: u32) -> DrawEvent {
    DrawEvent::Acquired { acquire: AcquireOutcome::Acquired { image, suboptimal: false } }
}

fn presented() -> DrawEvent {
    DrawEvent::Presented { present: PresentOutcome::Presented { suboptimal: false } }
}

/// Drives one frame that goes through without trouble and returns the actions.
fn draw_frame(d: &mut DrawLoop, image: u32, present: DrawEvent) -> Vec<DrawAction> {
    vec![
        d.step(DrawEvent::Begin),
        d.step(DrawEvent::FenceWaited { ok: true }),
        d.step(acquired(image)),
        d.step(DrawEvent::FenceReset { ok: true }),
        d.step(DrawEvent::Recorded),
        d.step(DrawEvent::Submitted { ok: true }),
        d.step(present),
    ]
}

#[test]
fn one_frame_goes_through() {
    let mut d = DrawLoop::new(FRAMES_IN_FLIGHT, 3);
    assert_eq!(d.frame(), 0);
    let actions = draw_frame(&mut d, 2, presented());
    assert_eq!(
        actions,
        vec![
            DrawAction::WaitFence { frame: 0 },
            DrawAction::AcquireImage { frame: 0 },
            DrawAction::ResetFence { frame: 0 },
            DrawAction::Record { frame: 0, image: 2 },
            DrawAction::Submit { frame: 0 },
            DrawAction::Present { frame: 0, image: 2 },
            DrawAction::Finished,
        ]
    );
    assert_eq!(d.frame(), 1);
    assert_eq!(d.phase(), DrawPhase::Idle);
}

#[test]
fn frames_take_turns() {
    let mut d = DrawLoop::new(FRAMES_IN_FLIGHT, 3);
    draw_frame(&mut d, 0, presented());
    let second = draw_frame(&mut d, 1, presented());
    assert_eq!(second[0], DrawAction::WaitFence { frame: 1 });
    assert_eq!(second[5], DrawAction::Present { frame: 1, image: 1 });
    assert_eq!(d.frame(), 0);
    let mut three = DrawLoop::new(3, 2);
    for expected in [1, 2, 0, 1] {
        draw_frame(&mut three, 1, presented());
        assert_eq!(three.frame(), expected);
    }
}

#[test]
fn out_of_date_present_still_finishes() {
    let mut d = DrawLoop::new(FRAMES_IN_FLIGHT, 3);
    let out_of_date =
        DrawEvent::Presented { present: PresentOutcome::Failed { code: ERROR_OUT_OF_DATE_KHR } };
    assert_eq!(draw_frame(&mut d, 0, out_of_date)[6], DrawAction::Finished);
    assert_eq!(d.frame(), 1);
    let suboptimal =
        DrawEvent::Presented { present: PresentOutcome::Failed { code: SUBOPTIMAL_KHR } };
    assert_eq!(draw_frame(&mut d, 0, suboptimal)[6], DrawAction::Finished);
    let reported =
        DrawEvent::Presented { present: PresentOutcome::Presented { suboptimal: true } };
    assert_eq!(draw_frame(&mut d, 0, reported)[6], DrawAction::Finished);
    assert_eq!(d.frame(), 1);
}

#[test]
fn present_failure_stops() {
    let mut d = DrawLoop::new(FRAMES_IN_FLIGHT, 3);
    let lost = DrawEvent::Presented { present: PresentOutcome::Failed { code: ERROR_DEVICE_LOST } };
    assert_eq!(
        draw_frame(&mut d, 0, lost)[6],
        DrawAction::Fail { error: DrawError::Present { code: ERROR_DEVICE_LOST } }
    );
    assert_eq!(d.frame(), 0);
    assert_eq!(d.phase(), DrawPhase::Idle);
}

#[test]
fn out_of_date_acquire_skips_the_frame() {
    let mut d = DrawLoop::new(FRAMES_IN_FLIGHT, 3);
    assert_eq!(d.step(DrawEvent::Begin), DrawAction::WaitFence { frame: 0 });
    assert_eq!(
        d.step(DrawEvent::FenceWaited { ok: true }),
        DrawAction::AcquireImage { frame: 0 }
    );
    let a = d.step(DrawEvent::Acquired {
        acquire: AcquireOutcome::Failed { code: ERROR_OUT_OF_DATE_KHR },
    });
    assert_eq!(a, DrawAction::Skipped);
    assert_eq!(d.frame(), 0);
    assert_eq!(d.phase(), DrawPhase::Idle);
    // The fence was never reset, so waiting on it again is safe: the retry
    // goes through.
    let retry = draw_frame(&mut d, 1, presented());
    assert_eq!(retry[0], DrawAction::WaitFence { frame: 0 });
    assert_eq!(retry[2], DrawAction::ResetFence { frame: 0 });
    assert_eq!(retry[6], DrawAction::Finished);
    assert_eq!(d.frame(), 1);
}

#[test]
fn fence_is_reset_only_after_an_image_is_acquired() {
    let mut d = DrawLoop::new(FRAMES_IN_FLIGHT, 3);
    d.step(DrawEvent::Begin);
    d.step(DrawEvent::FenceWaited { ok: true });
    assert_eq!(d.phase(), DrawPhase::Acquiring);
    assert_eq!(d.step(acquired(2)), DrawAction::ResetFence { frame: 0 });
    assert_eq!(d.phase(), DrawPhase::ResettingFence { image: 2 });
    assert_eq!(
        d.step(DrawEvent::FenceReset { ok: true }),
        DrawAction::Record { frame: 0, image: 2 }
    );
}

#[test]
fn failures_stop_the_frame() {
    let mut d = DrawLoop::new(FRAMES_IN_FLIGHT, 3);
    d.step(DrawEvent::Begin);
    assert_eq!(
        d.step(DrawEvent::FenceWaited { ok: false }),
        DrawAction::Fail { error: DrawError::FenceWait }
    );
    d.step(DrawEvent::Begin);
    d.step(DrawEvent::FenceWaited { ok: true });
    assert_eq!(
        d.step(DrawEvent::Acquired { acquire: AcquireOutcome::Failed { code: ERROR_DEVICE_LOST } }),
        DrawAction::Fail { error: DrawError::Acquire { code: ERROR_DEVICE_LOST } }
    );
    d.step(DrawEvent::Begin);
    d.step(DrawEvent::FenceWaited { ok: true });
    assert_eq!(
        d.step(acquired(3)),
        DrawAction::Fail { error: DrawError::ImageOutOfRange { image: 3 } }
    );
    d.step(DrawEvent::Begin);
    d.step(DrawEvent::FenceWaited { ok: true });
    d.step(acquired(1));
    assert_eq!(
        d.step(DrawEvent::FenceReset { ok: false }),
        DrawAction::Fail { error: DrawError::FenceReset }
    );
    d.step(DrawEvent::Begin);
    d.step(DrawEvent::FenceWaited { ok: true });
    d.step(acquired(1));
    d.step(DrawEvent::FenceReset { ok: true });
    d.step(DrawEvent::Recorded);
    assert_eq!(
        d.step(DrawEvent::Submitted { ok: false }),
        DrawAction::Fail { error: DrawError::Submit }
    );
    assert_eq!(d.frame(), 0);
}

#[test]
fn events_out_of_order_are_refused() {
    let mut d = DrawLoop::new(FRAMES_IN_FLIGHT, 3);
    assert_eq!(d.step(DrawEvent::Recorded), DrawAction::Fail { error: DrawError::OutOfOrder });
    assert_eq!(d.phase(), DrawPhase::Idle);
    d.step(DrawEvent::Begin);
    assert_eq!(d.step(DrawEvent::Begin), DrawAction::Fail { error: DrawError::OutOfOrder });
    assert_eq!(d.phase(), DrawPhase::WaitingFence);
}

#[test]
fn resized_swapchain_bounds_the_image() {
    let mut d = DrawLoop::new(FRAMES_IN_FLIGHT, 3);
    d.set_image_count(2);
    d.step(DrawEvent::Begin);
    d.step(DrawEvent::FenceWaited { ok: true });
    assert_eq!(
        d.step(acquired(2)),
        DrawAction::Fail { error: DrawError::ImageOutOfRange { image: 2 } }
    );
}
