use fractal::animation::steps_to_next_forward;
use fractal::animation::{
    chaos_frame_plan, next_status, turtle_frame_plan, AnimationEvent, FractalAnimationStatus,
    RedrawFlags, StatusUpdate, WhichFrame,
};
use fractal::color::{aeblue_u8, black_u8, white_u8, ColorU8};
use fractal::escapetime::burningship::{BurningMandel, BurningShip, RoadRunner};
use fractal::escapetime::mandelbrot::Mandelbrot;
use fractal::escapetime::{gradient_count, gradient_index};
use fractal::work_multiplexer::{
    columns_for_thread, stop_requested, ChannelState, ThreadNotifier, ThreadedWorkMultiplexerBuilder,
};
use std::sync::mpsc::channel;
use FractalAnimationStatus::{Animating, Done, NotStarted, Paused};

#[test]
fn escape_time_parameters() {
    let b = BurningShip::new(100, 2);
    assert_eq!((b.max_iterations(), b.power()), (100, 2));
    let m = BurningMandel::new(7, 3);
    assert_eq!((m.max_iterations(), m.power()), (7, 3));
    let r = RoadRunner::new(0, 4);
    assert_eq!((r.max_iterations(), r.power()), (0, 4));
    let mb = Mandelbrot::new(100, 2);
    assert_eq!((mb.max_iterations(), mb.power()), (100, 2));
}

#[test]
fn gradient_bounds() {
    assert_eq!(gradient_count(100), 50);
    assert_eq!(gradient_count(50), 50);
    assert_eq!(gradient_count(12), 12);
    assert_eq!(gradient_index(3), 3);
    assert_eq!(gradient_index(49), 49);
    assert_eq!(gradient_index(1000), 49);
    for max in 1u64..120 {
        for t in 0..max {
            assert!(gradient_index(t) < gradient_count(max));
        }
    }
}

#[test]
fn colors() {
    assert_eq!(black_u8(), ColorU8([0, 0, 0, 255]));
    assert_eq!(white_u8(), ColorU8([255, 255, 255, 255]));
    assert_eq!(aeblue_u8(), ColorU8([0, 0, 48, 255]));
}

#[test]
fn columns_are_split_between_threads() {
    assert_eq!(columns_for_thread(0, 3, 10), [0, 3, 6, 9]);
    assert_eq!(columns_for_thread(1, 3, 10), [2, 5, 8]);
    assert_eq!(columns_for_thread(2, 3, 10), [1, 4, 7]);
    assert_eq!(columns_for_thread(0, 1, 4), [0, 1, 2, 3]);
    assert_eq!(columns_for_thread(0, 5, 0), Vec::<u32>::new());
    for total in 1usize..7 {
        let mut seen = vec![0u32; 50];
        for t in 0..total {
            for x in columns_for_thread(t, total, 50) {
                seen[x as usize] += 1;
            }
        }
        assert!(seen.iter().all(|n| *n == 1));
    }
}

#[test]
fn notifier_stops_once_the_sender_is_gone() {
    let (tx, rx) = channel::<()>();
    let notifier = ThreadNotifier::new(rx);
    assert!(!notifier.should_i_stop());
    tx.send(()).unwrap();
    assert!(!notifier.should_i_stop());
    drop(tx);
    assert!(notifier.should_i_stop());
    assert!(stop_requested(ChannelState::Disconnected));
    assert!(!stop_requested(ChannelState::Empty));
    assert!(!stop_requested(ChannelState::Message));
}

#[test]
fn builder_names_and_counts_threads() {
    let builder = ThreadedWorkMultiplexerBuilder::new();
    assert!(builder.thread_count >= 1);
    assert_eq!(builder.thread_base_name(), "worker thread");
    let count = builder.thread_count;
    let renamed = builder.base_name("escapetime_render");
    assert_eq!(renamed.thread_base_name(), "escapetime_render");
    assert_eq!(renamed.thread_count, count);
    let default = ThreadedWorkMultiplexerBuilder::default();
    assert!(default.thread_count >= 1);
    assert_eq!(default.thread_base_name(), "worker thread");
}

#[test]
fn animation_status_transitions() {
    let update = |status, event| next_status(status, event);
    assert_eq!(update(Done, AnimationEvent::FractalSelected), StatusUpdate { status: NotStarted, request_frame: false });
    assert_eq!(update(Animating, AnimationEvent::ConfigChanged), StatusUpdate { status: NotStarted, request_frame: false });
    assert_eq!(update(NotStarted, AnimationEvent::RunClicked), StatusUpdate { status: Animating, request_frame: true });
    assert_eq!(update(Animating, AnimationEvent::RunClicked), StatusUpdate { status: Animating, request_frame: false });
    assert_eq!(update(Animating, AnimationEvent::PauseClicked), StatusUpdate { status: Paused, request_frame: false });
    assert_eq!(update(Paused, AnimationEvent::ResumeClicked), StatusUpdate { status: Animating, request_frame: true });
    assert_eq!(update(Animating, AnimationEvent::FrameDrawn { more: true }), StatusUpdate { status: Animating, request_frame: true });
    assert_eq!(update(Paused, AnimationEvent::FrameDrawn { more: true }), StatusUpdate { status: Paused, request_frame: false });
    assert_eq!(update(Animating, AnimationEvent::FrameDrawn { more: false }), StatusUpdate { status: Done, request_frame: false });
    assert_eq!(update(Done, AnimationEvent::ZoomRequested { accepted: true }), StatusUpdate { status: Animating, request_frame: true });
    assert_eq!(update(Done, AnimationEvent::ZoomRequested { accepted: false }), StatusUpdate { status: Done, request_frame: false });
    assert_eq!(update(Paused, AnimationEvent::PointerMoved), StatusUpdate { status: Paused, request_frame: false });
    assert_eq!(update(Animating, AnimationEvent::FrameRequestedWithoutAnimation), StatusUpdate { status: Animating, request_frame: false });
}

#[test]
fn double_buffered_frames() {
    let first = turtle_frame_plan(WhichFrame::FirstFrame);
    assert!(first.start_over && !first.stagger && !first.draw_lines);
    assert_eq!(first.next, WhichFrame::SecondFrame);
    let second = turtle_frame_plan(first.next);
    assert!(second.start_over && second.stagger && !second.draw_lines);
    assert_eq!(second.next, WhichFrame::AllOtherFrames);
    let other = turtle_frame_plan(second.next);
    assert!(!other.start_over && !other.stagger && other.draw_lines);
    assert_eq!(other.next, WhichFrame::AllOtherFrames);

    let c1 = chaos_frame_plan(WhichFrame::FirstFrame);
    assert!(c1.clear && !c1.catch_up);
    let c2 = chaos_frame_plan(c1.next);
    assert!(c2.clear && c2.catch_up);
    let c3 = chaos_frame_plan(c2.next);
    assert!(!c3.clear && c3.catch_up);
    assert_eq!(c3.next, WhichFrame::AllOtherFrames);
}

#[test]
fn each_buffer_is_redrawn_once_after_a_resize() {
    let mut flags = RedrawFlags::new();
    assert!(flags.render_frame(1));
    assert!(flags.render_frame(2));
    assert!(!flags.render_frame(3));
    assert!(!flags.render_frame(4));
    flags.window_resized();
    assert!(flags.render_frame(10));
    assert!(!flags.render_frame(12));
    assert!(flags.render_frame(13));
    assert!(!flags.render_frame(11));
}

#[test]
fn chaos_game_screen_shows_every_dot_so_far() {
    // Each frame draws its own dot, numbered by the frame.
    let mut buffers: [Vec<u32>; 2] = [Vec::new(), Vec::new()];
    let mut which = WhichFrame::FirstFrame;
    for frame in 0..9u32 {
        let plan = chaos_frame_plan(which);
        let mine = &mut buffers[(frame % 2) as usize];
        if plan.clear {
            mine.clear();
        }
        if plan.catch_up {
            mine.push(frame - 1);
        }
        mine.push(frame);
        which = plan.next;
        let mut shown = buffers[(frame % 2) as usize].clone();
        shown.sort();
        assert_eq!(shown, (0..=frame).collect::<Vec<u32>>());
    }
}

#[test]
fn turtle_animation_shows_more_every_frame() {
    let lines_per_frame = 3u64;
    let mut moves = [0u64; 2];
    let mut which = WhichFrame::FirstFrame;
    let mut shown = Vec::new();
    for frame in 0..8usize {
        let plan = turtle_frame_plan(which);
        let mine = &mut moves[frame % 2];
        if plan.start_over {
            *mine = 0;
        }
        if plan.stagger {
            *mine += 1;
        }
        if plan.draw_lines {
            *mine += 2 * lines_per_frame;
        }
        which = plan.next;
        shown.push(moves[frame % 2]);
    }
    assert_eq!(shown, vec![0, 1, 6, 7, 12, 13, 18, 19]);
}

#[test]
fn moves_end_at_the_next_forward() {
    // set position, set angle, pen down, forward, turn, forward, turn, up
    let program = vec![false, false, false, true, false, true, false, false];
    assert_eq!(steps_to_next_forward(&program, 0), 4);
    assert_eq!(steps_to_next_forward(&program, 4), 6);
    // the steps after the last forward make a group of their own
    assert_eq!(steps_to_next_forward(&program, 6), 8);
    assert_eq!(steps_to_next_forward(&program, 8), 8);
    let empty: Vec<bool> = Vec::new();
    assert_eq!(steps_to_next_forward(&empty, 0), 0);
    assert_eq!(steps_to_next_forward(&vec![true], 0), 1);
}
