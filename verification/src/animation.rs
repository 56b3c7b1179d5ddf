//! The decisions that drive animated renderers: which status an interactive animation is in and
//! when it asks for another frame, what each frame of a double-buffered window draws, and which of
//! the two buffers still needs a redraw.
use vstd::prelude::*;

verus! {

/// Whether an interactive animation is running.
#[derive(Copy, Clone, Debug, PartialEq, Eq)]
pub enum FractalAnimationStatus {
    NotStarted,
    Animating,
    Paused,
    Done,
}

/// What happened in an interactive user interface, as far as the animation's status is
/// concerned.
#[derive(Copy, Clone, Debug, PartialEq, Eq)]
pub enum AnimationEvent {
    /// Another fractal was selected.
    FractalSelected,
    /// A configuration field was changed.
    ConfigChanged,
    /// A new animation was built and should run.
    RunClicked,
    /// The running animation should pause.
    PauseClicked,
    /// The paused animation should resume.
    ResumeClicked,
    /// A frame was requested while there is no animation.
    FrameRequestedWithoutAnimation,
    /// A frame was drawn; `more` tells whether the animation has frames left.
    FrameDrawn { more: bool },
    /// The pointer moved or was pressed; this does not concern the status.
    PointerMoved,
    /// A zoom was requested by releasing the pointer; `accepted` tells whether the animation
    /// supports zooming.
    ZoomRequested { accepted: bool },
}

/// The status after an event, and whether to request another animation frame.
#[derive(Copy, Clone, Debug, PartialEq, Eq)]
pub struct StatusUpdate {
    pub status: FractalAnimationStatus,
    pub request_frame: bool,
}

/// How the status of an interactive animation follows from an event.
pub open spec fn spec_next_status(status: FractalAnimationStatus, event: AnimationEvent) -> StatusUpdate {
    match event {
        AnimationEvent::FractalSelected | AnimationEvent::ConfigChanged => StatusUpdate {
            status: FractalAnimationStatus::NotStarted,
            request_frame: false,
        },
        AnimationEvent::RunClicked => if status == FractalAnimationStatus::Animating {
            StatusUpdate { status, request_frame: false }
        } else {
            StatusUpdate { status: FractalAnimationStatus::Animating, request_frame: true }
        },
        AnimationEvent::PauseClicked => StatusUpdate {
            status: FractalAnimationStatus::Paused,
            request_frame: false,
        },
        AnimationEvent::ResumeClicked => StatusUpdate {
            status: FractalAnimationStatus::Animating,
            request_frame: true,
        },
        AnimationEvent::FrameDrawn { more } => if more {
            StatusUpdate { status, request_frame: status == FractalAnimationStatus::Animating }
        } else {
            StatusUpdate { status: FractalAnimationStatus::Done, request_frame: false }
        },
        AnimationEvent::ZoomRequested { accepted } => if accepted {
            StatusUpdate { status: FractalAnimationStatus::Animating, request_frame: true }
        } else {
            StatusUpdate { status, request_frame: false }
        },
        AnimationEvent::FrameRequestedWithoutAnimation | AnimationEvent::PointerMoved => {
            StatusUpdate { status, request_frame: false }
        },
    }
}

/// Decides the status of an interactive animation after `event`, and whether to request the
/// next animation frame.
pub fn next_status(status: FractalAnimationStatus, event: AnimationEvent) -> (r: StatusUpdate)
    ensures
        r == spec_next_status(status, event),
{
    match event {
        AnimationEvent::FractalSelected | AnimationEvent::ConfigChanged => StatusUpdate {
            status: FractalAnimationStatus::NotStarted,
            request_frame: false,
        },
        AnimationEvent::RunClicked => {
            match status {
                FractalAnimationStatus::Animating => StatusUpdate { status, request_frame: false },
                _ => StatusUpdate { status: FractalAnimationStatus::Animating, request_frame: true },
            }
        },
        AnimationEvent::PauseClicked => StatusUpdate {
            status: FractalAnimationStatus::Paused,
            request_frame: false,
        },
        AnimationEvent::ResumeClicked => StatusUpdate {
            status: FractalAnimationStatus::Animating,
            request_frame: true,
        },
        AnimationEvent::FrameDrawn { more } => {
            if more {
                let animating = match status {
                    FractalAnimationStatus::Animating => true,
                    _ => false,
                };
                StatusUpdate { status, request_frame: animating }
            } else {
                StatusUpdate { status: FractalAnimationStatus::Done, request_frame: false }
            }
        },
        AnimationEvent::ZoomRequested { accepted } => {
            if accepted {
                StatusUpdate { status: FractalAnimationStatus::Animating, request_frame: true }
            } else {
                StatusUpdate { status, request_frame: false }
            }
        },
        AnimationEvent::FrameRequestedWithoutAnimation | AnimationEvent::PointerMoved => {
            StatusUpdate { status, request_frame: false }
        },
    }
}

/// A frame is only ever requested for an animation that ends up animating: the animation loop
/// never keeps running behind a paused, finished or unstarted animation.
pub proof fn lemma_frames_only_while_animating(status: FractalAnimationStatus, event: AnimationEvent)
    ensures
        spec_next_status(status, event).request_frame ==> spec_next_status(status, event).status
            == FractalAnimationStatus::Animating,
{
}

/// What each event does to the status of an animation in status `s`:
/// - selecting a fractal or changing its configuration resets it to not started;
/// - a run starts animating and requests a frame, unless it is animating already;
/// - pausing pauses; resuming animates and requests a frame;
/// - a drawn frame with frames left keeps the status and requests the next frame only while
///   animating, and the last frame makes it done;
/// - an accepted zoom animates and requests a frame, a refused one changes nothing;
/// - a frame request without an animation, or a pointer move, changes nothing.
pub proof fn lemma_status_transitions(s: FractalAnimationStatus)
    ensures
        spec_next_status(s, AnimationEvent::FractalSelected) == (StatusUpdate {
            status: FractalAnimationStatus::NotStarted,
            request_frame: false,
        }),
        spec_next_status(s, AnimationEvent::ConfigChanged) == (StatusUpdate {
            status: FractalAnimationStatus::NotStarted,
            request_frame: false,
        }),
        s != FractalAnimationStatus::Animating ==> spec_next_status(s, AnimationEvent::RunClicked)
            == (StatusUpdate { status: FractalAnimationStatus::Animating, request_frame: true }),
        s == FractalAnimationStatus::Animating ==> spec_next_status(s, AnimationEvent::RunClicked)
            == (StatusUpdate { status: FractalAnimationStatus::Animating, request_frame: false }),
        spec_next_status(s, AnimationEvent::PauseClicked) == (StatusUpdate {
            status: FractalAnimationStatus::Paused,
            request_frame: false,
        }),
        spec_next_status(s, AnimationEvent::ResumeClicked) == (StatusUpdate {
            status: FractalAnimationStatus::Animating,
            request_frame: true,
        }),
        spec_next_status(s, AnimationEvent::FrameDrawn { more: true }) == (StatusUpdate {
            status: s,
            request_frame: s == FractalAnimationStatus::Animating,
        }),
        spec_next_status(s, AnimationEvent::FrameDrawn { more: false }) == (StatusUpdate {
            status: FractalAnimationStatus::Done,
            request_frame: false,
        }),
        spec_next_status(s, AnimationEvent::ZoomRequested { accepted: true }) == (StatusUpdate {
            status: FractalAnimationStatus::Animating,
            request_frame: true,
        }),
        spec_next_status(s, AnimationEvent::ZoomRequested { accepted: false }) == (StatusUpdate {
            status: s,
            request_frame: false,
        }),
        spec_next_status(s, AnimationEvent::FrameRequestedWithoutAnimation) == (StatusUpdate {
            status: s,
            request_frame: false,
        }),
        spec_next_status(s, AnimationEvent::PointerMoved) == (StatusUpdate {
            status: s,
            request_frame: false,
        }),
{
}

/// Which frame of a double-buffered window is being rendered.
#[derive(Copy, Clone, Debug, PartialEq, Eq)]
pub enum WhichFrame {
    FirstFrame,
    SecondFrame,
    AllOtherFrames,
}

/// The frame that follows `which`.
pub open spec fn spec_following_frame(which: WhichFrame) -> WhichFrame {
    match which {
        WhichFrame::FirstFrame => WhichFrame::SecondFrame,
        _ => WhichFrame::AllOtherFrames,
    }
}

/// What one frame of an animated turtle drawing does, on the buffer it renders to.
#[derive(Copy, Clone, Debug, PartialEq, Eq)]
pub struct TurtleFramePlan {
    /// Clear the buffer, reset its turtle and start the turtle program over.
    pub start_over: bool,
    /// Perform one extra move, so that this buffer stays one move ahead of the other.
    pub stagger: bool,
    /// Perform `2 * lines_per_frame` moves (two per line, since each buffer is shown every other
    /// frame).
    pub draw_lines: bool,
    /// The frame that comes next.
    pub next: WhichFrame,
}

/// The plan of a frame of a double-buffered turtle animation.
pub open spec fn spec_turtle_frame_plan(which: WhichFrame) -> TurtleFramePlan {
    TurtleFramePlan {
        start_over: which != WhichFrame::AllOtherFrames,
        stagger: which == WhichFrame::SecondFrame,
        draw_lines: which == WhichFrame::AllOtherFrames,
        next: spec_following_frame(which),
    }
}

/// Decides what a frame of a double-buffered turtle animation draws: the first two frames start
/// the program over on their buffer (the second one moving one step further, to stagger the two
/// buffers), every later frame continues drawing.
pub fn turtle_frame_plan(which: WhichFrame) -> (r: TurtleFramePlan)
    ensures
        r == spec_turtle_frame_plan(which),
{
    match which {
        WhichFrame::FirstFrame => TurtleFramePlan {
            start_over: true,
            stagger: false,
            draw_lines: false,
            next: WhichFrame::SecondFrame,
        },
        WhichFrame::SecondFrame => TurtleFramePlan {
            start_over: true,
            stagger: true,
            draw_lines: false,
            next: WhichFrame::AllOtherFrames,
        },
        WhichFrame::AllOtherFrames => TurtleFramePlan {
            start_over: false,
            stagger: false,
            draw_lines: true,
            next: WhichFrame::AllOtherFrames,
        },
    }
}

/// The two buffers of an animated turtle drawing, each given by the number of moves its turtle
/// has made since it last started over. Frame `j` (counted from 0 at the first frame after a
/// resize) renders to the buffer of the even frames when `j` is even, to the other one when it is
/// odd.
pub struct TurtleBuffers {
    pub which: WhichFrame,
    pub even: nat,
    pub odd: nat,
}

/// Frame `j` of an animated turtle drawing following its plan, with `lines_per_frame` lines per
/// frame: its buffer's turtle starts over when the plan says so, makes one extra move to
/// stagger, and `2 * lines_per_frame` moves when it draws lines.
pub open spec fn turtle_frame(buffers: TurtleBuffers, j: nat, lines_per_frame: nat) -> TurtleBuffers {
    let plan = spec_turtle_frame_plan(buffers.which);
    let mine = if j % 2 == 0 {
        buffers.even
    } else {
        buffers.odd
    };
    let start: nat = if plan.start_over {
        0
    } else {
        mine
    };
    let moves: nat = start + (if plan.stagger {
        1nat
    } else {
        0nat
    }) + (if plan.draw_lines {
        2 * lines_per_frame
    } else {
        0nat
    });
    if j % 2 == 0 {
        TurtleBuffers { which: plan.next, even: moves, odd: buffers.odd }
    } else {
        TurtleBuffers { which: plan.next, even: buffers.even, odd: moves }
    }
}

/// The buffers after the first `n` frames that follow a resize.
pub open spec fn turtle_frames(n: nat, lines_per_frame: nat) -> TurtleBuffers
    decreases n,
{
    if n == 0 {
        TurtleBuffers { which: WhichFrame::FirstFrame, even: 0, odd: 0 }
    } else {
        turtle_frame(turtle_frames((n - 1) as nat, lines_per_frame), (n - 1) as nat, lines_per_frame)
    }
}

/// The moves on the buffer that frame `j` renders to.
pub open spec fn turtle_moves_of(buffers: TurtleBuffers, j: nat) -> nat {
    if j % 2 == 0 {
        buffers.even
    } else {
        buffers.odd
    }
}

/// The moves on the screen after frame `j`: `j * lines_per_frame` after an even frame, one more
/// than `(j - 1) * lines_per_frame` after an odd one.
pub open spec fn turtle_moves_shown(j: nat, lines_per_frame: nat) -> nat {
    if j % 2 == 0 {
        j * lines_per_frame
    } else {
        1 + ((j - 1) as nat) * lines_per_frame
    }
}

/// The staggered buffers make the animation advance: after frame `n - 1` its buffer shows
/// `turtle_moves_shown(n - 1)` moves and the other buffer still shows those of the frame before,
/// so with at least one line per frame every frame shows more of the curve than the one before.
pub proof fn lemma_turtle_animation_advances(n: nat, lines_per_frame: nat)
    requires
        n >= 1,
    ensures
        turtle_moves_of(turtle_frames(n, lines_per_frame), (n - 1) as nat) == turtle_moves_shown(
            (n - 1) as nat,
            lines_per_frame,
        ),
        n >= 2 ==> turtle_moves_of(turtle_frames(n, lines_per_frame), (n - 2) as nat)
            == turtle_moves_shown((n - 2) as nat, lines_per_frame),
        n >= 2 ==> turtle_frames(n, lines_per_frame).which == WhichFrame::AllOtherFrames,
        n == 1 ==> turtle_frames(n, lines_per_frame).which == WhichFrame::SecondFrame,
        lines_per_frame >= 1 ==> turtle_moves_shown(n, lines_per_frame) > turtle_moves_shown(
            (n - 1) as nat,
            lines_per_frame,
        ),
    decreases n,
{
    let l = lines_per_frame;
    let j = (n - 1) as nat;
    assert(j % 2 != n % 2);
    if n >= 2 {
        lemma_turtle_animation_advances(j, l);
        assert(j % 2 != (j - 1) as nat % 2);
        if n >= 3 {
            assert((n - 3) as nat % 2 == j % 2);
            assert(turtle_moves_shown(j, l) == turtle_moves_shown((n - 3) as nat, l) + 2 * l) by (nonlinear_arith)
                requires
                    j >= 2,
                    j % 2 == (n - 3) as nat % 2,
                    (n - 3) as nat == j - 2,
            {
            }
        }
    }
    assert(l >= 1 ==> turtle_moves_shown(n, l) > turtle_moves_shown(j, l)) by (nonlinear_arith)
        requires
            n >= 1,
            j == n - 1,
            j % 2 != n % 2,
    {
    }
}

/// Where the move that starts at step `start` of a turtle program ends, given which of the
/// program's steps are moves forward: just after the first move forward at or after `start`, or
/// at the end of the program if none follows. An animation draws one such move at a time: the
/// steps up to and including the next line.
pub fn steps_to_next_forward(is_forward: &Vec<bool>, start: usize) -> (n: usize)
    requires
        start <= is_forward.len(),
    ensures
        start <= n <= is_forward.len(),
        start < is_forward.len() ==> start < n,
        forall|i: int| start <= i < n - 1 ==> !is_forward@[i],
        n < is_forward.len() ==> is_forward@[n - 1],
{
    let mut n: usize = start;
    while n < is_forward.len()
        invariant
            start <= n <= is_forward.len(),
            forall|i: int| start <= i < n ==> !is_forward@[i],
        decreases is_forward.len() - n,
    {
        if is_forward[n] {
            return n + 1;
        }
        n = n + 1;
    }
    n
}

/// What one frame of an animated chaos game does, on the buffer it renders to.
#[derive(Copy, Clone, Debug, PartialEq, Eq)]
pub struct ChaosFramePlan {
    /// Clear the buffer first.
    pub clear: bool,
    /// Redraw the dots that the previous frame drew on the other buffer.
    pub catch_up: bool,
    /// The frame that comes next.
    pub next: WhichFrame,
}

/// The plan of a frame of a double-buffered chaos game.
pub open spec fn spec_chaos_frame_plan(which: WhichFrame) -> ChaosFramePlan {
    ChaosFramePlan {
        clear: which != WhichFrame::AllOtherFrames,
        catch_up: which != WhichFrame::FirstFrame,
        next: spec_following_frame(which),
    }
}

/// Decides what a frame of a double-buffered chaos game draws before its new dots: the first
/// two frames clear their buffer, and every frame but the first redraws the dots of the frame
/// before it, which went to the other buffer.
pub fn chaos_frame_plan(which: WhichFrame) -> (r: ChaosFramePlan)
    ensures
        r == spec_chaos_frame_plan(which),
{
    match which {
        WhichFrame::FirstFrame => ChaosFramePlan {
            clear: true,
            catch_up: false,
            next: WhichFrame::SecondFrame,
        },
        WhichFrame::SecondFrame => ChaosFramePlan {
            clear: true,
            catch_up: true,
            next: WhichFrame::AllOtherFrames,
        },
        WhichFrame::AllOtherFrames => ChaosFramePlan {
            clear: false,
            catch_up: true,
            next: WhichFrame::AllOtherFrames,
        },
    }
}

/// The two buffers of a double-buffered chaos game, each given by the frames (counted from 0
/// at the first frame after a resize) whose dots it holds. Frame `j` renders to buffer `j % 2`:
/// the first component is the buffer of the even frames.
pub struct ChaosBuffers {
    pub which: WhichFrame,
    pub even: Set<nat>,
    pub odd: Set<nat>,
}

/// Frame `j` of a chaos game following its plan: on its buffer, clear when the plan says so,
/// redraw the dots of frame `j - 1` when it catches up, then draw the dots of frame `j`.
pub open spec fn chaos_frame(buffers: ChaosBuffers, j: nat) -> ChaosBuffers {
    let plan = spec_chaos_frame_plan(buffers.which);
    let mine = if j % 2 == 0 {
        buffers.even
    } else {
        buffers.odd
    };
    let cleared = if plan.clear {
        Set::empty()
    } else {
        mine
    };
    let caught_up = if plan.catch_up {
        cleared.insert((j - 1) as nat)
    } else {
        cleared
    };
    let drawn = caught_up.insert(j);
    if j % 2 == 0 {
        ChaosBuffers { which: plan.next, even: drawn, odd: buffers.odd }
    } else {
        ChaosBuffers { which: plan.next, even: buffers.even, odd: drawn }
    }
}

/// The buffers after the first `n` frames that follow a resize.
pub open spec fn chaos_frames(n: nat) -> ChaosBuffers
    decreases n,
{
    if n == 0 {
        ChaosBuffers { which: WhichFrame::FirstFrame, even: Set::empty(), odd: Set::empty() }
    } else {
        chaos_frame(chaos_frames((n - 1) as nat), (n - 1) as nat)
    }
}

/// The frames `0..n`.
pub open spec fn frames_below(n: nat) -> Set<nat> {
    Set::new(|k: nat| k < n)
}

/// The buffer that frame `j` renders to.
pub open spec fn chaos_buffer_of(buffers: ChaosBuffers, j: nat) -> Set<nat> {
    if j % 2 == 0 {
        buffers.even
    } else {
        buffers.odd
    }
}

/// Double buffering loses no dots: after frame `n - 1`, the buffer it rendered to (the one on
/// the screen) holds the dots of every frame since the resize, and the other buffer holds all
/// of them but the last frame's.
pub proof fn lemma_chaos_game_shows_every_dot(n: nat)
    requires
        n >= 1,
    ensures
        chaos_buffer_of(chaos_frames(n), (n - 1) as nat) == frames_below(n),
        n >= 2 ==> chaos_buffer_of(chaos_frames(n), (n - 2) as nat) == frames_below((n - 1) as nat),
        n >= 2 ==> chaos_frames(n).which == WhichFrame::AllOtherFrames,
        n == 1 ==> chaos_frames(n).which == WhichFrame::SecondFrame,
    decreases n,
{
    let b = chaos_frames(n);
    let j = (n - 1) as nat;
    if n == 1 {
        assert(chaos_frames(0).which == WhichFrame::FirstFrame);
        assert(b.even =~= frames_below(1));
    } else {
        lemma_chaos_game_shows_every_dot(j);
        let prev = chaos_frames(j);
        assert(j % 2 != (j - 1) as nat % 2);
        if n == 2 {
            assert(chaos_buffer_of(b, j) =~= frames_below(n));
            assert(chaos_buffer_of(b, (n - 2) as nat) == chaos_buffer_of(prev, 0));
        } else {
            assert((n - 3) as nat % 2 == j % 2);
            assert(chaos_buffer_of(prev, (n - 3) as nat) == chaos_buffer_of(prev, j));
            assert(chaos_buffer_of(b, j) =~= frames_below(n));
            assert(chaos_buffer_of(b, (n - 2) as nat) == chaos_buffer_of(prev, (n - 2) as nat));
        }
    }
}

/// Which of the two buffers of a double-buffered window still have to be redrawn.
#[derive(Copy, Clone, Debug, PartialEq, Eq)]
pub struct RedrawFlags {
    redraw: [bool; 2],
}

impl View for RedrawFlags {
    /// Whether buffer 0 and buffer 1 still have to be redrawn.
    type V = (bool, bool);

    closed spec fn view(&self) -> (bool, bool) {
        (self.redraw[0], self.redraw[1])
    }
}

/// Rendering frame `frame_num` with the pending redraws `flags`: whether the frame draws (its
/// buffer, `frame_num % 2`, was pending), and the pending redraws afterwards (its buffer is then
/// drawn).
pub open spec fn spec_render(flags: (bool, bool), frame_num: u32) -> ((bool, bool), bool) {
    if frame_num % 2 == 0 {
        ((false, flags.1), flags.0)
    } else {
        ((flags.0, false), flags.1)
    }
}

impl RedrawFlags {
    /// Both buffers need a drawing.
    pub fn new() -> (r: RedrawFlags)
        ensures
            r@ == (true, true),
    {
        RedrawFlags { redraw: [true, true] }
    }

    /// The window was resized: both buffers have to be redrawn.
    pub fn window_resized(&mut self)
        ensures
            final(self)@ == (true, true),
    {
        self.redraw = [true, true];
    }

    /// Decides whether frame `frame_num` has to draw: its buffer is `frame_num % 2`. When it
    /// does, the buffer counts as drawn from now on.
    pub fn render_frame(&mut self, frame_num: u32) -> (r: bool)
        ensures
            (final(self)@, r) == spec_render(old(self)@, frame_num),
    {
        let buffer = (frame_num % 2) as usize;
        let redraw = self.redraw[buffer];
        if redraw {
            self.redraw[buffer] = false;
        }
        redraw
    }
}

/// After a resize, the next two frames (one per buffer) draw, and from then on no frame draws
/// until the next resize.
pub proof fn lemma_each_buffer_redrawn_once(frame_num: u32, later_frame: u32)
    requires
        frame_num < u32::MAX,
    ensures
        ({
            let first = spec_render((true, true), frame_num);
            let second = spec_render(first.0, (frame_num + 1) as u32);
            &&& first.1
            &&& second.1
            &&& second.0 == (false, false)
            &&& spec_render(second.0, later_frame) == ((false, false), false)
        }),
{
}

} // verus!
