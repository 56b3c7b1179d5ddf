//! The model of an interactive user interface that lets its user pick a fractal, configure it,
//! and start, pause, resume and zoom its animation: how each message changes the model, and what
//! the interface has to do about it (start an animation, draw a frame, request the next frame,
//! zoom). Drawing and zooming are done by the interface, which reports their outcome back as a
//! message of its own.
use crate::animation::{next_status, spec_next_status, AnimationEvent, FractalAnimationStatus, StatusUpdate};
use crate::fractaldata::{
    animation_setup, config_suits, default_config, lemma_configuration_keeps_suiting,
    spec_animation_setup, spec_default_config, spec_has_field, spec_with_change, AnimationSetup,
    FractalConfig,
};
use crate::{accepts_token, SelectedFractal};
use vstd::prelude::*;

verus! {

/// What the interface knows.
#[derive(Debug, Clone, Copy, PartialEq, Eq)]
pub struct UiModel {
    /// The fractal whose configuration is shown, and which is started on request.
    pub selected_fractal: SelectedFractal,
    /// The configuration of the selected fractal.
    pub current_config: FractalConfig,
    /// Whether the current animation is animating, paused, or done.
    pub status: FractalAnimationStatus,
    /// Whether an animation was ever started.
    pub has_animation: bool,
    /// Where the pointer is, in pixels of the canvas.
    pub cursor_coords: (i32, i32),
    /// Where the pointer was last pressed, to start selecting an area to zoom into.
    pub zoom_start: Option<(i32, i32)>,
}

/// What happened in the interface.
#[derive(Debug)]
pub enum UiMessage {
    /// The fractal with this token was selected.
    FractalSelected(String),
    /// The configuration field with this name changed to this value.
    ConfigChanged(String, u64),
    /// A new animation of the selected fractal should start.
    RunClicked,
    /// The animation should pause.
    PauseClicked,
    /// The animation should resume.
    ResumeClicked,
    /// The next animation frame is due.
    AnimationFrameRequested,
    /// A frame was drawn; `more` tells whether the animation has frames left.
    FrameDrawn { more: bool },
    /// The pointer moved to these canvas coordinates.
    CursorMoved { x: i32, y: i32 },
    /// The pointer was pressed.
    CursorDown,
    /// The pointer was released.
    CursorUp,
    /// A zoom was done; `accepted` tells whether the animation supports zooming.
    ZoomDone { accepted: bool },
}

/// What the interface has to do after a message.
#[derive(Debug, Clone, Copy, PartialEq, Eq)]
pub struct UiAction {
    /// Build a new animation with this setup, replacing the current one.
    pub start_animation: Option<AnimationSetup>,
    /// Ask for another animation frame after the next render.
    pub request_frame: bool,
    /// Draw one frame of the current animation, and report it with `FrameDrawn`.
    pub draw_frame: bool,
    /// Zoom the current animation into the area between these two canvas points, and report it
    /// with `ZoomDone`.
    pub zoom: Option<((i32, i32), (i32, i32))>,
}

/// Nothing to do.
pub open spec fn spec_no_action() -> UiAction {
    UiAction { start_animation: None, request_frame: false, draw_frame: false, zoom: None }
}

/// The model with the status of `update`, and a frame requested when `update` asks for one.
pub open spec fn spec_with_status(model: UiModel, update: StatusUpdate) -> (UiModel, UiAction) {
    (
        UiModel {
            selected_fractal: model.selected_fractal,
            current_config: model.current_config,
            status: update.status,
            has_animation: model.has_animation,
            cursor_coords: model.cursor_coords,
            zoom_start: model.zoom_start,
        },
        UiAction {
            start_animation: None,
            request_frame: update.request_frame,
            draw_frame: false,
            zoom: None,
        },
    )
}

/// The fractal that `token` names.
pub open spec fn selected_by(token: Seq<char>) -> SelectedFractal {
    choose|f: SelectedFractal| #[trigger] accepts_token(f, token)
}

/// The model when the interface starts: the Barnsley fern selected, nothing started.
pub open spec fn spec_initial_model() -> UiModel {
    UiModel {
        selected_fractal: SelectedFractal::BarnsleyFern,
        current_config: FractalConfig::NoConfig,
        status: FractalAnimationStatus::NotStarted,
        has_animation: false,
        cursor_coords: (0, 0),
        zoom_start: None,
    }
}

/// The messages that the interface can handle in `model`: a selected token must name a
/// fractal, a changed field must be one of the configuration, and a run needs a configuration
/// that suits the selected fractal.
pub open spec fn update_allowed(model: UiModel, msg: UiMessage) -> bool {
    match msg {
        UiMessage::FractalSelected(name) => exists|f: SelectedFractal| #[trigger] accepts_token(f, name@),
        UiMessage::ConfigChanged(field, _) => spec_has_field(model.current_config, field@),
        UiMessage::RunClicked => config_suits(model.selected_fractal, model.current_config),
        _ => true,
    }
}

/// How the model changes with `msg`, and what the interface has to do:
/// - selecting a fractal shows its default configuration and resets the status;
/// - changing a field changes the configuration and resets the status;
/// - a run starts an animation set up from the selected fractal and its configuration;
/// - a due frame is drawn when there is an animation;
/// - pressing the pointer remembers where, releasing it zooms into the area between there and
///   the pointer when there is an animation;
/// - the status follows `spec_next_status` for each of these events.
pub open spec fn spec_update_model(model: UiModel, msg: UiMessage) -> (UiModel, UiAction) {
    match msg {
        UiMessage::FractalSelected(name) => {
            let f = selected_by(name@);
            spec_with_status(
                UiModel {
                    selected_fractal: f,
                    current_config: spec_default_config(f),
                    status: model.status,
                    has_animation: model.has_animation,
                    cursor_coords: model.cursor_coords,
                    zoom_start: model.zoom_start,
                },
                spec_next_status(model.status, AnimationEvent::FractalSelected),
            )
        },
        UiMessage::ConfigChanged(field, new_value) => spec_with_status(
            UiModel {
                selected_fractal: model.selected_fractal,
                current_config: spec_with_change(model.current_config, field@, new_value),
                status: model.status,
                has_animation: model.has_animation,
                cursor_coords: model.cursor_coords,
                zoom_start: model.zoom_start,
            },
            spec_next_status(model.status, AnimationEvent::ConfigChanged),
        ),
        UiMessage::RunClicked => {
            let (m, a) = spec_with_status(
                UiModel {
                    selected_fractal: model.selected_fractal,
                    current_config: model.current_config,
                    status: model.status,
                    has_animation: true,
                    cursor_coords: model.cursor_coords,
                    zoom_start: model.zoom_start,
                },
                spec_next_status(model.status, AnimationEvent::RunClicked),
            );
            (
                m,
                UiAction {
                    start_animation: Some(
                        spec_animation_setup(model.selected_fractal, model.current_config),
                    ),
                    request_frame: a.request_frame,
                    draw_frame: false,
                    zoom: None,
                },
            )
        },
        UiMessage::PauseClicked => spec_with_status(
            model,
            spec_next_status(model.status, AnimationEvent::PauseClicked),
        ),
        UiMessage::ResumeClicked => spec_with_status(
            model,
            spec_next_status(model.status, AnimationEvent::ResumeClicked),
        ),
        UiMessage::AnimationFrameRequested => (
            model,
            UiAction {
                start_animation: None,
                request_frame: false,
                draw_frame: model.has_animation,
                zoom: None,
            },
        ),
        UiMessage::FrameDrawn { more } => spec_with_status(
            model,
            spec_next_status(model.status, AnimationEvent::FrameDrawn { more }),
        ),
        UiMessage::CursorMoved { x, y } => (
            UiModel {
                selected_fractal: model.selected_fractal,
                current_config: model.current_config,
                status: model.status,
                has_animation: model.has_animation,
                cursor_coords: (x, y),
                zoom_start: model.zoom_start,
            },
            spec_no_action(),
        ),
        UiMessage::CursorDown => (
            UiModel {
                selected_fractal: model.selected_fractal,
                current_config: model.current_config,
                status: model.status,
                has_animation: model.has_animation,
                cursor_coords: model.cursor_coords,
                zoom_start: Some(model.cursor_coords),
            },
            spec_no_action(),
        ),
        UiMessage::CursorUp => (
            model,
            UiAction {
                start_animation: None,
                request_frame: false,
                draw_frame: false,
                zoom: match model.zoom_start {
                    Some(start) => if model.has_animation {
                        Some((start, model.cursor_coords))
                    } else {
                        None
                    },
                    None => None,
                },
            },
        ),
        UiMessage::ZoomDone { accepted } => spec_with_status(
            model,
            spec_next_status(model.status, AnimationEvent::ZoomRequested { accepted }),
        ),
    }
}

/// The model when the interface starts.
pub fn initial_model() -> (r: UiModel)
    ensures
        r == spec_initial_model(),
{
    UiModel {
        selected_fractal: SelectedFractal::BarnsleyFern,
        current_config: FractalConfig::NoConfig,
        status: FractalAnimationStatus::NotStarted,
        has_animation: false,
        cursor_coords: (0, 0),
        zoom_start: None,
    }
}

/// The model with the status of `update`, and a frame requested when `update` asks for one.
fn with_status(model: UiModel, update: StatusUpdate) -> (r: (UiModel, UiAction))
    ensures
        r == spec_with_status(model, update),
{
    (
        UiModel {
            selected_fractal: model.selected_fractal,
            current_config: model.current_config,
            status: update.status,
            has_animation: model.has_animation,
            cursor_coords: model.cursor_coords,
            zoom_start: model.zoom_start,
        },
        UiAction {
            start_animation: None,
            request_frame: update.request_frame,
            draw_frame: false,
            zoom: None,
        },
    )
}

/// Handles `msg`: the new model, and what the interface has to do.
pub fn update_model(model: UiModel, msg: UiMessage) -> (r: (UiModel, UiAction))
    requires
        update_allowed(model, msg),
    ensures
        r == spec_update_model(model, msg),
{
    let no_action = UiAction { start_animation: None, request_frame: false, draw_frame: false, zoom: None };
    match msg {
        UiMessage::FractalSelected(name) => {
            let found = SelectedFractal::from_slug(name.as_str());
            proof {
                let g = selected_by(name@);
                assert(accepts_token(g, name@));
                assert(found == Some(g));
            }
            match found {
                Some(f) => with_status(
                    UiModel {
                        selected_fractal: f,
                        current_config: default_config(f),
                        status: model.status,
                        has_animation: model.has_animation,
                        cursor_coords: model.cursor_coords,
                        zoom_start: model.zoom_start,
                    },
                    next_status(model.status, AnimationEvent::FractalSelected),
                ),
                None => (model, no_action),
            }
        },
        UiMessage::ConfigChanged(field, new_value) => {
            let mut config = model.current_config;
            config.apply_change(field, new_value);
            with_status(
                UiModel {
                    selected_fractal: model.selected_fractal,
                    current_config: config,
                    status: model.status,
                    has_animation: model.has_animation,
                    cursor_coords: model.cursor_coords,
                    zoom_start: model.zoom_start,
                },
                next_status(model.status, AnimationEvent::ConfigChanged),
            )
        },
        UiMessage::RunClicked => {
            let setup = animation_setup(model.selected_fractal, model.current_config);
            let (m, a) = with_status(
                UiModel {
                    selected_fractal: model.selected_fractal,
                    current_config: model.current_config,
                    status: model.status,
                    has_animation: true,
                    cursor_coords: model.cursor_coords,
                    zoom_start: model.zoom_start,
                },
                next_status(model.status, AnimationEvent::RunClicked),
            );
            (
                m,
                UiAction {
                    start_animation: Some(setup),
                    request_frame: a.request_frame,
                    draw_frame: false,
                    zoom: None,
                },
            )
        },
        UiMessage::PauseClicked => with_status(
            model,
            next_status(model.status, AnimationEvent::PauseClicked),
        ),
        UiMessage::ResumeClicked => with_status(
            model,
            next_status(model.status, AnimationEvent::ResumeClicked),
        ),
        UiMessage::AnimationFrameRequested => (
            model,
            UiAction {
                start_animation: None,
                request_frame: false,
                draw_frame: model.has_animation,
                zoom: None,
            },
        ),
        UiMessage::FrameDrawn { more } => with_status(
            model,
            next_status(model.status, AnimationEvent::FrameDrawn { more }),
        ),
        UiMessage::CursorMoved { x, y } => (
            UiModel {
                selected_fractal: model.selected_fractal,
                current_config: model.current_config,
                status: model.status,
                has_animation: model.has_animation,
                cursor_coords: (x, y),
                zoom_start: model.zoom_start,
            },
            no_action,
        ),
        UiMessage::CursorDown => (
            UiModel {
                selected_fractal: model.selected_fractal,
                current_config: model.current_config,
                status: model.status,
                has_animation: model.has_animation,
                cursor_coords: model.cursor_coords,
                zoom_start: Some(model.cursor_coords),
            },
            no_action,
        ),
        UiMessage::CursorUp => {
            let zoom = match model.zoom_start {
                Some(start) => if model.has_animation {
                    Some((start, model.cursor_coords))
                } else {
                    None
                },
                None => None,
            };
            (
                model,
                UiAction { start_animation: None, request_frame: false, draw_frame: false, zoom },
            )
        },
        UiMessage::ZoomDone { accepted } => with_status(
            model,
            next_status(model.status, AnimationEvent::ZoomRequested { accepted }),
        ),
    }
}

/// The configuration of the interface always suits the selected fractal: it does when the
/// interface starts, and every message that the interface handles keeps it so. Hence a run is
/// always allowed.
pub proof fn lemma_update_keeps_config_suiting(model: UiModel, msg: UiMessage)
    requires
        config_suits(model.selected_fractal, model.current_config),
        update_allowed(model, msg),
    ensures
        config_suits(spec_initial_model().selected_fractal, spec_initial_model().current_config),
        config_suits(
            spec_update_model(model, msg).0.selected_fractal,
            spec_update_model(model, msg).0.current_config,
        ),
        update_allowed(spec_update_model(model, msg).0, UiMessage::RunClicked),
{
    match msg {
        UiMessage::FractalSelected(name) => {
            lemma_configuration_keeps_suiting(selected_by(name@), model.current_config, seq![], 0);
        },
        UiMessage::ConfigChanged(field, new_value) => {
            lemma_configuration_keeps_suiting(
                model.selected_fractal,
                model.current_config,
                field@,
                new_value,
            );
        },
        _ => {},
    }
}

/// What the messages do to the model:
/// - selecting the fractal `f` by one of its tokens shows `f` with its default configuration,
///   resets the status to not started and asks for nothing;
/// - a run marks that an animation exists and starts one set up from the selected fractal and its
///   configuration;
/// - a due frame is drawn exactly when an animation exists, and leaves the model as it is;
/// - moving the pointer records where it is, pressing it remembers that place;
/// - releasing it after a press, while an animation exists, zooms into the area between the
///   place of the press and the pointer, and leaves the model as it is.
pub proof fn lemma_messages_update_the_model(
    model: UiModel,
    f: SelectedFractal,
    name: String,
    x: i32,
    y: i32,
)
    ensures
        accepts_token(f, name@) ==> ({
            let (m, a) = spec_update_model(model, UiMessage::FractalSelected(name));
            &&& m.selected_fractal == f
            &&& m.current_config == spec_default_config(f)
            &&& m.status == FractalAnimationStatus::NotStarted
            &&& m.has_animation == model.has_animation
            &&& m.cursor_coords == model.cursor_coords
            &&& m.zoom_start == model.zoom_start
            &&& a == spec_no_action()
        }),
        ({
            let (m, a) = spec_update_model(model, UiMessage::RunClicked);
            &&& m.has_animation
            &&& m.selected_fractal == model.selected_fractal
            &&& m.current_config == model.current_config
            &&& a.start_animation == Some(
                spec_animation_setup(model.selected_fractal, model.current_config),
            )
        }),
        ({
            let (m, a) = spec_update_model(model, UiMessage::AnimationFrameRequested);
            &&& m == model
            &&& a.draw_frame == model.has_animation
            &&& !a.request_frame
            &&& a.start_animation is None
        }),
        spec_update_model(model, UiMessage::CursorMoved { x, y }).0.cursor_coords == (x, y),
        spec_update_model(model, UiMessage::CursorDown).0.zoom_start == Some(model.cursor_coords),
        ({
            let (m, a) = spec_update_model(model, UiMessage::CursorUp);
            &&& m == model
            &&& (model.has_animation && model.zoom_start is Some) ==> a.zoom == Some(
                (model.zoom_start->0, model.cursor_coords),
            )
            &&& !(model.has_animation && model.zoom_start is Some) ==> a.zoom is None
        }),
{
    if accepts_token(f, name@) {
        crate::lemma_token_names_one_fractal(f, selected_by(name@), name@);
    }
}

} // verus!
