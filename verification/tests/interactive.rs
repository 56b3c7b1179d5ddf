use fractal::animation::FractalAnimationStatus;
use fractal::fractaldata::{AnimationSetup, FractalConfig};
use fractal::interactive::{initial_model, update_model, UiMessage};
use fractal::SelectedFractal;

#[test]
fn selecting_configuring_and_running_a_fractal() {
    let model = initial_model();
    assert_eq!(model.selected_fractal, SelectedFractal::BarnsleyFern);
    assert_eq!(model.current_config, FractalConfig::NoConfig);
    assert_eq!(model.status, FractalAnimationStatus::NotStarted);
    assert!(!model.has_animation);

    // Without an animation, neither frames nor zooms happen.
    let (model, action) = update_model(model, UiMessage::AnimationFrameRequested);
    assert!(!action.draw_frame);
    let (model, _) = update_model(model, UiMessage::CursorDown);
    let (model, action) = update_model(model, UiMessage::CursorUp);
    assert_eq!(action.zoom, None);

    let (model, action) = update_model(model, UiMessage::FractalSelected("mandelbrot".to_string()));
    assert_eq!(model.selected_fractal, SelectedFractal::Mandelbrot);
    assert_eq!(model.current_config, FractalConfig::EscapeTimeConfig { max_iterations: 100, power: 2 });
    assert_eq!(model.status, FractalAnimationStatus::NotStarted);
    assert_eq!(action.start_animation, None);

    let (model, _) = update_model(model, UiMessage::ConfigChanged("power".to_string(), 3));
    assert_eq!(model.current_config, FractalConfig::EscapeTimeConfig { max_iterations: 100, power: 3 });

    let (model, action) = update_model(model, UiMessage::RunClicked);
    assert_eq!(
        action.start_animation,
        Some(AnimationSetup::EscapeTime { fractal: SelectedFractal::Mandelbrot, max_iterations: 100, power: 3 })
    );
    assert!(action.request_frame);
    assert_eq!(model.status, FractalAnimationStatus::Animating);
    assert!(model.has_animation);

    let (model, action) = update_model(model, UiMessage::AnimationFrameRequested);
    assert!(action.draw_frame);
    let (model, action) = update_model(model, UiMessage::FrameDrawn { more: false });
    assert!(!action.request_frame);
    assert_eq!(model.status, FractalAnimationStatus::Done);

    let (model, _) = update_model(model, UiMessage::CursorMoved { x: 5, y: 6 });
    let (model, _) = update_model(model, UiMessage::CursorDown);
    let (model, _) = update_model(model, UiMessage::CursorMoved { x: 10, y: 12 });
    let (model, action) = update_model(model, UiMessage::CursorUp);
    assert_eq!(action.zoom, Some(((5, 6), (10, 12))));
    let (model, action) = update_model(model, UiMessage::ZoomDone { accepted: true });
    assert!(action.request_frame);
    assert_eq!(model.status, FractalAnimationStatus::Animating);

    let (model, _) = update_model(model, UiMessage::PauseClicked);
    assert_eq!(model.status, FractalAnimationStatus::Paused);
    let (model, action) = update_model(model, UiMessage::FractalSelected("cestarotri".to_string()));
    assert_eq!(model.selected_fractal, SelectedFractal::CesaroTri);
    assert_eq!(model.current_config, FractalConfig::TurtleCurveConfig { iteration: 1 });
    assert_eq!(model.status, FractalAnimationStatus::NotStarted);
    assert!(!action.request_frame);
}
