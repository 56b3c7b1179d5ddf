use fractal::fractaldata::{animation_setup, default_config, parse_arg, AnimationSetup, FractalConfig};
use fractal::{FractalCategory, SelectedFractal};

#[test]
fn all_lists_every_fractal_once() {
    let all = SelectedFractal::all();
    assert_eq!(all.len(), 12);
    assert_eq!(all[0], SelectedFractal::BarnsleyFern);
    assert_eq!(all[11], SelectedFractal::TerDragon);
    for (i, f) in all.iter().enumerate() {
        for g in all.iter().skip(i + 1) {
            assert_ne!(f, g);
            assert_ne!(f.slug(), g.slug());
        }
    }
}

#[test]
fn slug_round_trips() {
    for f in SelectedFractal::all() {
        assert_eq!(SelectedFractal::from_slug(f.slug()), Some(f));
    }
    assert_eq!(SelectedFractal::from_slug("dragon"), Some(SelectedFractal::Dragon));
    assert_eq!(SelectedFractal::from_slug("levyccurve"), Some(SelectedFractal::LevyCCurve));
    assert_eq!(SelectedFractal::from_slug("Dragon"), None);
    assert_eq!(SelectedFractal::from_slug(""), None);
    assert_eq!(SelectedFractal::from_slug("dragon "), None);
}

#[test]
fn names_descriptions_and_categories() {
    assert_eq!(SelectedFractal::Cesaro.name(), "Cesàro");
    assert_eq!(SelectedFractal::LevyCCurve.name(), "Lévy C Curve");
    assert_eq!(SelectedFractal::Sierpinski.name(), "Sierpiński Triangle");
    assert_eq!(SelectedFractal::RoadRunner.name(), "Roadrunner");
    assert_eq!(SelectedFractal::TerDragon.slug(), "terdragon");
    assert_eq!(SelectedFractal::Dragon.description(), "Draws a dragon curve fractal");
    assert_eq!(
        SelectedFractal::BarnsleyFern.description(),
        "Draws the Barnsley Fern fractal using a chaos game with affine transforms."
    );
    assert_eq!(SelectedFractal::BarnsleyFern.category(), FractalCategory::ChaosGames);
    assert_eq!(SelectedFractal::Sierpinski.category(), FractalCategory::ChaosGames);
    assert_eq!(SelectedFractal::Mandelbrot.category(), FractalCategory::EscapeTimeFractals);
    assert_eq!(SelectedFractal::BurningMandel.category(), FractalCategory::EscapeTimeFractals);
    assert_eq!(SelectedFractal::KochCurve.category(), FractalCategory::TurtleCurves);
    assert_eq!(SelectedFractal::TerDragon.category(), FractalCategory::TurtleCurves);
}

#[test]
fn default_configs_follow_category() {
    assert_eq!(default_config(SelectedFractal::Sierpinski), FractalConfig::NoConfig);
    assert_eq!(default_config(SelectedFractal::Dragon), FractalConfig::TurtleCurveConfig { iteration: 1 });
    assert_eq!(
        default_config(SelectedFractal::RoadRunner),
        FractalConfig::EscapeTimeConfig { max_iterations: 100, power: 2 }
    );
}

#[test]
fn apply_change_sets_the_named_field() {
    let mut config = default_config(SelectedFractal::Mandelbrot);
    assert!(config.has_field("max_iterations"));
    assert!(config.has_field("power"));
    assert!(!config.has_field("iteration"));
    config.apply_change("max_iterations".to_string(), 500);
    assert_eq!(config, FractalConfig::EscapeTimeConfig { max_iterations: 500, power: 2 });
    config.apply_change("power".to_string(), 3);
    assert_eq!(config, FractalConfig::EscapeTimeConfig { max_iterations: 500, power: 3 });

    let mut turtle = default_config(SelectedFractal::KochCurve);
    assert!(turtle.has_field("iteration"));
    assert!(!turtle.has_field("power"));
    turtle.apply_change("iteration".to_string(), 7);
    assert_eq!(turtle, FractalConfig::TurtleCurveConfig { iteration: 7 });

    assert!(!FractalConfig::NoConfig.has_field("iteration"));
}

#[test]
fn parse_arg_keeps_values_and_explains_errors() {
    let ok: Result<u64, String> = parse_arg("ITERATION", Ok(12));
    assert_eq!(ok, Ok(12));
    let parsed = "12x".parse::<u64>().map_err(|e| e.to_string());
    let err = parse_arg("ITERATION", parsed);
    assert_eq!(err, Err("Error parsing ITERATION: invalid digit found in string".to_string()));
    let empty: Result<u64, String> = parse_arg("", Err(String::new()));
    assert_eq!(empty, Err("Error parsing : ".to_string()));
}

#[test]
fn animation_setup_takes_the_parameters_of_the_category() {
    assert_eq!(
        animation_setup(SelectedFractal::Sierpinski, FractalConfig::NoConfig),
        AnimationSetup::ChaosGame { fractal: SelectedFractal::Sierpinski }
    );
    assert_eq!(
        animation_setup(SelectedFractal::BarnsleyFern, FractalConfig::TurtleCurveConfig { iteration: 4 }),
        AnimationSetup::ChaosGame { fractal: SelectedFractal::BarnsleyFern }
    );
    assert_eq!(
        animation_setup(
            SelectedFractal::BurningShip,
            FractalConfig::EscapeTimeConfig { max_iterations: 250, power: 3 }
        ),
        AnimationSetup::EscapeTime { fractal: SelectedFractal::BurningShip, max_iterations: 250, power: 3 }
    );
    assert_eq!(
        animation_setup(SelectedFractal::LevyCCurve, FractalConfig::TurtleCurveConfig { iteration: 9 }),
        AnimationSetup::TurtleCurve { fractal: SelectedFractal::LevyCCurve, iteration: 9 }
    );
}

#[test]
fn configuring_the_selected_fractal_keeps_a_config_that_starts_it() {
    for fractal in SelectedFractal::all() {
        let mut config = default_config(fractal);
        for field in ["max_iterations", "power", "iteration"] {
            if config.has_field(field) {
                config.apply_change(field.to_string(), 5);
            }
        }
        match animation_setup(fractal, config) {
            AnimationSetup::ChaosGame { fractal: f } => {
                assert_eq!(f, fractal);
                assert_eq!(fractal.category(), FractalCategory::ChaosGames);
                assert_eq!(config, FractalConfig::NoConfig);
            }
            AnimationSetup::EscapeTime { fractal: f, max_iterations, power } => {
                assert_eq!(f, fractal);
                assert_eq!((max_iterations, power), (5, 5));
            }
            AnimationSetup::TurtleCurve { fractal: f, iteration } => {
                assert_eq!(f, fractal);
                assert_eq!(iteration, 5);
            }
        }
    }
}

#[test]
fn triangle_cesaro_is_also_accepted_as_cestarotri() {
    assert_eq!(SelectedFractal::from_slug("cestarotri"), Some(SelectedFractal::CesaroTri));
    assert_eq!(SelectedFractal::from_slug("cesarotri"), Some(SelectedFractal::CesaroTri));
    assert_eq!(SelectedFractal::CesaroTri.alias(), Some("cestarotri"));
    assert_eq!(SelectedFractal::CesaroTri.slug(), "cesarotri");
    for f in SelectedFractal::all() {
        if f != SelectedFractal::CesaroTri {
            assert_eq!(f.alias(), None);
        }
    }
}
