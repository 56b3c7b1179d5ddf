use fractal::{FractalCategory, SelectedFractal};
use fractal::curves::cesaro::{self, CesaroFractal};
use fractal::curves::cesarotri::{self, CesaroTriFractal};
use fractal::curves::dragon::DragonFractal;
use fractal::curves::dragon::Turn::{Left, Right};
use fractal::curves::dragon::{DragonStep, Turn};
use fractal::curves::kochcurve::{self, KochCurve};
use fractal::curves::levyccurve::{self, LevyCCurve};
use fractal::curves::terdragon::{TerdragonFractal, LSA};
use fractal::curves::{lookup_turtle_program, TurtleCurve};
use fractal::lindenmayer::LindenmayerSystem;

#[test]
fn dragon_test_step_count() {
    assert_eq!(DragonFractal::new(0).number_of_steps(), 1);
    assert_eq!(DragonFractal::new(1).number_of_steps(), 2);
    assert_eq!(DragonFractal::new(2).number_of_steps(), 4);
    assert_eq!(DragonFractal::new(3).number_of_steps(), 8);
    assert_eq!(DragonFractal::new(4).number_of_steps(), 16);
}

#[test]
fn dragon_test_step_turn() {
    assert_eq!(DragonFractal::turn_after_step(1), Left);
    assert_eq!(DragonFractal::turn_after_step(2), Left);
    assert_eq!(DragonFractal::turn_after_step(3), Right);
    assert_eq!(DragonFractal::turn_after_step(4), Left);
    assert_eq!(DragonFractal::turn_after_step(5), Left);
    assert_eq!(DragonFractal::turn_after_step(6), Right);
    assert_eq!(DragonFractal::turn_after_step(7), Right);
    assert_eq!(DragonFractal::turn_after_step(8), Left);
    assert_eq!(DragonFractal::turn_after_step(9), Left);
    assert_eq!(DragonFractal::turn_after_step(10), Left);
    assert_eq!(DragonFractal::turn_after_step(11), Right);
    assert_eq!(DragonFractal::turn_after_step(12), Right);
    assert_eq!(DragonFractal::turn_after_step(13), Left);
    assert_eq!(DragonFractal::turn_after_step(14), Right);
    assert_eq!(DragonFractal::turn_after_step(15), Right);
}

#[test]
fn terdragon_test_step_count() {
    assert_eq!(TerdragonFractal::new(0).unwrap().number_of_steps(), 1);
    assert_eq!(TerdragonFractal::new(1).unwrap().number_of_steps(), 3);
    assert_eq!(TerdragonFractal::new(2).unwrap().number_of_steps(), 9);
    assert_eq!(TerdragonFractal::new(3).unwrap().number_of_steps(), 27);
}

#[test]
fn test_l_system() {
    let terdragon = TerdragonFractal::new(0).unwrap();
    assert_eq!(terdragon.generate(0), [LSA::F]);
    assert_eq!(terdragon.generate(1), [LSA::F, LSA::L, LSA::F, LSA::R, LSA::F]);
    assert_eq!(
        terdragon.generate(2),
        [
            LSA::F,
            LSA::L,
            LSA::F,
            LSA::R,
            LSA::F,
            LSA::L,
            LSA::F,
            LSA::L,
            LSA::F,
            LSA::R,
            LSA::F,
            LSA::R,
            LSA::F,
            LSA::L,
            LSA::F,
            LSA::R,
            LSA::F
        ]
    );
}

#[test]
fn test_lookup_turtle_program() {
    let maybe_cesaro = lookup_turtle_program("cesaro", 0);
    assert!(maybe_cesaro.is_ok());

    let bogus = lookup_turtle_program("foobar", 0);
    assert!(bogus.is_err());
}

#[test]
fn lookup_finds_each_curve_with_its_iteration() {
    assert!(matches!(lookup_turtle_program("cesaro", 3), Ok(TurtleCurve::Cesaro(c)) if c.iterations() == 3));
    assert!(matches!(lookup_turtle_program("cesarotri", 4), Ok(TurtleCurve::CesaroTri(c)) if c.iterations() == 4));
    assert!(matches!(lookup_turtle_program("dragon", 5), Ok(TurtleCurve::Dragon(c)) if c.iterations() == 5));
    assert!(matches!(lookup_turtle_program("kochcurve", 6), Ok(TurtleCurve::KochCurve(c)) if c.iterations() == 6));
    assert!(matches!(lookup_turtle_program("levyccurve", 7), Ok(TurtleCurve::LevyCCurve(c)) if c.iterations() == 7));
    assert!(matches!(lookup_turtle_program("terdragon", 8), Ok(TurtleCurve::Terdragon(c)) if c.iterations() == 8));
}

#[test]
fn lookup_error_names_the_missing_curve() {
    let err = lookup_turtle_program("Dragon", 2).unwrap_err();
    assert_eq!(err.requested_program_name(), "Dragon");
    assert_eq!(err.description(), "Could not find the specified TurtleProgram");
    assert_eq!(err.message(), "Could not find the specified TurtleProgram: Dragon");
    assert!(lookup_turtle_program("", 0).is_err());
}

#[test]
fn dragon_steps_double_with_each_fold() {
    for n in 0u64..63 {
        assert_eq!(DragonFractal::new(n + 1).number_of_steps(), 2 * DragonFractal::new(n).number_of_steps());
    }
    assert_eq!(DragonFractal::new(63).number_of_steps(), 1u64 << 63);
    assert_eq!(DragonFractal::new(64).number_of_steps(), 0);
}

#[test]
fn dragon_turns_repeat_at_every_scale() {
    assert_eq!(DragonFractal::turn_after_step(0), Right);
    for k in 1u64..200 {
        assert_eq!(DragonFractal::turn_after_step(2 * k), DragonFractal::turn_after_step(k));
        assert_eq!(DragonFractal::turn_after_step(4 * k + 1), Left);
        assert_eq!(DragonFractal::turn_after_step(4 * k + 3), Right);
    }
    assert_eq!(DragonFractal::turn_after_step(u64::MAX), Right);
    assert_eq!(DragonFractal::turn_after_step(1 << 63), Left);
}

#[test]
fn dragon_program_alternates_moves_and_turns() {
    let dragon = DragonFractal::new(2);
    let mut iter = dragon.turtle_program_iter();
    let mut steps = Vec::new();
    while let Some(step) = iter.next() {
        steps.push(step);
    }
    assert_eq!(
        steps,
        [
            DragonStep::Forward,
            DragonStep::Turn(Turn::Left),
            DragonStep::Forward,
            DragonStep::Turn(Turn::Left),
            DragonStep::Forward,
            DragonStep::Turn(Turn::Right),
            DragonStep::Forward,
            DragonStep::Turn(Turn::Left),
        ]
    );
    assert_eq!(iter.next(), None);
    assert_eq!(iter.next(), None);
}

#[test]
fn dragon_program_draws_number_of_steps_lines() {
    for n in 0u64..8 {
        let dragon = DragonFractal::new(n);
        let mut iter = dragon.turtle_program_iter();
        let mut forward = 0u64;
        let mut total = 0u64;
        while let Some(step) = iter.next() {
            total += 1;
            if step == DragonStep::Forward {
                forward += 1;
            }
        }
        assert_eq!(forward, dragon.number_of_steps());
        assert_eq!(total, 2 * dragon.number_of_steps());
    }
}

#[test]
fn terdragon_draws_number_of_steps_lines() {
    for n in 0u64..6 {
        let terdragon = TerdragonFractal::new(n).unwrap();
        let forward = terdragon.generate(n).iter().filter(|s| **s == LSA::F).count() as u64;
        assert_eq!(forward, terdragon.number_of_steps());
    }
    assert_eq!(TerdragonFractal::new(40).unwrap().number_of_steps(), 12157665459056928801);
    assert_eq!(TerdragonFractal::new(7).unwrap().iterations(), 7);
}

#[test]
fn curve_rules_and_first_generations() {
    let cesaro = CesaroFractal::new(1);
    assert_eq!(cesaro.iterations(), 1);
    assert_eq!(cesaro.initial().len(), 8);
    assert_eq!(
        cesaro.apply_rule(cesaro::LSA::F),
        [
            cesaro::LSA::F,
            cesaro::LSA::L,
            cesaro::LSA::F,
            cesaro::LSA::R,
            cesaro::LSA::R,
            cesaro::LSA::F,
            cesaro::LSA::L,
            cesaro::LSA::F
        ]
    );
    assert_eq!(cesaro.apply_rule(cesaro::LSA::Q), [cesaro::LSA::Q]);
    assert_eq!(cesaro.generate(1).len(), 4 * 8 + 4);

    let koch = KochCurve::new(2);
    assert_eq!(koch.generate(0), koch.initial());
    assert_eq!(koch.apply_rule(kochcurve::LSA::L), [kochcurve::LSA::L]);
    assert_eq!(koch.generate(1).len(), 3 * 8 + 4);

    let levy = LevyCCurve::new(3);
    assert_eq!(
        levy.generate(1),
        [
            levyccurve::LSA::L,
            levyccurve::LSA::F,
            levyccurve::LSA::R,
            levyccurve::LSA::R,
            levyccurve::LSA::F,
            levyccurve::LSA::L
        ]
    );

    let tri = CesaroTriFractal::new(1).unwrap();
    assert_eq!(tri.iterations(), 1);
    assert_eq!(
        tri.generate(0),
        [
            cesarotri::LSA::F1,
            cesarotri::LSA::Q1,
            cesarotri::LSA::F2,
            cesarotri::LSA::Q2,
            cesarotri::LSA::F3,
            cesarotri::LSA::Q3
        ]
    );
    assert_eq!(tri.apply_rule(cesarotri::LSA::F2)[2], cesarotri::LSA::F2);
    assert_eq!(tri.generate(1).len(), 3 * 8 + 3);
}

#[test]
fn every_turtle_curve_of_the_catalogue_can_be_looked_up() {
    for fractal in SelectedFractal::all() {
        let found = lookup_turtle_program(fractal.slug(), 2);
        assert_eq!(found.is_ok(), fractal.category() == FractalCategory::TurtleCurves);
    }
}
