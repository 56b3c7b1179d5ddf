//! Data that user interfaces need for configuring and launching fractals: parsing of command
//! line values and the configuration of the selected fractal.
use crate::{same_text, spec_category, FractalCategory, SelectedFractal};
use vstd::prelude::*;
use vstd::string::StringExecFns;

verus! {

/// The message of a failed command line value: `Error parsing NAME: REASON`.
pub open spec fn parse_error_message(opt_name: Seq<char>, reason: Seq<char>) -> Seq<char> {
    "Error parsing "@ + opt_name + ": "@ + reason
}

/// The message of a refused value reads `Error parsing `, the option's name, `: ` and the
/// reason, in that order.
pub proof fn lemma_parse_error_message(opt_name: Seq<char>, reason: Seq<char>)
    ensures
        parse_error_message(opt_name, reason).len() == 16 + opt_name.len() + reason.len(),
        parse_error_message(opt_name, reason).take(14) == "Error parsing "@,
        parse_error_message(opt_name, reason).subrange(14, 14 + opt_name.len() as int) == opt_name,
        parse_error_message(opt_name, reason).subrange(14 + opt_name.len() as int, 16 + opt_name.len() as int)
            == ": "@,
        parse_error_message(opt_name, reason).skip(16 + opt_name.len() as int) == reason,
{
    reveal_strlit("Error parsing ");
    reveal_strlit(": ");
    let m = parse_error_message(opt_name, reason);
    assert(m.take(14) =~= "Error parsing "@);
    assert(m.subrange(14, 14 + opt_name.len() as int) =~= opt_name);
    assert(m.subrange(14 + opt_name.len() as int, 16 + opt_name.len() as int) =~= ": "@);
    assert(m.skip(16 + opt_name.len() as int) =~= reason);
}

/// Turns the outcome of parsing the command line value of the option `opt_name` into the result
/// a command returns: the value, or an error message that names the option and the reason the
/// value was refused.
///
/// `parsed` is the value parsed from the command line text, or the displayed reason why it
/// could not be parsed.
pub fn parse_arg<T>(opt_name: &str, parsed: Result<T, String>) -> (r: Result<T, String>)
    ensures
        parsed is Ok <==> r is Ok,
        parsed matches Ok(v) ==> r == Ok::<T, String>(v),
        parsed matches Err(reason) ==> (r matches Err(message) && message@ == parse_error_message(
            opt_name@,
            reason@,
        )),
{
    match parsed {
        Err(e) => {
            let mut message = String::from_str("Error parsing ");
            message.append(opt_name);
            message.append(": ");
            message.append(e.as_str());
            Err(message)
        },
        Ok(v) => Ok(v),
    }
}

/// The configuration of a fractal in an interactive user interface.
#[derive(Debug, Clone, Copy, PartialEq, Eq)]
pub enum FractalConfig {
    NoConfig,
    EscapeTimeConfig { max_iterations: u64, power: u64 },
    TurtleCurveConfig { iteration: u64 },
}

/// Whether `config` has a field named `field`.
pub open spec fn spec_has_field(config: FractalConfig, field: Seq<char>) -> bool {
    match config {
        FractalConfig::NoConfig => false,
        FractalConfig::EscapeTimeConfig { .. } => field == "max_iterations"@ || field == "power"@,
        FractalConfig::TurtleCurveConfig { .. } => field == "iteration"@,
    }
}

/// `config` with its field `field` set to `new_value`.
pub open spec fn spec_with_change(config: FractalConfig, field: Seq<char>, new_value: u64) -> FractalConfig {
    match config {
        FractalConfig::EscapeTimeConfig { max_iterations, power } => if field == "max_iterations"@ {
            FractalConfig::EscapeTimeConfig { max_iterations: new_value, power }
        } else {
            FractalConfig::EscapeTimeConfig { max_iterations, power: new_value }
        },
        FractalConfig::TurtleCurveConfig { .. } => FractalConfig::TurtleCurveConfig {
            iteration: new_value,
        },
        FractalConfig::NoConfig => FractalConfig::NoConfig,
    }
}

/// The initial configuration of a fractal, given by its category.
pub open spec fn spec_default_config(fractal: SelectedFractal) -> FractalConfig {
    match spec_category(fractal) {
        FractalCategory::ChaosGames => FractalConfig::NoConfig,
        FractalCategory::TurtleCurves => FractalConfig::TurtleCurveConfig { iteration: 1 },
        FractalCategory::EscapeTimeFractals => FractalConfig::EscapeTimeConfig {
            max_iterations: 100,
            power: 2,
        },
    }
}

/// Returns the initial/default configuration for the given fractal.
pub fn default_config(fractal: SelectedFractal) -> (r: FractalConfig)
    ensures
        r == spec_default_config(fractal),
{
    match fractal.category() {
        FractalCategory::ChaosGames => FractalConfig::NoConfig,
        FractalCategory::TurtleCurves => FractalConfig::TurtleCurveConfig { iteration: 1 },
        FractalCategory::EscapeTimeFractals => FractalConfig::EscapeTimeConfig {
            max_iterations: 100,
            power: 2,
        },
    }
}

impl FractalConfig {
    /// Whether this configuration has a field named `field`, which `apply_change()` can set.
    pub fn has_field(&self, field: &str) -> (r: bool)
        ensures
            r == spec_has_field(*self, field@),
    {
        match self {
            FractalConfig::NoConfig => false,
            FractalConfig::EscapeTimeConfig { .. } => same_text(field, "max_iterations")
                || same_text(field, "power"),
            FractalConfig::TurtleCurveConfig { .. } => same_text(field, "iteration"),
        }
    }

    /// Sets the field named `field` to `new_value`.
    pub fn apply_change(&mut self, field: String, new_value: u64)
        requires
            spec_has_field(*old(self), field@),
        ensures
            *final(self) == spec_with_change(*old(self), field@, new_value),
    {
        *self = match *self {
            FractalConfig::EscapeTimeConfig { max_iterations, power } => {
                if same_text(field.as_str(), "max_iterations") {
                    FractalConfig::EscapeTimeConfig { max_iterations: new_value, power }
                } else {
                    FractalConfig::EscapeTimeConfig { max_iterations, power: new_value }
                }
            },
            FractalConfig::TurtleCurveConfig { .. } => FractalConfig::TurtleCurveConfig {
                iteration: new_value,
            },
            FractalConfig::NoConfig => FractalConfig::NoConfig,
        };
    }
}

/// The defaults and the changes of a configuration: a chaos game has no configuration, a
/// turtle curve starts at iteration 1 and an escape time fractal at 100 iterations of power 2;
/// setting `max_iterations`, `power` or `iteration` sets that field to the new value and keeps
/// the others.
pub proof fn lemma_configuration_values(
    fractal: SelectedFractal,
    max_iterations: u64,
    power: u64,
    iteration: u64,
    new_value: u64,
)
    ensures
        spec_category(fractal) == FractalCategory::ChaosGames ==> spec_default_config(fractal)
            == FractalConfig::NoConfig,
        spec_category(fractal) == FractalCategory::TurtleCurves ==> spec_default_config(fractal)
            == (FractalConfig::TurtleCurveConfig { iteration: 1 }),
        spec_category(fractal) == FractalCategory::EscapeTimeFractals ==> spec_default_config(
            fractal,
        ) == (FractalConfig::EscapeTimeConfig { max_iterations: 100, power: 2 }),
        spec_with_change(
            FractalConfig::EscapeTimeConfig { max_iterations, power },
            "max_iterations"@,
            new_value,
        ) == (FractalConfig::EscapeTimeConfig { max_iterations: new_value, power }),
        spec_with_change(FractalConfig::EscapeTimeConfig { max_iterations, power }, "power"@, new_value)
            == (FractalConfig::EscapeTimeConfig { max_iterations, power: new_value }),
        spec_with_change(FractalConfig::TurtleCurveConfig { iteration }, "iteration"@, new_value)
            == (FractalConfig::TurtleCurveConfig { iteration: new_value }),
        spec_has_field(FractalConfig::EscapeTimeConfig { max_iterations, power }, "max_iterations"@),
        spec_has_field(FractalConfig::EscapeTimeConfig { max_iterations, power }, "power"@),
        !spec_has_field(FractalConfig::EscapeTimeConfig { max_iterations, power }, "iteration"@),
        spec_has_field(FractalConfig::TurtleCurveConfig { iteration }, "iteration"@),
        !spec_has_field(FractalConfig::TurtleCurveConfig { iteration }, "power"@),
        !spec_has_field(FractalConfig::TurtleCurveConfig { iteration }, "max_iterations"@),
        forall|field: Seq<char>| !spec_has_field(FractalConfig::NoConfig, field),
{
    reveal_strlit("max_iterations");
    reveal_strlit("power");
    reveal_strlit("iteration");
    assert("max_iterations"@ != "power"@) by {
        assert("max_iterations"@.len() != "power"@.len());
    }
    assert("iteration"@ != "power"@) by {
        assert("iteration"@.len() != "power"@.len());
    }
    assert("iteration"@ != "max_iterations"@) by {
        assert("iteration"@.len() != "max_iterations"@.len());
    }
}

/// Whether `config` suits `fractal`: an escape time fractal needs an escape time configuration
/// and a turtle curve a turtle curve configuration, while a chaos game needs none and ignores
/// whichever it gets.
pub open spec fn config_suits(fractal: SelectedFractal, config: FractalConfig) -> bool {
    match spec_category(fractal) {
        FractalCategory::ChaosGames => true,
        FractalCategory::EscapeTimeFractals => config is EscapeTimeConfig,
        FractalCategory::TurtleCurves => config is TurtleCurveConfig,
    }
}

/// The default configuration of a fractal suits it, and changing a field of a configuration
/// that suits a fractal gives one that still suits it, with the same fields: the configuration
/// that an interactive user interface builds for the selected fractal always suits it.
pub proof fn lemma_configuration_keeps_suiting(
    fractal: SelectedFractal,
    config: FractalConfig,
    field: Seq<char>,
    new_value: u64,
)
    ensures
        config_suits(fractal, spec_default_config(fractal)),
        config_suits(fractal, config) && spec_has_field(config, field) ==> config_suits(
            fractal,
            spec_with_change(config, field, new_value),
        ),
        spec_has_field(config, field) ==> forall|other: Seq<char>|
            spec_has_field(spec_with_change(config, field, new_value), other) == spec_has_field(
                config,
                other,
            ),
{
}

/// What an animation of a fractal is started with: the fractal, and the parameters of its
/// category taken from the configuration.
#[derive(Debug, Clone, Copy, PartialEq, Eq)]
pub enum AnimationSetup {
    ChaosGame { fractal: SelectedFractal },
    EscapeTime { fractal: SelectedFractal, max_iterations: u64, power: u64 },
    TurtleCurve { fractal: SelectedFractal, iteration: u64 },
}

/// The setup of an animation of `fractal` configured by `config` (which suits it).
pub open spec fn spec_animation_setup(fractal: SelectedFractal, config: FractalConfig) -> AnimationSetup {
    match spec_category(fractal) {
        FractalCategory::ChaosGames => AnimationSetup::ChaosGame { fractal },
        FractalCategory::EscapeTimeFractals => AnimationSetup::EscapeTime {
            fractal,
            max_iterations: config->max_iterations,
            power: config->power,
        },
        FractalCategory::TurtleCurves => AnimationSetup::TurtleCurve {
            fractal,
            iteration: config->iteration,
        },
    }
}

/// An animation is set up with the parameters of the configuration, copied one to one: an
/// escape time fractal with `max_iterations` and `power`, a turtle curve with its `iteration`,
/// while a chaos game takes none.
pub proof fn lemma_setup_copies_the_configuration(
    fractal: SelectedFractal,
    config: FractalConfig,
    max_iterations: u64,
    power: u64,
    iteration: u64,
)
    ensures
        spec_category(fractal) == FractalCategory::EscapeTimeFractals ==> spec_animation_setup(
            fractal,
            FractalConfig::EscapeTimeConfig { max_iterations, power },
        ) == (AnimationSetup::EscapeTime { fractal, max_iterations, power }),
        spec_category(fractal) == FractalCategory::TurtleCurves ==> spec_animation_setup(
            fractal,
            FractalConfig::TurtleCurveConfig { iteration },
        ) == (AnimationSetup::TurtleCurve { fractal, iteration }),
        spec_category(fractal) == FractalCategory::ChaosGames ==> spec_animation_setup(
            fractal,
            config,
        ) == (AnimationSetup::ChaosGame { fractal }),
{
}

/// Decides how an animation of `fractal` starts under `config`: a chaos game starts without
/// parameters, an escape time fractal with the maximum iterations and power of its
/// configuration, a turtle curve with the iteration of its configuration.
pub fn animation_setup(fractal: SelectedFractal, config: FractalConfig) -> (r: AnimationSetup)
    requires
        config_suits(fractal, config),
    ensures
        r == spec_animation_setup(fractal, config),
{
    match fractal.category() {
        FractalCategory::ChaosGames => AnimationSetup::ChaosGame { fractal },
        FractalCategory::EscapeTimeFractals => match config {
            FractalConfig::EscapeTimeConfig { max_iterations, power } => AnimationSetup::EscapeTime {
                fractal,
                max_iterations,
                power,
            },
            _ => AnimationSetup::ChaosGame { fractal },
        },
        FractalCategory::TurtleCurves => match config {
            FractalConfig::TurtleCurveConfig { iteration } => AnimationSetup::TurtleCurve {
                fractal,
                iteration,
            },
            _ => AnimationSetup::ChaosGame { fractal },
        },
    }
}

} // verus!
