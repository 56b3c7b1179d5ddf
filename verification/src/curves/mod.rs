//! Fractal curves drawn by a turtle, and the lookup of a curve by its name.
pub mod cesaro;
pub mod cesarotri;
pub mod dragon;
pub mod kochcurve;
pub mod levyccurve;
pub mod terdragon;

use self::cesaro::CesaroFractal;
use self::cesarotri::CesaroTriFractal;
use self::dragon::DragonFractal;
use self::kochcurve::KochCurve;
use self::levyccurve::LevyCCurve;
use self::terdragon::TerdragonFractal;
use crate::{lemma_slugs_distinct, same_text, spec_category, spec_slug, FractalCategory, SelectedFractal};
use vstd::prelude::*;
use vstd::string::StringExecFns;

verus! {

/// One of the curves that a turtle program can draw, with the iteration to draw.
#[derive(Copy, Clone, Debug)]
pub enum TurtleCurve {
    Cesaro(CesaroFractal),
    CesaroTri(CesaroTriFractal),
    Dragon(DragonFractal),
    KochCurve(KochCurve),
    LevyCCurve(LevyCCurve),
    Terdragon(TerdragonFractal),
}

impl TurtleCurve {
    /// The iteration of the curve.
    pub open spec fn spec_iterations(self) -> u64 {
        match self {
            TurtleCurve::Cesaro(c) => c.spec_iterations(),
            TurtleCurve::CesaroTri(c) => c.spec_iterations(),
            TurtleCurve::Dragon(c) => c.spec_iterations(),
            TurtleCurve::KochCurve(c) => c.spec_iterations(),
            TurtleCurve::LevyCCurve(c) => c.spec_iterations(),
            TurtleCurve::Terdragon(c) => c.spec_iterations(),
        }
    }
}

/// The error of a lookup of a curve whose name is not known.
#[derive(Debug)]
pub struct CouldNotfindTurtleProgramError {
    requested_program_name: String,
}

/// The text of a failed lookup of the curve `name`.
pub open spec fn not_found_message(name: Seq<char>) -> Seq<char> {
    "Could not find the specified TurtleProgram: "@ + name
}

impl CouldNotfindTurtleProgramError {
    /// The name that was looked up.
    pub closed spec fn spec_requested_program_name(&self) -> Seq<char> {
        self.requested_program_name@
    }

    /// The name that was looked up.
    pub fn requested_program_name(&self) -> (r: &str)
        ensures
            r@ == self.spec_requested_program_name(),
    {
        self.requested_program_name.as_str()
    }

    /// A short description of the error.
    pub fn description(&self) -> (r: &'static str)
        ensures
            r@ == "Could not find the specified TurtleProgram"@,
    {
        "Could not find the specified TurtleProgram"
    }

    /// The full text of the error, naming the curve that was looked up.
    pub fn message(&self) -> (r: String)
        ensures
            r@ == not_found_message(self.spec_requested_program_name()),
    {
        let mut text = String::from_str("Could not find the specified TurtleProgram: ");
        text.append(self.requested_program_name.as_str());
        text
    }
}

/// The text of a failed lookup reads `Could not find the specified TurtleProgram: ` followed by
/// the name that was looked up.
pub proof fn lemma_not_found_message(name: Seq<char>)
    ensures
        not_found_message(name).len() == 44 + name.len(),
        not_found_message(name).take(44) == "Could not find the specified TurtleProgram: "@,
        not_found_message(name).skip(44) == name,
{
    reveal_strlit("Could not find the specified TurtleProgram: ");
    assert(not_found_message(name).take(44) =~= "Could not find the specified TurtleProgram: "@);
    assert(not_found_message(name).skip(44) =~= name);
}

/// The names of the curves that `lookup_turtle_program` knows.
pub open spec fn known_curve_names() -> Seq<Seq<char>> {
    seq!["cesaro"@, "cesarotri"@, "dragon"@, "kochcurve"@, "levyccurve"@, "terdragon"@]
}

/// The curves that `lookup_turtle_program` knows are exactly the turtle curves of the catalogue
/// of fractals, under their tokens: a fractal's token names a curve that can be looked up if
/// and only if the fractal is a turtle curve.
pub proof fn lemma_lookup_knows_the_turtle_curves(f: SelectedFractal)
    ensures
        spec_category(f) == FractalCategory::TurtleCurves <==> known_curve_names().contains(
            spec_slug(f),
        ),
{
    let names = known_curve_names();
    let curves = seq![
        SelectedFractal::Cesaro,
        SelectedFractal::CesaroTri,
        SelectedFractal::Dragon,
        SelectedFractal::KochCurve,
        SelectedFractal::LevyCCurve,
        SelectedFractal::TerDragon,
    ];
    assert forall|i: int| 0 <= i < 6 implies names[i] == spec_slug(#[trigger] curves[i]) by {}
    if names.contains(spec_slug(f)) {
        let i = choose|i: int| 0 <= i < names.len() && names[i] == spec_slug(f);
        lemma_slugs_distinct(f, curves[i]);
    }
    if spec_category(f) == FractalCategory::TurtleCurves {
        let i: int = match f {
            SelectedFractal::Cesaro => 0,
            SelectedFractal::CesaroTri => 1,
            SelectedFractal::Dragon => 2,
            SelectedFractal::KochCurve => 3,
            SelectedFractal::LevyCCurve => 4,
            _ => 5,
        };
        assert(curves[i] == f);
        assert(names[i] == spec_slug(f));
    }
}

/// Looks up the curve named `program_name` and instantiates it for the given iteration.
pub fn lookup_turtle_program(program_name: &str, iterations: u64) -> (r: Result<
    TurtleCurve,
    CouldNotfindTurtleProgramError,
>)
    ensures
        (r matches Ok(TurtleCurve::Cesaro(_))) <==> program_name@ == "cesaro"@,
        (r matches Ok(TurtleCurve::CesaroTri(_))) <==> program_name@ == "cesarotri"@,
        (r matches Ok(TurtleCurve::Dragon(_))) <==> program_name@ == "dragon"@,
        (r matches Ok(TurtleCurve::KochCurve(_))) <==> program_name@ == "kochcurve"@,
        (r matches Ok(TurtleCurve::LevyCCurve(_))) <==> program_name@ == "levyccurve"@,
        (r matches Ok(TurtleCurve::Terdragon(_))) <==> program_name@ == "terdragon"@,
        r matches Ok(curve) ==> curve.spec_iterations() == iterations,
        r matches Err(e) ==> e.spec_requested_program_name() == program_name@
            && !known_curve_names().contains(program_name@),
{
    proof {
        reveal_strlit("cesaro");
        reveal_strlit("cesarotri");
        reveal_strlit("dragon");
        reveal_strlit("kochcurve");
        reveal_strlit("levyccurve");
        reveal_strlit("terdragon");
        assert("cesaro"@[0] != "dragon"@[0]);
        assert("cesarotri"@[0] != "kochcurve"@[0]);
        assert("cesarotri"@[0] != "terdragon"@[0]);
        assert("kochcurve"@[0] != "terdragon"@[0]);
        assert("cesaro"@.len() != "cesarotri"@.len());
        assert("levyccurve"@.len() != "cesarotri"@.len());
    }
    if same_text(program_name, "cesaro") {
        Ok(TurtleCurve::Cesaro(CesaroFractal::new(iterations)))
    } else if same_text(program_name, "cesarotri") {
        match CesaroTriFractal::new(iterations) {
            Ok(c) => Ok(TurtleCurve::CesaroTri(c)),
            Err(_) => Err(
                CouldNotfindTurtleProgramError { requested_program_name: String::from_str(program_name) },
            ),
        }
    } else if same_text(program_name, "dragon") {
        Ok(TurtleCurve::Dragon(DragonFractal::new(iterations)))
    } else if same_text(program_name, "kochcurve") {
        Ok(TurtleCurve::KochCurve(KochCurve::new(iterations)))
    } else if same_text(program_name, "levyccurve") {
        Ok(TurtleCurve::LevyCCurve(LevyCCurve::new(iterations)))
    } else if same_text(program_name, "terdragon") {
        match TerdragonFractal::new(iterations) {
            Ok(c) => Ok(TurtleCurve::Terdragon(c)),
            Err(_) => Err(
                CouldNotfindTurtleProgramError { requested_program_name: String::from_str(program_name) },
            ),
        }
    } else {
        proof {
            assert(!known_curve_names().contains(program_name@)) by {
                if known_curve_names().contains(program_name@) {
                    let i = choose|i: int| 0 <= i < 6 && known_curve_names()[i] == program_name@;
                    assert(i == 0 || i == 1 || i == 2 || i == 3 || i == 4 || i == 5);
                }
            }
        }
        Err(CouldNotfindTurtleProgramError { requested_program_name: String::from_str(program_name) })
    }
}

} // verus!
