//! Library of things to explore and draw various fractals: Lindenmayer systems and the rewriting
//! rules of several fractal curves, the dragon curve's turn sequence, the catalogue of supported
//! fractals, and the integer bookkeeping that renderers use to animate them.
use vstd::prelude::*;


pub mod animation;
pub mod color;
pub mod curves;
pub mod escapetime;
pub mod fractaldata;
pub mod interactive;
pub mod lindenmayer;
pub mod work_multiplexer;


verus! {

/// Mainly used to categorize the fractals in a UI or menu.
#[derive(Copy, Clone, Debug, PartialEq, Eq)]
pub enum FractalCategory {
    ChaosGames,
    EscapeTimeFractals,
    TurtleCurves,
}

/// All of the supported fractals, with associated data for using them.
///
/// This type is meant to be extended or used by the various UI implementations to provide their
/// own code for constructing implementations for each kind of Fractal.
///
/// `SelectedFractal::all()` lists all of them, `SelectedFractal::from_slug()` parses the lowercase
/// token of one (such as `"dragon"`), and `slug()` gives that token back.
#[derive(Copy, Clone, Debug, PartialEq, Eq)]
pub enum SelectedFractal {
    BarnsleyFern,
    BurningMandel,
    BurningShip,
    Cesaro,
    CesaroTri,
    Dragon,
    KochCurve,
    LevyCCurve,
    Mandelbrot,
    RoadRunner,
    Sierpinski,
    TerDragon,
}

/// Every fractal, in declaration order.
pub open spec fn all_fractals() -> Seq<SelectedFractal> {
    seq![
        SelectedFractal::BarnsleyFern,
        SelectedFractal::BurningMandel,
        SelectedFractal::BurningShip,
        SelectedFractal::Cesaro,
        SelectedFractal::CesaroTri,
        SelectedFractal::Dragon,
        SelectedFractal::KochCurve,
        SelectedFractal::LevyCCurve,
        SelectedFractal::Mandelbrot,
        SelectedFractal::RoadRunner,
        SelectedFractal::Sierpinski,
        SelectedFractal::TerDragon,
    ]
}

/// The lowercase token that names a fractal (its variant name in lower case).
pub open spec fn spec_slug(f: SelectedFractal) -> Seq<char> {
    match f {
        SelectedFractal::BarnsleyFern => "barnsleyfern"@,
        SelectedFractal::BurningMandel => "burningmandel"@,
        SelectedFractal::BurningShip => "burningship"@,
        SelectedFractal::Cesaro => "cesaro"@,
        SelectedFractal::CesaroTri => "cesarotri"@,
        SelectedFractal::Dragon => "dragon"@,
        SelectedFractal::KochCurve => "kochcurve"@,
        SelectedFractal::LevyCCurve => "levyccurve"@,
        SelectedFractal::Mandelbrot => "mandelbrot"@,
        SelectedFractal::RoadRunner => "roadrunner"@,
        SelectedFractal::Sierpinski => "sierpinski"@,
        SelectedFractal::TerDragon => "terdragon"@,
    }
}

/// The full display name of a fractal.
pub open spec fn spec_name(f: SelectedFractal) -> Seq<char> {
    match f {
        SelectedFractal::BarnsleyFern => "Barnsley Fern"@,
        SelectedFractal::BurningMandel => "Burning Mandel"@,
        SelectedFractal::BurningShip => "Burning Ship"@,
        SelectedFractal::Cesaro => "Cesàro"@,
        SelectedFractal::CesaroTri => "Cesàro Triangle"@,
        SelectedFractal::Dragon => "Dragon"@,
        SelectedFractal::KochCurve => "Koch Curve"@,
        SelectedFractal::LevyCCurve => "Lévy C Curve"@,
        SelectedFractal::Mandelbrot => "Mandelbrot"@,
        SelectedFractal::RoadRunner => "Roadrunner"@,
        SelectedFractal::Sierpinski => "Sierpiński Triangle"@,
        SelectedFractal::TerDragon => "Terdragon"@,
    }
}

/// A short description of a fractal.
pub open spec fn spec_description(f: SelectedFractal) -> Seq<char> {
    match f {
        SelectedFractal::BarnsleyFern => "Draws the Barnsley Fern fractal using a chaos game with affine transforms."@,
        SelectedFractal::BurningMandel => "Draws a variation of the burning ship fractal"@,
        SelectedFractal::BurningShip => "Draws the burning ship fractal"@,
        SelectedFractal::Cesaro => "Draws a square Cesàro fractal"@,
        SelectedFractal::CesaroTri => "Draws a triangle Cesàro fractal"@,
        SelectedFractal::Dragon => "Draws a dragon curve fractal"@,
        SelectedFractal::KochCurve => "Draws a Koch snowflake curve"@,
        SelectedFractal::LevyCCurve => "Draws a Lévy C Curve"@,
        SelectedFractal::Mandelbrot => "Draws the mandelbrot fractal"@,
        SelectedFractal::RoadRunner => "Draws a variation of the burning ship fractal"@,
        SelectedFractal::Sierpinski => "Draws a Sierpiński triangle using a chaos game and 3 randomly chosen points on the screen"@,
        SelectedFractal::TerDragon => "Draws a terdragon curve"@,
    }
}

/// The category of a fractal: which kind of configuration it needs.
pub open spec fn spec_category(f: SelectedFractal) -> FractalCategory {
    match f {
        SelectedFractal::BarnsleyFern | SelectedFractal::Sierpinski => FractalCategory::ChaosGames,
        SelectedFractal::BurningMandel
        | SelectedFractal::BurningShip
        | SelectedFractal::Mandelbrot
        | SelectedFractal::RoadRunner => FractalCategory::EscapeTimeFractals,
        _ => FractalCategory::TurtleCurves,
    }
}

/// The category of each fractal: the Barnsley fern and the Sierpiński triangle are chaos games;
/// the Mandelbrot set, the burning ship, the burning Mandel and the roadrunner are escape time
/// fractals; every other fractal is a turtle curve.
pub proof fn lemma_categories(f: SelectedFractal)
    ensures
        spec_category(f) == FractalCategory::ChaosGames <==> (f == SelectedFractal::BarnsleyFern
            || f == SelectedFractal::Sierpinski),
        spec_category(f) == FractalCategory::EscapeTimeFractals <==> (f == SelectedFractal::Mandelbrot
            || f == SelectedFractal::BurningShip || f == SelectedFractal::BurningMandel || f
            == SelectedFractal::RoadRunner),
        spec_category(f) == FractalCategory::TurtleCurves <==> (f == SelectedFractal::Cesaro || f
            == SelectedFractal::CesaroTri || f == SelectedFractal::Dragon || f
            == SelectedFractal::KochCurve || f == SelectedFractal::LevyCCurve || f
            == SelectedFractal::TerDragon),
{
}

/// The token of each fractal is the name of its variant in lower case.
pub proof fn lemma_slugs()
    ensures
        spec_slug(SelectedFractal::BarnsleyFern) == "barnsleyfern"@,
        spec_slug(SelectedFractal::BurningMandel) == "burningmandel"@,
        spec_slug(SelectedFractal::BurningShip) == "burningship"@,
        spec_slug(SelectedFractal::Cesaro) == "cesaro"@,
        spec_slug(SelectedFractal::CesaroTri) == "cesarotri"@,
        spec_slug(SelectedFractal::Dragon) == "dragon"@,
        spec_slug(SelectedFractal::KochCurve) == "kochcurve"@,
        spec_slug(SelectedFractal::LevyCCurve) == "levyccurve"@,
        spec_slug(SelectedFractal::Mandelbrot) == "mandelbrot"@,
        spec_slug(SelectedFractal::RoadRunner) == "roadrunner"@,
        spec_slug(SelectedFractal::Sierpinski) == "sierpinski"@,
        spec_slug(SelectedFractal::TerDragon) == "terdragon"@,
{
}

/// No two fractals share a token.
pub proof fn lemma_slugs_distinct(f: SelectedFractal, g: SelectedFractal)
    ensures
        spec_slug(f) == spec_slug(g) ==> f == g,
{
    reveal_strlit("barnsleyfern");
    reveal_strlit("burningmandel");
    reveal_strlit("burningship");
    reveal_strlit("cesaro");
    reveal_strlit("cesarotri");
    reveal_strlit("dragon");
    reveal_strlit("kochcurve");
    reveal_strlit("levyccurve");
    reveal_strlit("mandelbrot");
    reveal_strlit("roadrunner");
    reveal_strlit("sierpinski");
    reveal_strlit("terdragon");
    if spec_slug(f) == spec_slug(g) {
        let s = spec_slug(f);
        assert(s.len() == spec_slug(g).len() && s[0] == spec_slug(g)[0]);
        match g {
            SelectedFractal::BarnsleyFern => assert(s.len() == 12),
            SelectedFractal::BurningMandel => assert(s.len() == 13),
            SelectedFractal::BurningShip => assert(s.len() == 11),
            SelectedFractal::Cesaro => assert(s.len() == 6 && s[0] == 'c'),
            SelectedFractal::CesaroTri => assert(s.len() == 9 && s[0] == 'c'),
            SelectedFractal::Dragon => assert(s.len() == 6 && s[0] == 'd'),
            SelectedFractal::KochCurve => assert(s.len() == 9 && s[0] == 'k'),
            SelectedFractal::LevyCCurve => assert(s.len() == 10 && s[0] == 'l'),
            SelectedFractal::Mandelbrot => assert(s.len() == 10 && s[0] == 'm'),
            SelectedFractal::RoadRunner => assert(s.len() == 10 && s[0] == 'r'),
            SelectedFractal::Sierpinski => assert(s.len() == 10 && s[0] == 's'),
            SelectedFractal::TerDragon => assert(s.len() == 9 && s[0] == 't'),
        }
    }
}

/// The other spelling under which a fractal is accepted: the triangle Cesàro fractal is also
/// known by the subcommand name `cestarotri`.
pub open spec fn spec_alias(f: SelectedFractal) -> Option<Seq<char>> {
    if f == SelectedFractal::CesaroTri {
        Some("cestarotri"@)
    } else {
        None
    }
}

/// Whether `token` names `f`: its lowercase token, or its other spelling.
pub open spec fn accepts_token(f: SelectedFractal, token: Seq<char>) -> bool {
    token == spec_slug(f) || spec_alias(f) == Some(token)
}

/// No fractal's token is the other spelling `cestarotri`.
proof fn lemma_alias_is_no_slug(g: SelectedFractal)
    ensures
        spec_slug(g) != "cestarotri"@,
{
    reveal_strlit("cestarotri");
    reveal_strlit("barnsleyfern");
    reveal_strlit("burningmandel");
    reveal_strlit("burningship");
    reveal_strlit("cesaro");
    reveal_strlit("cesarotri");
    reveal_strlit("dragon");
    reveal_strlit("kochcurve");
    reveal_strlit("levyccurve");
    reveal_strlit("mandelbrot");
    reveal_strlit("roadrunner");
    reveal_strlit("sierpinski");
    reveal_strlit("terdragon");
    let s = spec_slug(g);
    let a = "cestarotri"@;
    if s == a {
        assert(s.len() == 10 && s[0] == 'c');
        match g {
            SelectedFractal::BarnsleyFern => assert(s.len() == 12),
            SelectedFractal::BurningMandel => assert(s.len() == 13),
            SelectedFractal::BurningShip => assert(s.len() == 11),
            SelectedFractal::Cesaro => assert(s.len() == 6),
            SelectedFractal::CesaroTri => assert(s.len() == 9),
            SelectedFractal::Dragon => assert(s.len() == 6),
            SelectedFractal::KochCurve => assert(s.len() == 9),
            SelectedFractal::LevyCCurve => assert(s[0] == 'l'),
            SelectedFractal::Mandelbrot => assert(s[0] == 'm'),
            SelectedFractal::RoadRunner => assert(s[0] == 'r'),
            SelectedFractal::Sierpinski => assert(s[0] == 's'),
            SelectedFractal::TerDragon => assert(s.len() == 9),
        }
    }
}

/// A token names at most one fractal.
pub proof fn lemma_token_names_one_fractal(f: SelectedFractal, g: SelectedFractal, token: Seq<char>)
    requires
        accepts_token(f, token),
        accepts_token(g, token),
    ensures
        f == g,
{
    lemma_slugs_distinct(f, g);
    lemma_alias_is_no_slug(f);
    lemma_alias_is_no_slug(g);
}

/// Whether two strings hold the same characters.
pub(crate) fn same_text(a: &str, b: &str) -> (r: bool)
    ensures
        r == (a@ == b@),
{
    let a_owned: String = a.to_owned();
    let b_owned: String = b.to_owned();
    a_owned == b_owned
}

impl SelectedFractal {
    /// Every fractal, in declaration order.
    pub fn all() -> (r: Vec<SelectedFractal>)
        ensures
            r@ == all_fractals(),
    {
        vec![
            SelectedFractal::BarnsleyFern,
            SelectedFractal::BurningMandel,
            SelectedFractal::BurningShip,
            SelectedFractal::Cesaro,
            SelectedFractal::CesaroTri,
            SelectedFractal::Dragon,
            SelectedFractal::KochCurve,
            SelectedFractal::LevyCCurve,
            SelectedFractal::Mandelbrot,
            SelectedFractal::RoadRunner,
            SelectedFractal::Sierpinski,
            SelectedFractal::TerDragon,
        ]
    }

    /// The lowercase token that names this fractal, such as `"dragon"`.
    pub fn slug(self) -> (r: &'static str)
        ensures
            r@ == spec_slug(self),
    {
        match self {
            SelectedFractal::BarnsleyFern => "barnsleyfern",
            SelectedFractal::BurningMandel => "burningmandel",
            SelectedFractal::BurningShip => "burningship",
            SelectedFractal::Cesaro => "cesaro",
            SelectedFractal::CesaroTri => "cesarotri",
            SelectedFractal::Dragon => "dragon",
            SelectedFractal::KochCurve => "kochcurve",
            SelectedFractal::LevyCCurve => "levyccurve",
            SelectedFractal::Mandelbrot => "mandelbrot",
            SelectedFractal::RoadRunner => "roadrunner",
            SelectedFractal::Sierpinski => "sierpinski",
            SelectedFractal::TerDragon => "terdragon",
        }
    }

    /// The other spelling under which this fractal is accepted, if it has one: `cestarotri`
    /// for the triangle Cesàro fractal.
    pub fn alias(self) -> (r: Option<&'static str>)
        ensures
            r matches Some(a) ==> spec_alias(self) == Some(a@),
            r is None ==> spec_alias(self) is None,
    {
        match self {
            SelectedFractal::CesaroTri => Some("cestarotri"),
            _ => None,
        }
    }

    /// Parses the lowercase token of a fractal: the fractal whose `slug()` is `token`, or whose
    /// other spelling (`alias()`) it is, if any.
    pub fn from_slug(token: &str) -> (r: Option<SelectedFractal>)
        ensures
            forall|f: SelectedFractal| r == Some(f) <==> accepts_token(f, token@),
    {
        let fractals = SelectedFractal::all();
        let mut i: usize = 0;
        while i < fractals.len()
            invariant
                fractals@ == all_fractals(),
                i <= fractals.len(),
                forall|j: int| 0 <= j < i ==> spec_slug(#[trigger] all_fractals()[j]) != token@,
            decreases fractals.len() - i,
        {
            let f = fractals[i];
            if same_text(f.slug(), token) {
                proof {
                    assert forall|g: SelectedFractal| accepts_token(g, token@) implies g == f by {
                        lemma_slugs_distinct(f, g);
                        lemma_alias_is_no_slug(f);
                    }
                }
                return Some(f);
            }
            i = i + 1;
        }
        if same_text("cestarotri", token) {
            proof {
                assert forall|g: SelectedFractal| accepts_token(g, token@) implies g
                    == SelectedFractal::CesaroTri by {
                    lemma_alias_is_no_slug(g);
                }
            }
            return Some(SelectedFractal::CesaroTri);
        }
        proof {
            assert forall|g: SelectedFractal| !accepts_token(g, token@) by {
                assert(all_fractals().contains(g)) by {
                    match g {
                        SelectedFractal::BarnsleyFern => assert(all_fractals()[0] == g),
                        SelectedFractal::BurningMandel => assert(all_fractals()[1] == g),
                        SelectedFractal::BurningShip => assert(all_fractals()[2] == g),
                        SelectedFractal::Cesaro => assert(all_fractals()[3] == g),
                        SelectedFractal::CesaroTri => assert(all_fractals()[4] == g),
                        SelectedFractal::Dragon => assert(all_fractals()[5] == g),
                        SelectedFractal::KochCurve => assert(all_fractals()[6] == g),
                        SelectedFractal::LevyCCurve => assert(all_fractals()[7] == g),
                        SelectedFractal::Mandelbrot => assert(all_fractals()[8] == g),
                        SelectedFractal::RoadRunner => assert(all_fractals()[9] == g),
                        SelectedFractal::Sierpinski => assert(all_fractals()[10] == g),
                        SelectedFractal::TerDragon => assert(all_fractals()[11] == g),
                    }
                }
            }
        }
        None
    }

    /// The full display name for each fractal variant.
    ///
    /// If you want a simpler ASCII name, use `slug()`.
    pub fn name(self) -> (r: &'static str)
        ensures
            r@ == spec_name(self),
    {
        match self {
            SelectedFractal::BarnsleyFern => "Barnsley Fern",
            SelectedFractal::BurningMandel => "Burning Mandel",
            SelectedFractal::BurningShip => "Burning Ship",
            SelectedFractal::Cesaro => "Cesàro",
            SelectedFractal::CesaroTri => "Cesàro Triangle",
            SelectedFractal::Dragon => "Dragon",
            SelectedFractal::KochCurve => "Koch Curve",
            SelectedFractal::LevyCCurve => "Lévy C Curve",
            SelectedFractal::Mandelbrot => "Mandelbrot",
            SelectedFractal::RoadRunner => "Roadrunner",
            SelectedFractal::Sierpinski => "Sierpiński Triangle",
            SelectedFractal::TerDragon => "Terdragon",
        }
    }

    /// A short description of each fractal variant.
    pub fn description(self) -> (r: &'static str)
        ensures
            r@ == spec_description(self),
    {
        match self {
            SelectedFractal::BarnsleyFern => "Draws the Barnsley Fern fractal using a chaos game with affine transforms.",
            SelectedFractal::BurningMandel => "Draws a variation of the burning ship fractal",
            SelectedFractal::BurningShip => "Draws the burning ship fractal",
            SelectedFractal::Cesaro => "Draws a square Cesàro fractal",
            SelectedFractal::CesaroTri => "Draws a triangle Cesàro fractal",
            SelectedFractal::Dragon => "Draws a dragon curve fractal",
            SelectedFractal::KochCurve => "Draws a Koch snowflake curve",
            SelectedFractal::LevyCCurve => "Draws a Lévy C Curve",
            SelectedFractal::Mandelbrot => "Draws the mandelbrot fractal",
            SelectedFractal::RoadRunner => "Draws a variation of the burning ship fractal",
            SelectedFractal::Sierpinski => "Draws a Sierpiński triangle using a chaos game and 3 randomly chosen points on the screen",
            SelectedFractal::TerDragon => "Draws a terdragon curve",
        }
    }

    /// Returns the category for the given variant.
    ///
    /// The categories relate to the kind of configuration that the given fractal needs.
    pub fn category(self) -> (r: FractalCategory)
        ensures
            r == spec_category(self),
    {
        match self {
            SelectedFractal::BarnsleyFern => FractalCategory::ChaosGames,
            SelectedFractal::BurningMandel => FractalCategory::EscapeTimeFractals,
            SelectedFractal::BurningShip => FractalCategory::EscapeTimeFractals,
            SelectedFractal::Cesaro => FractalCategory::TurtleCurves,
            SelectedFractal::CesaroTri => FractalCategory::TurtleCurves,
            SelectedFractal::Dragon => FractalCategory::TurtleCurves,
            SelectedFractal::KochCurve => FractalCategory::TurtleCurves,
            SelectedFractal::LevyCCurve => FractalCategory::TurtleCurves,
            SelectedFractal::Mandelbrot => FractalCategory::EscapeTimeFractals,
            SelectedFractal::RoadRunner => FractalCategory::EscapeTimeFractals,
            SelectedFractal::Sierpinski => FractalCategory::ChaosGames,
            SelectedFractal::TerDragon => FractalCategory::TurtleCurves,
        }
    }
}

} // verus!
