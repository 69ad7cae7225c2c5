//! The kinds of fractal the service can render.

use vstd::prelude::*;
use vstd::std_specs::cmp::PartialEqSpecImpl;

verus! {

/// Represents types of fractals that the service can render. Two custom
/// kinds are the same kind exactly when their formulas have the same text.
#[derive(Eq, Hash, Debug)]
pub enum Fractals {
    Mandelbrot,
    BurningShip,
    Tricorn,
    Feather,
    Eye,
    Custom(String),
}

/// A fractal kind as a mathematical value: the formula is its characters.
pub enum FractalKind {
    Mandelbrot,
    BurningShip,
    Tricorn,
    Feather,
    Eye,
    Custom(Seq<char>),
}

impl View for Fractals {
    type V = FractalKind;

    open spec fn view(&self) -> FractalKind {
        match self {
            Fractals::Mandelbrot => FractalKind::Mandelbrot,
            Fractals::BurningShip => FractalKind::BurningShip,
            Fractals::Tricorn => FractalKind::Tricorn,
            Fractals::Feather => FractalKind::Feather,
            Fractals::Eye => FractalKind::Eye,
            Fractals::Custom(formula) => FractalKind::Custom(formula@),
        }
    }
}

impl Fractals {
    /// Whether `self` and `other` are the same kind.
    pub fn same_kind(&self, other: &Fractals) -> (same: bool)
        ensures
            same == (self@ == other@),
    {
        match (self, other) {
            (Fractals::Mandelbrot, Fractals::Mandelbrot) => true,
            (Fractals::BurningShip, Fractals::BurningShip) => true,
            (Fractals::Tricorn, Fractals::Tricorn) => true,
            (Fractals::Feather, Fractals::Feather) => true,
            (Fractals::Eye, Fractals::Eye) => true,
            (Fractals::Custom(a), Fractals::Custom(b)) => *a == *b,
            _ => false,
        }
    }
}

impl PartialEq for Fractals {
    fn eq(&self, other: &Fractals) -> (same: bool) {
        self.same_kind(other)
    }
}

impl PartialEqSpecImpl for Fractals {
    open spec fn obeys_eq_spec() -> bool {
        true
    }

    open spec fn eq_spec(&self, other: &Fractals) -> bool {
        self@ == other@
    }
}

impl Clone for Fractals {
    fn clone(&self) -> (copy: Fractals)
        ensures
            copy@ == self@,
    {
        match self {
            Fractals::Mandelbrot => Fractals::Mandelbrot,
            Fractals::BurningShip => Fractals::BurningShip,
            Fractals::Tricorn => Fractals::Tricorn,
            Fractals::Feather => Fractals::Feather,
            Fractals::Eye => Fractals::Eye,
            Fractals::Custom(formula) => Fractals::Custom(formula.clone()),
        }
    }
}

/// The fractal kinds as a request names them: the custom kind comes without
/// its formula, which travels in the query.
#[derive(Debug, Clone, Copy, PartialEq, Eq, Hash, Structural)]
pub enum SimplifiedFractals {
    Mandelbrot,
    BurningShip,
    Tricorn,
    Feather,
    Eye,
    Custom,
}

impl SimplifiedFractals {
    /// The kind that this name and `formula` stand for. The formula counts
    /// only for the custom kind.
    pub open spec fn kind(self, formula: Option<Seq<char>>) -> FractalKind {
        match self {
            SimplifiedFractals::Mandelbrot => FractalKind::Mandelbrot,
            SimplifiedFractals::BurningShip => FractalKind::BurningShip,
            SimplifiedFractals::Tricorn => FractalKind::Tricorn,
            SimplifiedFractals::Feather => FractalKind::Feather,
            SimplifiedFractals::Eye => FractalKind::Eye,
            SimplifiedFractals::Custom => FractalKind::Custom(formula.unwrap()),
        }
    }

    /// Whether this name can be turned into a kind with `formula`: the custom
    /// kind needs one.
    pub open spec fn has_kind(self, formula: Option<Seq<char>>) -> bool {
        self == SimplifiedFractals::Custom ==> formula is Some
    }

    /// Turns the name into the kind. The custom kind takes its formula from
    /// `formula`, which must then be there.
    pub fn into_fractals(self, formula: Option<String>) -> (fractal: Fractals)
        requires
            self.has_kind(text_view(formula)),
        ensures
            fractal@ == self.kind(text_view(formula)),
    {
        match self {
            SimplifiedFractals::Mandelbrot => Fractals::Mandelbrot,
            SimplifiedFractals::Custom => Fractals::Custom(formula.unwrap()),
            SimplifiedFractals::BurningShip => Fractals::BurningShip,
            SimplifiedFractals::Tricorn => Fractals::Tricorn,
            SimplifiedFractals::Feather => Fractals::Feather,
            SimplifiedFractals::Eye => Fractals::Eye,
        }
    }

    /// Turns the name into the kind, or gives `None` where the custom kind
    /// comes without a formula.
    pub fn try_into_fractals(self, formula: Option<String>) -> (fractal: Option<Fractals>)
        ensures
            fractal is Some <==> self.has_kind(text_view(formula)),
            fractal matches Some(f) ==> f@ == self.kind(text_view(formula)),
    {
        if self == SimplifiedFractals::Custom && formula.is_none() {
            None
        } else {
            Some(self.into_fractals(formula))
        }
    }
}

/// An optional text as an optional sequence of characters.
pub open spec fn text_view(text: Option<String>) -> Option<Seq<char>> {
    match text {
        Some(s) => Some(s@),
        None => None,
    }
}

} // verus!
