use vstd::prelude::*;

verus! {

/// What an edge needs of the curve it carries.
///
/// A curve is parametrised over an interval of `Parameter`s and maps it into
/// `Point`s. Implementations are supplied by the geometry layer; the
/// topology only asks them to invert, reparametrise, split and join.
pub trait Curve: Sized {
    /// The points the curve passes through.
    type Point;
    /// The parameter of the curve.
    type Parameter;
    /// Why two curves could not be joined.
    type Error;

    /// The same trace, traversed the other way.
    fn inverse(&self) -> Self;

    /// The point at the end of the parameter range.
    fn back(&self) -> Self::Point;

    /// The first and last parameter.
    fn parameter_range(&self) -> (Self::Parameter, Self::Parameter);

    /// The same curve with its parametrisation shifted, without scaling,
    /// so that parameter `from` becomes parameter `to`.
    fn translated(&self, from: Self::Parameter, to: Self::Parameter) -> Self;

    /// The parameter at which the curve passes through `point`, searched
    /// from `hint` in at most `trials` steps.
    fn search_parameter(
        &self,
        point: &Self::Point,
        hint: Option<Self::Parameter>,
        trials: usize,
    ) -> Option<Self::Parameter>;

    /// The part before `t` and the part after it.
    fn cut(&self, t: &Self::Parameter) -> (Self, Self);

    /// The curve that runs along `self` and then along `rhs`.
    fn try_concat(&self, rhs: &Self) -> Result<Self, Self::Error>;
}

} // verus!
