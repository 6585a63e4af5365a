use vstd::prelude::*;

use crate::arena::{Arena, Vertex};
use crate::curve::Curve;
use crate::errors::Error;

verus! {

/// How many steps `Edge::cut` gives the search for the parameter of its point.
pub const SEARCH_PARAMETER_TRIALS: usize = 100;

/// The identity of an edge: shared by every handle of one curve payload,
/// whatever their orientation.
#[derive(Clone, Copy, Debug, PartialEq, Eq, Structural, Hash, PartialOrd, Ord)]
pub struct EdgeID {
    index: usize,
}

impl EdgeID {
    /// The slot of the curve payload in its arena.
    pub closed spec fn index(self) -> nat {
        self.index as nat
    }
}

/// A directed handle on a curve payload of an [`Arena`], running between two
/// vertices.
///
/// The vertex pair is fixed when the payload is made; a handle may be
/// traversed either way. Copies of a handle share the payload, so a write
/// of the curve through one is seen through all. Two handles are equal when
/// they share the payload and the orientation (the vertex pair of a payload
/// never changes, so it agrees as well). Handles are meant for the arena
/// that made them: slots of different arenas are unrelated.
#[derive(Clone, Copy, Debug, PartialEq, Eq, Structural, Hash)]
pub struct Edge {
    front: Vertex,
    back: Vertex,
    orientation: bool,
    curve: usize,
}

/// Why two edges could not be joined.
#[derive(Clone, Debug, PartialEq, Eq)]
pub enum ConcatError<E> {
    /// The end of the first edge is not the start of the second one; holds
    /// those two vertices.
    DisconnectedVertex(Vertex, Vertex),
    /// The curves could not be joined.
    FromGeometry(E),
}

impl<P, C> Arena<P, C> {
    /// Whether every payload that `edge` addresses is in this arena.
    pub fn contains_edge(&self, edge: &Edge) -> (r: bool)
        ensures
            r == edge.lives_in(self),
    {
        proof {
            self.lemma_slot_count();
        }
        if edge.curve < self.num_curves() && self.contains_vertex(&edge.front)
            && self.contains_vertex(&edge.back) {
            let (front, back) = self.ends_of(edge.curve);
            front == edge.front && back == edge.back
        } else {
            false
        }
    }
}

impl Edge {
    /// The front vertex given at construction.
    pub closed spec fn abs_front(self) -> Vertex {
        self.front
    }

    /// The back vertex given at construction.
    pub closed spec fn abs_back(self) -> Vertex {
        self.back
    }

    /// Whether the edge runs as constructed.
    pub closed spec fn forward(self) -> bool {
        self.orientation
    }

    /// The slot of the curve payload.
    pub closed spec fn slot(self) -> nat {
        self.curve as nat
    }

    /// The same handle with the orientation flipped.
    pub closed spec fn inverted(self) -> Edge {
        Edge { orientation: !self.orientation, ..self }
    }

    /// The identity of the edge.
    pub closed spec fn identity(self) -> EdgeID {
        EdgeID { index: self.curve }
    }

    /// The vertex the edge starts from, as it is traversed.
    pub open spec fn start(self) -> Vertex {
        if self.forward() {
            self.abs_front()
        } else {
            self.abs_back()
        }
    }

    /// The vertex the edge ends at, as it is traversed.
    pub open spec fn end(self) -> Vertex {
        if self.forward() {
            self.abs_back()
        } else {
            self.abs_front()
        }
    }

    /// Whether every payload that the handle addresses is in `arena`.
    pub open spec fn lives_in<P, C>(self, arena: &Arena<P, C>) -> bool {
        &&& self.slot() < arena.curves().len()
        &&& arena.ends()[self.slot() as int] == (self.abs_front(), self.abs_back())
        &&& arena.has_vertex(self.abs_front())
        &&& arena.has_vertex(self.abs_back())
    }

    /// The curve payload of the edge in `arena`, in its constructed direction.
    pub open spec fn curve_in<P, C>(self, arena: &Arena<P, C>) -> C {
        arena.curves()[self.slot() as int]
    }

    /// The result of constructing an edge from `front` to `back` on a new
    /// payload `curve`, in `old` becoming `new`.
    pub open spec fn is_new_edge<P, C>(
        self,
        old: Arena<P, C>,
        new: Arena<P, C>,
        front: Vertex,
        back: Vertex,
        curve: C,
    ) -> bool {
        &&& self.abs_front() == front
        &&& self.abs_back() == back
        &&& self.forward()
        &&& self.slot() == old.curves().len()
        &&& new.curves() == old.curves().push(curve)
        &&& new.ends() == old.ends().push((front, back))
        &&& new.points() == old.points()
    }

    /// Whether `c` is the curve of this handle in `arena` taken in the
    /// direction in which the handle runs: a clone of the payload, or what
    /// [`Curve::inverse`] returns on it.
    pub open spec fn is_oriented_curve<P, C: Curve + Clone>(self, arena: &Arena<P, C>, c: C) -> bool {
        if self.forward() {
            cloned(self.curve_in(arena), c)
        } else {
            call_ensures(C::inverse, (&self.curve_in(arena),), c)
        }
    }

    /// Whether `e0` and `e1` are the two halves of `self` split at a new
    /// vertex at `point`, carrying `first` and `second`, in `old` becoming
    /// `new`.
    pub open spec fn is_split<P, C>(
        self,
        old: Arena<P, C>,
        new: Arena<P, C>,
        e0: Edge,
        e1: Edge,
        first: C,
        second: C,
        point: P,
    ) -> bool {
        let m = old.curves().len();
        &&& new.points() == old.points().push(point)
        &&& new.curves() == old.curves().push(first).push(second)
        &&& new.ends() == old.ends().push((self.abs_front(), e0.abs_back())).push(
            (e0.abs_back(), self.abs_back()),
        )
        &&& e0.abs_front() == self.abs_front()
        &&& e0.abs_back() == e1.abs_front()
        &&& e0.abs_back().index() == old.points().len()
        &&& e1.abs_back() == self.abs_back()
        &&& e0.forward() && e1.forward()
        &&& e0.slot() == m
        &&& e1.slot() == m + 1
    }

    /// Generates the edge from `front` to `back` carrying `curve`.
    ///
    /// Fails with [`Error::SameVertex`] when `front` and `back` are the same
    /// vertex; `arena` is then left as it was.
    pub fn try_new<P, C>(arena: &mut Arena<P, C>, front: &Vertex, back: &Vertex, curve: C) -> (r:
        Result<Edge, Error>)
        requires
            old(arena).curves().len() < usize::MAX,
        ensures
            r is Ok <==> front != back,
            r is Ok ==> r->Ok_0.is_new_edge(*old(arena), *final(arena), *front, *back, curve),
            r is Err ==> r->Err_0 == Error::SameVertex && *final(arena) == *old(arena),
    {
        if front == back {
            Err(Error::SameVertex)
        } else {
            Ok(Edge::new_unchecked(arena, front, back, curve))
        }
    }

    /// Generates the edge from `front` to `back` carrying `curve`; the two
    /// vertices must differ.
    pub fn new<P, C>(arena: &mut Arena<P, C>, front: &Vertex, back: &Vertex, curve: C) -> (r: Edge)
        requires
            old(arena).curves().len() < usize::MAX,
            front != back,
        ensures
            r.is_new_edge(*old(arena), *final(arena), *front, *back, curve),
    {
        match Edge::try_new(arena, front, back, curve) {
            Ok(e) => e,
            Err(_) => {
                proof {
                    assert(false);
                }
                Edge { front: *front, back: *back, orientation: true, curve: 0 }
            },
        }
    }

    /// Generates the edge from `front` to `back` carrying `curve` without
    /// comparing the two vertices.
    ///
    /// Meant for paths where the caller has already established that they
    /// differ; nothing here stops an edge from a vertex to itself.
    pub fn new_unchecked<P, C>(
        arena: &mut Arena<P, C>,
        front: &Vertex,
        back: &Vertex,
        curve: C,
    ) -> (r: Edge)
        requires
            old(arena).curves().len() < usize::MAX,
        ensures
            r.is_new_edge(*old(arena), *final(arena), *front, *back, curve),
    {
        let index = arena.push_edge(curve, *front, *back);
        Edge { front: *front, back: *back, orientation: true, curve: index }
    }

    /// Generates the edge from `front` to `back` carrying `curve`.
    ///
    /// The vertices must differ, as for [`Edge::new`]; here that is a
    /// precondition that a verified caller discharges, so no comparison is
    /// made at run time.
    pub fn debug_new<P, C>(arena: &mut Arena<P, C>, front: &Vertex, back: &Vertex, curve: C) -> (r:
        Edge)
        requires
            old(arena).curves().len() < usize::MAX,
            front != back,
        ensures
            r.is_new_edge(*old(arena), *final(arena), *front, *back, curve),
    {
        Edge::new_unchecked(arena, front, back, curve)
    }

    /// Whether the edge runs as constructed.
    pub fn orientation(&self) -> (r: bool)
        ensures
            r == self.forward(),
    {
        self.orientation
    }

    /// Turns the edge around, in place.
    pub fn invert(&mut self)
        ensures
            *final(self) == old(self).inverted(),
            final(self).forward() == !old(self).forward(),
            final(self).abs_front() == old(self).abs_front(),
            final(self).abs_back() == old(self).abs_back(),
            final(self).slot() == old(self).slot(),
    {
        self.orientation = !self.orientation;
    }

    /// The same edge, traversed the other way.
    pub fn inverse(&self) -> (r: Edge)
        ensures
            r == self.inverted(),
            r.forward() == !self.forward(),
            r.abs_front() == self.abs_front(),
            r.abs_back() == self.abs_back(),
            r.slot() == self.slot(),
    {
        let mut res = *self;
        res.invert();
        res
    }

    /// The vertex the edge starts from.
    pub fn front(&self) -> (r: &Vertex)
        ensures
            *r == self.start(),
    {
        match self.orientation {
            true => &self.front,
            false => &self.back,
        }
    }

    /// The vertex the edge ends at.
    pub fn back(&self) -> (r: &Vertex)
        ensures
            *r == self.end(),
    {
        match self.orientation {
            true => &self.back,
            false => &self.front,
        }
    }

    /// The vertices the edge starts from and ends at.
    pub fn ends(&self) -> (r: (&Vertex, &Vertex))
        ensures
            *r.0 == self.start(),
            *r.1 == self.end(),
    {
        match self.orientation {
            true => (&self.front, &self.back),
            false => (&self.back, &self.front),
        }
    }

    /// The front vertex given at construction, whatever the orientation.
    pub fn absolute_front(&self) -> (r: &Vertex)
        ensures
            *r == self.abs_front(),
    {
        &self.front
    }

    /// The back vertex given at construction, whatever the orientation.
    pub fn absolute_back(&self) -> (r: &Vertex)
        ensures
            *r == self.abs_back(),
    {
        &self.back
    }

    /// The two vertices given at construction, whatever the orientation.
    pub fn absolute_ends(&self) -> (r: (&Vertex, &Vertex))
        ensures
            *r.0 == self.abs_front(),
            *r.1 == self.abs_back(),
    {
        (&self.front, &self.back)
    }

    /// Whether the two handles share their curve payload, whatever their
    /// orientations. Meaningful for handles of one arena.
    pub fn is_same(&self, other: &Edge) -> (r: bool)
        ensures
            r == (self.slot() == other.slot()),
    {
        self.curve == other.curve
    }

    /// The identity of the edge, which does not depend on its orientation.
    /// It is unique among the edges of one arena.
    pub fn id(&self) -> (r: EdgeID)
        ensures
            r == self.identity(),
            r.index() == self.slot(),
    {
        EdgeID { index: self.curve }
    }

    /// A clone of the curve in its constructed direction, whatever the
    /// orientation of this handle.
    pub fn get_curve<P, C: Clone>(&self, arena: &Arena<P, C>) -> (r: C)
        requires
            self.slot() < arena.curves().len(),
        ensures
            cloned(self.curve_in(arena), r),
    {
        arena.curve_ref(self.curve).clone()
    }

    /// Replaces the curve payload; every handle of this edge sees the new
    /// curve.
    pub fn set_curve<P, C>(&self, arena: &mut Arena<P, C>, curve: C)
        requires
            self.slot() < old(arena).curves().len(),
        ensures
            final(arena).curves() == old(arena).curves().update(self.slot() as int, curve),
            final(arena).points() == old(arena).points(),
    {
        arena.write_curve(self.curve, curve);
    }

    /// The curve in the direction in which this handle runs: a clone of the
    /// payload when the edge runs as constructed, its inverse otherwise.
    pub fn oriented_curve<P, C: Curve + Clone>(&self, arena: &Arena<P, C>) -> (r: C)
        requires
            self.slot() < arena.curves().len(),
        ensures
            self.is_oriented_curve(arena, r),
    {
        match self.orientation {
            true => arena.curve_ref(self.curve).clone(),
            false => arena.curve_ref(self.curve).inverse(),
        }
    }
    /// Splits the edge where its curve passes through `point`.
    ///
    /// Searches the parameter of `point` on a clone of the curve, from no
    /// hint, in at most [`SEARCH_PARAMETER_TRIALS`] steps. When the search
    /// finds none, returns `None` and leaves `arena` as it was. Otherwise
    /// cuts the curve at that parameter and hands the two parts, with the
    /// end point of the first, to [`Edge::split_with`]. The payloads of
    /// `self` are not touched.
    pub fn cut<P, C: Curve<Point = P> + Clone>(&self, arena: &mut Arena<P, C>, point: P) -> (r:
        Option<(Edge, Edge)>)
        requires
            self.lives_in(old(arena)),
            old(arena).points().len() + 1 < usize::MAX,
            old(arena).curves().len() + 2 < usize::MAX,
        ensures
            r is None ==> *final(arena) == *old(arena) && exists|c: C|
                #![trigger cloned(self.curve_in(old(arena)), c)]
                cloned(self.curve_in(old(arena)), c) && call_ensures(
                    C::search_parameter,
                    (&c, &point, None::<C::Parameter>, SEARCH_PARAMETER_TRIALS),
                    None::<C::Parameter>,
                ),
            r matches Some((e0, e1)) ==> exists|c: C, t: C::Parameter, first: C, second: C, p: P|
                #![trigger cloned(self.curve_in(old(arena)), c), call_ensures(C::cut, (&c, &t), (first, second)), call_ensures(C::back, (&first,), p)]
                {
                    &&& cloned(self.curve_in(old(arena)), c)
                    &&& call_ensures(
                        C::search_parameter,
                        (&c, &point, None::<C::Parameter>, SEARCH_PARAMETER_TRIALS),
                        Some(t),
                    )
                    &&& call_ensures(C::cut, (&c, &t), (first, second))
                    &&& call_ensures(C::back, (&first,), p)
                    &&& self.is_split(*old(arena), *final(arena), e0, e1, first, second, p)
                },
    {
        let curve = self.get_curve(arena);
        match curve.search_parameter(&point, None, SEARCH_PARAMETER_TRIALS) {
            None => None,
            Some(t) => {
                let (first, second) = curve.cut(&t);
                let p = first.back();
                Some(self.split_with(arena, first, second, p))
            },
        }
    }

    /// Splits the edge at a new vertex at `point`: returns the edge from the
    /// constructed front to that vertex carrying `first`, and the edge from
    /// it to the constructed back carrying `second`, each on a new payload.
    pub fn split_with<P, C>(&self, arena: &mut Arena<P, C>, first: C, second: C, point: P) -> (r: (
        Edge,
        Edge,
    ))
        requires
            self.lives_in(old(arena)),
            old(arena).points().len() + 1 < usize::MAX,
            old(arena).curves().len() + 2 < usize::MAX,
        ensures
            self.is_split(*old(arena), *final(arena), r.0, r.1, first, second, point),
            r.0.lives_in(final(arena)),
            r.1.lives_in(final(arena)),
    {
        proof {
            arena.lemma_slot_count();
        }
        let v = Vertex::new(arena, point);
        let e0 = Edge::debug_new(arena, self.absolute_front(), &v, first);
        let e1 = Edge::debug_new(arena, &v, self.absolute_back(), second);
        proof {
            arena.lemma_slot_count();
        }
        (e0, e1)
    }

    /// Joins `self` and `rhs` into one edge.
    ///
    /// The end of `self` must be the start of `rhs`, as the two handles are
    /// traversed; otherwise fails with [`ConcatError::DisconnectedVertex`]
    /// holding those two vertices. The curves are taken in the directions
    /// in which the handles run, the second is shifted to start at the last
    /// parameter of the first, and [`Curve::try_concat`] joins them. Its
    /// error comes back unchanged in [`ConcatError::FromGeometry`]; its
    /// curve becomes the payload of a new edge from the start of `self` to
    /// the end of `rhs`. On failure `arena` is left as it was.
    pub fn concat<P, C: Curve + Clone>(&self, arena: &mut Arena<P, C>, rhs: &Edge) -> (r: Result<
        Edge,
        ConcatError<C::Error>,
    >)
        requires
            self.lives_in(old(arena)),
            rhs.lives_in(old(arena)),
            old(arena).curves().len() < usize::MAX,
            self.end() == rhs.start() ==> self.start() != rhs.end(),
        ensures
            r matches Err(ConcatError::DisconnectedVertex(_, _)) <==> self.end() != rhs.start(),
            r matches Err(ConcatError::DisconnectedVertex(a, b)) ==> a == self.end() && b
                == rhs.start(),
            r is Err ==> *final(arena) == *old(arena),
            r matches Ok(e) ==> e.is_new_edge(
                *old(arena),
                *final(arena),
                self.start(),
                rhs.end(),
                e.curve_in(final(arena)),
            ),
            self.end() == rhs.start() ==> exists|
                c0: C,
                c1: C,
                shifted: C,
                joined: Result<C, C::Error>,
            |
                #![trigger self.is_oriented_curve(old(arena), c0), rhs.is_oriented_curve(old(arena), c1), call_ensures(C::try_concat, (&c0, &shifted), joined)]
                {
                    &&& self.is_oriented_curve(old(arena), c0)
                    &&& rhs.is_oriented_curve(old(arena), c1)
                    &&& shifted_to_follow(c0, c1, shifted)
                    &&& call_ensures(C::try_concat, (&c0, &shifted), joined)
                    &&& joined is Ok ==> (r is Ok && r->Ok_0.curve_in(final(arena))
                        == joined->Ok_0)
                    &&& joined is Err ==> r == Err::<Edge, ConcatError<C::Error>>(
                        ConcatError::FromGeometry(joined->Err_0),
                    )
                },
    {
        if self.back() != rhs.front() {
            return Err(ConcatError::DisconnectedVertex(*self.back(), *rhs.front()));
        }
        let curve0 = self.oriented_curve(arena);
        let curve1 = rhs.oriented_curve(arena);
        let (_, t0) = curve0.parameter_range();
        let (t1, _) = curve1.parameter_range();
        let shifted = curve1.translated(t1, t0);
        proof {
            assert(shifted_to_follow(curve0, curve1, shifted));
        }
        let joined = curve0.try_concat(&shifted);
        match joined {
            Ok(curve) => Ok(Edge::debug_new(arena, self.front(), rhs.back(), curve)),
            Err(e) => Err(ConcatError::FromGeometry(e)),
        }
    }
}

/// Whether `shifted` is `second` shifted to start at the last parameter of
/// `first`, as [`Curve::parameter_range`] and [`Curve::translated`] give them.
pub open spec fn shifted_to_follow<C: Curve>(first: C, second: C, shifted: C) -> bool {
    exists|a: C::Parameter, t0: C::Parameter, t1: C::Parameter, b: C::Parameter|
        #![trigger call_ensures(C::parameter_range, (&first,), (a, t0)), call_ensures(C::parameter_range, (&second,), (t1, b))]
        {
            &&& call_ensures(C::parameter_range, (&first,), (a, t0))
            &&& call_ensures(C::parameter_range, (&second,), (t1, b))
            &&& call_ensures(C::translated, (&second, t1, t0), shifted)
        }
}

/// Two edge identities are equal exactly when they name the same slot.
pub proof fn lemma_edge_id_eq(a: EdgeID, b: EdgeID)
    ensures
        (a == b) <==> (a.index() == b.index()),
{
}

/// Two edges have the same identity exactly when they share their payload,
/// that is, when `is_same` holds of them.
pub proof fn lemma_id_is_payload(a: Edge, b: Edge)
    ensures
        (a.identity() == b.identity()) <==> (a.slot() == b.slot()),
{
}

/// Two handles of one arena are equal exactly when they share their payload
/// and their orientation: the vertex pair comes with the payload.
pub proof fn lemma_edge_eq<P, C>(a: Edge, b: Edge, arena: Arena<P, C>)
    requires
        a.lives_in(&arena),
        b.lives_in(&arena),
    ensures
        (a == b) <==> (a.slot() == b.slot() && a.forward() == b.forward()),
{
}

/// Turning an edge around twice gives back the same handle, and every
/// handle along the way shares the payload of the first.
pub proof fn lemma_inverse_inverse(e: Edge)
    ensures
        e.inverted().inverted() == e,
        e.inverted().slot() == e.slot(),
        e.inverted().inverted().slot() == e.slot(),
{
}

/// An edge and its inverse have the same identity, and are never equal
/// handles.
pub proof fn lemma_inverse_identity(e: Edge)
    ensures
        e.inverted().identity() == e.identity(),
        e.inverted() != e,
{
}

/// Turning an edge around swaps the vertices it starts from and ends at,
/// and keeps the vertices it was constructed with.
pub proof fn lemma_inverse_ends(e: Edge)
    ensures
        e.inverted().start() == e.end(),
        e.inverted().end() == e.start(),
        e.inverted().abs_front() == e.abs_front(),
        e.inverted().abs_back() == e.abs_back(),
{
}

/// A curve written through one handle is read through every handle of the
/// same payload: after `a.set_curve(arena, curve)` takes `before` to
/// `after`, the curve of `b` in `after` is `curve` whenever `a.is_same(b)`.
pub proof fn lemma_shared_curve<P, C>(
    a: Edge,
    b: Edge,
    before: Arena<P, C>,
    after: Arena<P, C>,
    curve: C,
)
    requires
        a.slot() < before.curves().len(),
        a.slot() == b.slot(),
        after.curves() == before.curves().update(a.slot() as int, curve),
        after.points() == before.points(),
        after.ends() == before.ends(),
    ensures
        b.curve_in(&after) == curve,
        b.lives_in(&before) ==> b.lives_in(&after),
{
}

/// The two edges that `cut` returns can be joined again: their vertices
/// connect, and the joined edge runs between the vertices that the cut
/// edge was constructed with.
pub proof fn lemma_cut_then_concat<P, C>(
    e: Edge,
    e0: Edge,
    e1: Edge,
    joined: Edge,
    before: Arena<P, C>,
    after: Arena<P, C>,
)
    requires
        e.abs_front() != e.abs_back(),
        e0.abs_front() == e.abs_front(),
        e0.abs_back() == e1.abs_front(),
        e1.abs_back() == e.abs_back(),
        e0.forward() && e1.forward(),
        joined.is_new_edge(before, after, e0.start(), e1.end(), joined.curve_in(&after)),
    ensures
        e0.end() == e1.start(),
        e0.start() != e1.end(),
        joined.start() == e.abs_front(),
        joined.end() == e.abs_back(),
{
}

} // verus!
