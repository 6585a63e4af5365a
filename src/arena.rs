use vstd::prelude::*;

verus! {

/// Storage for the shared geometric payloads of a shape.
///
/// Each payload sits in a slot addressed by its index. Slots are only ever
/// appended, so an index names one payload for the whole life of the arena;
/// the index is the payload's identity. Every handle that holds an index
/// observes writes made through any other handle holding it.
pub struct Arena<P, C> {
    points: Vec<P>,
    edges: Vec<EdgeSlot<C>>,
}

/// A curve payload with the vertices its edge was constructed with.
struct EdgeSlot<C> {
    curve: C,
    front: Vertex,
    back: Vertex,
}

impl<P, C> Arena<P, C> {
    /// The point payloads, by vertex identity.
    pub closed spec fn points(&self) -> Seq<P> {
        self.points@
    }

    /// The curve payloads, by edge identity.
    pub closed spec fn curves(&self) -> Seq<C> {
        self.edges@.map_values(|e: EdgeSlot<C>| e.curve)
    }

    /// The vertex pair that each edge payload was constructed with, by edge
    /// identity; it never changes.
    pub closed spec fn ends(&self) -> Seq<(Vertex, Vertex)> {
        self.edges@.map_values(|e: EdgeSlot<C>| (e.front, e.back))
    }

    /// Whether `v` addresses a point payload of this arena.
    pub open spec fn has_vertex(&self, v: Vertex) -> bool {
        v.index() < self.points().len()
    }

    /// An empty arena.
    pub fn new() -> (r: Self)
        ensures
            r.points().len() == 0,
            r.curves().len() == 0,
            r.ends().len() == 0,
    {
        let r = Arena { points: Vec::new(), edges: Vec::new() };
        assert(r.curves() =~= Seq::empty());
        assert(r.ends() =~= Seq::empty());
        r
    }

    /// Number of point payloads.
    pub fn num_points(&self) -> (r: usize)
        ensures
            r == self.points().len(),
    {
        self.points.len()
    }

    /// Number of curve payloads.
    pub fn num_curves(&self) -> (r: usize)
        ensures
            r == self.curves().len(),
            r == self.ends().len(),
    {
        self.edges.len()
    }

    /// Whether `v` addresses a point payload of this arena.
    pub fn contains_vertex(&self, v: &Vertex) -> (r: bool)
        ensures
            r == self.has_vertex(*v),
    {
        v.index < self.points.len()
    }

    pub(crate) fn push_point(&mut self, point: P) -> (r: usize)
        requires
            old(self).points().len() < usize::MAX,
        ensures
            r == old(self).points().len(),
            final(self).points() == old(self).points().push(point),
            final(self).curves() == old(self).curves(),
            final(self).ends() == old(self).ends(),
    {
        let r = self.points.len();
        self.points.push(point);
        r
    }

    pub(crate) fn point_ref(&self, i: usize) -> (r: &P)
        requires
            i < self.points().len(),
        ensures
            *r == self.points()[i as int],
    {
        &self.points[i]
    }

    pub(crate) fn write_point(&mut self, i: usize, point: P)
        requires
            i < old(self).points().len(),
        ensures
            final(self).points() == old(self).points().update(i as int, point),
            final(self).curves() == old(self).curves(),
            final(self).ends() == old(self).ends(),
    {
        self.points.set(i, point);
    }

    pub(crate) fn push_edge(&mut self, curve: C, front: Vertex, back: Vertex) -> (r: usize)
        requires
            old(self).curves().len() < usize::MAX,
        ensures
            r == old(self).curves().len(),
            final(self).curves() == old(self).curves().push(curve),
            final(self).ends() == old(self).ends().push((front, back)),
            final(self).points() == old(self).points(),
    {
        let r = self.edges.len();
        self.edges.push(EdgeSlot { curve, front, back });
        assert(self.curves() =~= old(self).curves().push(curve));
        assert(self.ends() =~= old(self).ends().push((front, back)));
        r
    }

    /// There is one vertex pair for each curve payload.
    pub proof fn lemma_slot_count(&self)
        ensures
            self.curves().len() == self.ends().len(),
    {
    }

    pub(crate) fn ends_of(&self, i: usize) -> (r: (Vertex, Vertex))
        requires
            i < self.curves().len(),
        ensures
            r == self.ends()[i as int],
    {
        (self.edges[i].front, self.edges[i].back)
    }

    pub(crate) fn curve_ref(&self, i: usize) -> (r: &C)
        requires
            i < self.curves().len(),
        ensures
            *r == self.curves()[i as int],
    {
        &self.edges[i].curve
    }

    pub(crate) fn write_curve(&mut self, i: usize, curve: C)
        requires
            i < old(self).curves().len(),
        ensures
            final(self).curves() == old(self).curves().update(i as int, curve),
            final(self).ends() == old(self).ends(),
            final(self).points() == old(self).points(),
    {
        let front = self.edges[i].front;
        let back = self.edges[i].back;
        self.edges.set(i, EdgeSlot { curve, front, back });
        assert(self.curves() =~= old(self).curves().update(i as int, curve));
        assert(self.ends() =~= old(self).ends());
    }
}

/// The identity of a vertex: equal exactly for handles of one point payload.
#[derive(Clone, Copy, Debug, PartialEq, Eq, Structural, Hash, PartialOrd, Ord)]
pub struct VertexID {
    index: usize,
}

impl VertexID {
    /// The slot of the payload in its arena.
    pub closed spec fn index(self) -> nat {
        self.index as nat
    }
}

/// A handle on a point payload of an [`Arena`].
///
/// Copies of a handle address the same payload. Equality is identity:
/// two vertices with equal coordinates are different vertices unless they
/// share a payload.
#[derive(Clone, Copy, Debug, PartialEq, Eq, Structural, Hash)]
pub struct Vertex {
    index: usize,
}

impl Vertex {
    /// The slot of the payload that this handle addresses.
    pub closed spec fn index(self) -> nat {
        self.index as nat
    }

    /// Adds `point` to `arena` as a new payload and returns its handle.
    pub fn new<P, C>(arena: &mut Arena<P, C>, point: P) -> (r: Vertex)
        requires
            old(arena).points().len() < usize::MAX,
        ensures
            r.index() == old(arena).points().len(),
            final(arena).points() == old(arena).points().push(point),
            final(arena).curves() == old(arena).curves(),
            final(arena).ends() == old(arena).ends(),
    {
        Vertex { index: arena.push_point(point) }
    }

    /// Adds each point of `points` as a new payload, in order.
    pub fn news<P: Clone, C>(arena: &mut Arena<P, C>, points: &[P]) -> (r: Vec<Vertex>)
        requires
            old(arena).points().len() + points@.len() < usize::MAX,
        ensures
            r@.len() == points@.len(),
            final(arena).points().len() == old(arena).points().len() + points@.len(),
            final(arena).points().subrange(0, old(arena).points().len() as int)
                == old(arena).points(),
            forall|i: int|
                0 <= i < r@.len() ==> #[trigger] r@[i].index() == old(arena).points().len() + i
                    && cloned(points@[i], final(arena).points()[old(arena).points().len() + i]),
            final(arena).curves() == old(arena).curves(),
            final(arena).ends() == old(arena).ends(),
    {
        let ghost start = arena.points().len();
        let mut r: Vec<Vertex> = Vec::new();
        let mut i: usize = 0;
        while i < points.len()
            invariant
                i <= points@.len(),
                r@.len() == i,
                start == old(arena).points().len(),
                start + points@.len() < usize::MAX,
                arena.points().len() == start + i,
                arena.points().subrange(0, start as int) == old(arena).points(),
                forall|j: int|
                    0 <= j < i ==> #[trigger] r@[j].index() == start + j && cloned(
                        points@[j],
                        arena.points()[start + j],
                    ),
                arena.curves() == old(arena).curves(),
                arena.ends() == old(arena).ends(),
            decreases points@.len() - i,
        {
            let p = points[i].clone();
            let v = Vertex::new(arena, p);
            r.push(v);
            assert(arena.points().subrange(0, start as int) =~= old(arena).points());
            i += 1;
        }
        r
    }

    /// The identity of the payload.
    pub fn id(&self) -> (r: VertexID)
        ensures
            r.index() == self.index(),
    {
        VertexID { index: self.index }
    }

    /// A clone of the current point.
    pub fn get_point<P: Clone, C>(&self, arena: &Arena<P, C>) -> (r: P)
        requires
            arena.has_vertex(*self),
        ensures
            cloned(arena.points()[self.index() as int], r),
    {
        arena.point_ref(self.index).clone()
    }

    /// Overwrites the point; every handle of this vertex observes it.
    pub fn set_point<P, C>(&self, arena: &mut Arena<P, C>, point: P)
        requires
            old(arena).has_vertex(*self),
        ensures
            final(arena).points() == old(arena).points().update(self.index() as int, point),
            final(arena).curves() == old(arena).curves(),
            final(arena).ends() == old(arena).ends(),
    {
        arena.write_point(self.index, point);
    }
}

/// Two vertex handles are equal exactly when they address the same slot.
pub proof fn lemma_vertex_eq(a: Vertex, b: Vertex)
    ensures
        (a == b) <==> (a.index() == b.index()),
{
}

/// Two vertex identities are equal exactly when they name the same slot.
pub proof fn lemma_vertex_id_eq(a: VertexID, b: VertexID)
    ensures
        (a == b) <==> (a.index() == b.index()),
{
}

} // verus!
