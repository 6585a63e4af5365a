use truck_topology::{Arena, ConcatError, Curve, Edge, Error, Vertex};

/// A polyline through integer points; parameter `start + i` sits at `pts[i]`.
#[derive(Clone, Debug, PartialEq)]
struct Poly {
    start: i64,
    pts: Vec<i64>,
}

#[derive(Clone, Debug, PartialEq)]
enum PolyError {
    Parameters(i64, i64),
    Points(i64, i64),
}

fn poly(start: i64, pts: &[i64]) -> Poly {
    Poly { start, pts: pts.to_vec() }
}

impl Curve for Poly {
    type Point = i64;
    type Parameter = i64;
    type Error = PolyError;
    fn inverse(&self) -> Self {
        let mut pts = self.pts.clone();
        pts.reverse();
        Poly { start: self.start, pts }
    }
    fn back(&self) -> i64 {
        *self.pts.last().unwrap()
    }
    fn parameter_range(&self) -> (i64, i64) {
        (self.start, self.start + self.pts.len() as i64 - 1)
    }
    fn translated(&self, from: i64, to: i64) -> Self {
        Poly { start: self.start + to - from, pts: self.pts.clone() }
    }
    fn search_parameter(&self, point: &i64, _hint: Option<i64>, trials: usize) -> Option<i64> {
        self.pts
            .iter()
            .take(trials)
            .position(|p| p == point)
            .map(|i| self.start + i as i64)
    }
    fn cut(&self, t: &i64) -> (Self, Self) {
        let i = (*t - self.start) as usize;
        let first = Poly { start: self.start, pts: self.pts[..=i].to_vec() };
        let second = Poly { start: *t, pts: self.pts[i..].to_vec() };
        (first, second)
    }
    fn try_concat(&self, rhs: &Self) -> Result<Self, PolyError> {
        let end = self.parameter_range().1;
        if end != rhs.start {
            return Err(PolyError::Parameters(end, rhs.start));
        }
        if self.back() != rhs.pts[0] {
            return Err(PolyError::Points(self.back(), rhs.pts[0]));
        }
        let mut pts = self.pts.clone();
        pts.extend_from_slice(&rhs.pts[1..]);
        Ok(Poly { start: self.start, pts })
    }
}

fn two_vertices<C>(arena: &mut Arena<i64, C>) -> (Vertex, Vertex) {
    (Vertex::new(arena, 0), Vertex::new(arena, 1))
}

#[test]
fn try_new_distinct_vertices_succeeds() {
    let mut arena: Arena<i64, i64> = Arena::new();
    let (a, b) = two_vertices(&mut arena);
    let e = Edge::try_new(&mut arena, &a, &b, 5).unwrap();
    assert_eq!(e.front(), &a);
    assert_eq!(e.back(), &b);
    assert!(e.orientation());
    assert_eq!(arena.num_curves(), 1);
}

#[test]
fn try_new_same_vertex_fails() {
    let mut arena: Arena<i64, i64> = Arena::new();
    let (a, _) = two_vertices(&mut arena);
    assert_eq!(Edge::try_new(&mut arena, &a, &a, 5), Err(Error::SameVertex));
    assert_eq!(arena.num_curves(), 0);
}

#[test]
fn new_and_debug_new_build_forward_edges() {
    let mut arena: Arena<i64, i64> = Arena::new();
    let (a, b) = two_vertices(&mut arena);
    let e0 = Edge::new(&mut arena, &a, &b, 1);
    let e1 = Edge::debug_new(&mut arena, &b, &a, 2);
    let e2 = Edge::new_unchecked(&mut arena, &a, &a, 3);
    assert_eq!(e0.ends(), (&a, &b));
    assert_eq!(e1.ends(), (&b, &a));
    assert_eq!(e2.ends(), (&a, &a));
    assert!(!e0.is_same(&e1));
    assert_ne!(e0.id(), e1.id());
    assert_eq!(e2.get_curve(&arena), 3);
}

#[test]
fn inverse_twice_restores_edge() {
    let mut arena: Arena<i64, i64> = Arena::new();
    let (a, b) = two_vertices(&mut arena);
    let e = Edge::new(&mut arena, &a, &b, 0);
    let inv = e.inverse();
    assert!(inv.is_same(&e));
    assert_eq!(inv.inverse(), e);
    assert!(inv.inverse().is_same(&e));
}

#[test]
fn inverse_keeps_id_but_differs() {
    let mut arena: Arena<i64, i64> = Arena::new();
    let (a, b) = two_vertices(&mut arena);
    let e0 = Edge::new(&mut arena, &a, &b, 0);
    let e1 = e0.inverse();
    assert_ne!(e0, e1);
    assert_eq!(e0.id(), e1.id());
    assert!(!e1.orientation());
}

#[test]
fn invert_swaps_front_and_back() {
    let mut arena: Arena<i64, i64> = Arena::new();
    let (a, b) = two_vertices(&mut arena);
    let e = Edge::new(&mut arena, &a, &b, 0);
    let mut inv = e.clone();
    inv.invert();
    assert!(e.is_same(&inv));
    assert_eq!(e.front(), inv.back());
    assert_eq!(e.back(), inv.front());
    assert_eq!(inv.ends(), (&b, &a));
    assert_eq!(inv.absolute_ends(), (&a, &b));
    assert_eq!(inv.absolute_front(), &a);
    assert_eq!(inv.absolute_back(), &b);
}

#[test]
fn distinct_payloads_are_not_same() {
    let mut arena: Arena<i64, i64> = Arena::new();
    let (a, b) = two_vertices(&mut arena);
    let e0 = Edge::new(&mut arena, &a, &b, 0);
    let e1 = Edge::new(&mut arena, &a, &b, 0);
    let e2 = e0.clone();
    let e3 = e0.inverse();
    assert!(!e0.is_same(&e1));
    assert!(e0.is_same(&e2));
    assert!(e0.is_same(&e3));
    assert_ne!(e0, e1);
}

#[test]
fn set_curve_is_seen_by_every_clone() {
    let mut arena: Arena<i64, i64> = Arena::new();
    let (a, b) = two_vertices(&mut arena);
    let e0 = Edge::new(&mut arena, &a, &b, 0);
    let e1 = e0.clone();
    let e2 = e0.inverse();
    assert_eq!(e0.get_curve(&arena), 0);
    assert_eq!(e1.get_curve(&arena), 0);
    e0.set_curve(&mut arena, 1);
    assert_eq!(e0.get_curve(&arena), 1);
    assert_eq!(e1.get_curve(&arena), 1);
    assert_eq!(e2.get_curve(&arena), 1);
}

#[test]
fn get_curve_ignores_orientation() {
    let mut arena: Arena<i64, Poly> = Arena::new();
    let (a, b) = two_vertices(&mut arena);
    let mut e = Edge::new(&mut arena, &a, &b, poly(0, &[0, 1]));
    e.invert();
    assert_eq!(e.get_curve(&arena), poly(0, &[0, 1]));
    assert_eq!(e.oriented_curve(&arena), poly(0, &[1, 0]));
    assert_eq!(e.inverse().oriented_curve(&arena), poly(0, &[0, 1]));
}

#[test]
fn set_point_is_seen_by_every_copy() {
    let mut arena: Arena<i64, i64> = Arena::new();
    let v = Vertex::new(&mut arena, 3);
    let w = v;
    v.set_point(&mut arena, 4);
    assert_eq!(w.get_point(&arena), 4);
    assert_eq!(v.id(), w.id());
}

#[test]
fn vertices_with_equal_points_differ() {
    let mut arena: Arena<i64, i64> = Arena::new();
    let vs = Vertex::news(&mut arena, &[7, 7, 8]);
    assert_eq!(vs.len(), 3);
    assert_ne!(vs[0], vs[1]);
    assert_ne!(vs[0].id(), vs[1].id());
    assert_eq!(vs[0].get_point(&arena), vs[1].get_point(&arena));
    assert_eq!(vs[2].get_point(&arena), 8);
    assert_eq!(arena.num_points(), 3);
}

#[test]
fn cut_splits_at_point() {
    let mut arena: Arena<i64, Poly> = Arena::new();
    let (a, b) = (Vertex::new(&mut arena, 0), Vertex::new(&mut arena, 4));
    let e = Edge::new(&mut arena, &a, &b, poly(0, &[0, 1, 2, 3, 4]));
    let (e0, e1) = e.cut(&mut arena, 2).unwrap();
    assert_eq!(e0.front(), &a);
    assert_eq!(e1.back(), &b);
    assert_eq!(e0.back(), e1.front());
    assert_eq!(e0.back().get_point(&arena), 2);
    assert_eq!(e0.get_curve(&arena), poly(0, &[0, 1, 2]));
    assert_eq!(e1.get_curve(&arena), poly(2, &[2, 3, 4]));
    assert_eq!(e.get_curve(&arena), poly(0, &[0, 1, 2, 3, 4]));
    assert_eq!(arena.num_points(), 3);
    assert_eq!(arena.num_curves(), 3);
}

#[test]
fn cut_without_parameter_returns_none() {
    let mut arena: Arena<i64, Poly> = Arena::new();
    let (a, b) = (Vertex::new(&mut arena, 0), Vertex::new(&mut arena, 2));
    let e = Edge::new(&mut arena, &a, &b, poly(0, &[0, 1, 2]));
    assert!(e.cut(&mut arena, 9).is_none());
    assert_eq!(arena.num_points(), 2);
    assert_eq!(arena.num_curves(), 1);
}

#[test]
fn cut_then_concat_restores_curve() {
    let mut arena: Arena<i64, Poly> = Arena::new();
    let (a, b) = (Vertex::new(&mut arena, 10), Vertex::new(&mut arena, 14));
    let e = Edge::new(&mut arena, &a, &b, poly(3, &[10, 11, 12, 13, 14]));
    let (e0, e1) = e.cut(&mut arena, 12).unwrap();
    // move the second half so that the join has to shift it back
    let second = e1.get_curve(&arena).translated(5, 40);
    e1.set_curve(&mut arena, second);
    let joined = e0.concat(&mut arena, &e1).unwrap();
    assert_eq!(joined.ends(), (&a, &b));
    let curve = joined.get_curve(&arena);
    assert_eq!(curve, e.get_curve(&arena));
    assert_eq!(curve.parameter_range(), (3, 7));
}

#[test]
fn concat_follows_orientation() {
    let mut arena: Arena<i64, Poly> = Arena::new();
    let vs = Vertex::news(&mut arena, &[0, 1, 2]);
    let e0 = Edge::new(&mut arena, &vs[1], &vs[0], poly(0, &[1, 0]));
    let e1 = Edge::new(&mut arena, &vs[2], &vs[1], poly(0, &[2, 1]));
    let joined = e1.concat(&mut arena, &e0).unwrap();
    assert_eq!(joined.ends(), (&vs[2], &vs[0]));
    assert_eq!(joined.get_curve(&arena), poly(0, &[2, 1, 0]));
    let back = e0.inverse().concat(&mut arena, &e1.inverse()).unwrap();
    assert_eq!(back.ends(), (&vs[0], &vs[2]));
    assert_eq!(back.get_curve(&arena), poly(0, &[0, 1, 2]));
}

#[test]
fn concat_disconnected_vertices_fails() {
    let mut arena: Arena<i64, Poly> = Arena::new();
    let vs = Vertex::news(&mut arena, &[0, 1, 2, 3]);
    let e0 = Edge::new(&mut arena, &vs[0], &vs[1], poly(0, &[0, 1]));
    let e1 = Edge::new(&mut arena, &vs[2], &vs[3], poly(0, &[2, 3]));
    assert_eq!(
        e0.concat(&mut arena, &e1),
        Err(ConcatError::DisconnectedVertex(vs[1], vs[2]))
    );
    assert_eq!(
        e1.concat(&mut arena, &e0),
        Err(ConcatError::DisconnectedVertex(vs[3], vs[0]))
    );
    assert_eq!(arena.num_curves(), 2);
}

#[test]
fn concat_geometry_failure_is_wrapped() {
    let mut arena: Arena<i64, Poly> = Arena::new();
    let vs = Vertex::news(&mut arena, &[0, 1, 2]);
    let e0 = Edge::new(&mut arena, &vs[0], &vs[1], poly(0, &[0, 1]));
    let e1 = Edge::new(&mut arena, &vs[1], &vs[2], poly(0, &[5, 2]));
    assert_eq!(
        e0.concat(&mut arena, &e1),
        Err(ConcatError::FromGeometry(PolyError::Points(1, 5)))
    );
    assert_eq!(arena.num_curves(), 2);
}

#[test]
fn arena_membership() {
    let mut arena: Arena<i64, i64> = Arena::new();
    let mut other: Arena<i64, i64> = Arena::new();
    let (a, b) = two_vertices(&mut arena);
    let e = Edge::new(&mut arena, &a, &b, 0);
    assert!(arena.contains_vertex(&a));
    assert!(arena.contains_edge(&e));
    assert!(arena.contains_edge(&e.inverse()));
    assert!(!other.contains_vertex(&a));
    assert!(!other.contains_edge(&e));
    Vertex::new(&mut other, 5);
    assert!(other.contains_vertex(&a));
    assert!(!other.contains_vertex(&b));
}

#[test]
fn split_with_stores_given_parts() {
    let mut arena: Arena<i64, i64> = Arena::new();
    let (a, b) = two_vertices(&mut arena);
    let e = Edge::new(&mut arena, &a, &b, 10).inverse();
    let (e0, e1) = e.split_with(&mut arena, 11, 12, 7);
    assert_eq!(e0.ends(), (&a, e1.front()));
    assert_eq!(e1.back(), &b);
    assert_eq!(e0.back().get_point(&arena), 7);
    assert_eq!(e0.get_curve(&arena), 11);
    assert_eq!(e1.get_curve(&arena), 12);
    assert_eq!(e.get_curve(&arena), 10);
    assert!(!e0.is_same(&e) && !e1.is_same(&e) && !e0.is_same(&e1));
}

#[test]
fn concat_passes_shifted_oriented_curves() {
    let mut arena: Arena<i64, Poly> = Arena::new();
    let vs = Vertex::news(&mut arena, &[0, 1, 2]);
    let e0 = Edge::new(&mut arena, &vs[1], &vs[0], poly(2, &[1, 0]));
    let e1 = Edge::new(&mut arena, &vs[1], &vs[2], poly(-6, &[1, 2]));
    // e0 runs backwards: [0, 1] over (2, 3); e1 moves from -6 to 3.
    let joined = e0.inverse().concat(&mut arena, &e1).unwrap();
    assert_eq!(joined.get_curve(&arena), poly(2, &[0, 1, 2]));
    assert!(!joined.is_same(&e0) && !joined.is_same(&e1));
    assert!(joined.orientation());
}
