//! Paths: verbs and the points they take.

use vstd::prelude::*;
use crate::bounds::{Bounds, BoundsView};
use crate::point::Point;

verus! {

/// What a segment of a path does.
#[derive(Clone, Copy, Debug, PartialEq, Eq, Structural)]
pub enum PathVerb {
    Move,
    Line,
    Quad,
    Cubic,
    Close,
}

impl PathVerb {
    /// The number of points that a segment of this kind takes.
    pub open spec fn spec_points(self) -> int {
        match self {
            PathVerb::Move => 1,
            PathVerb::Line => 1,
            PathVerb::Quad => 2,
            PathVerb::Cubic => 3,
            PathVerb::Close => 0,
        }
    }
}

/// The number of points that a list of verbs takes.
pub open spec fn point_count(verbs: Seq<PathVerb>) -> int
    decreases verbs.len(),
{
    if verbs.len() == 0 {
        0
    } else {
        point_count(verbs.drop_last()) + verbs.last().spec_points()
    }
}

/// Adding a verb adds its points.
pub proof fn lemma_point_count_push(verbs: Seq<PathVerb>, verb: PathVerb)
    ensures
        point_count(verbs.push(verb)) == point_count(verbs) + verb.spec_points(),
{
    assert(verbs.push(verb).drop_last() =~= verbs);
}

/// The points of two lists of verbs add up.
pub proof fn lemma_point_count_concat(first: Seq<PathVerb>, second: Seq<PathVerb>)
    ensures
        point_count(first + second) == point_count(first) + point_count(second),
    decreases second.len(),
{
    if second.len() == 0 {
        assert(first + second =~= first);
    } else {
        lemma_point_count_concat(first, second.drop_last());
        assert((first + second).drop_last() =~= first + second.drop_last());
    }
}

/// No list of verbs takes a negative number of points, and one that
/// begins with a move takes at least one.
pub proof fn lemma_point_count_bounds(verbs: Seq<PathVerb>)
    ensures
        0 <= point_count(verbs),
        verbs.len() > 0 && verbs[0] == PathVerb::Move ==> 1 <= point_count(verbs),
    decreases verbs.len(),
{
    if verbs.len() > 0 {
        lemma_point_count_bounds(verbs.drop_last());
    }
}

/// A path as a value of specifications.
pub struct PathView {
    pub bounds: BoundsView,
    pub verbs: Seq<PathVerb>,
    pub points: Seq<Point>,
}

/// A finished path: at least two segments, one point for each place that
/// the verbs have for one, and bounds about all of the points.
#[derive(Clone, Debug, PartialEq)]
pub struct Path {
    pub(crate) bounds: Bounds,
    pub(crate) verbs: Vec<PathVerb>,
    pub(crate) points: Vec<Point>,
}

impl View for Path {
    type V = PathView;

    closed spec fn view(&self) -> PathView {
        PathView { bounds: self.bounds@, verbs: self.verbs@, points: self.points@ }
    }
}

impl Path {
    /// Puts a path together.
    pub(crate) fn from_parts(bounds: Bounds, verbs: Vec<PathVerb>, points: Vec<Point>) -> (r: Path)
        ensures
            r@ == (PathView { bounds: bounds@, verbs: verbs@, points: points@ }),
    {
        Path { bounds, verbs, points }
    }

    /// The number of segments.
    pub fn len(&self) -> (n: usize)
        ensures
            n == self@.verbs.len(),
    {
        self.verbs.len()
    }

    /// Whether the path has no segment.
    pub fn is_empty(&self) -> (r: bool)
        ensures
            r == (self@.verbs.len() == 0),
    {
        self.verbs.len() == 0
    }

    /// The bounds of the path's points.
    pub fn bounds(&self) -> (r: Bounds)
        ensures
            r@ == self@.bounds,
    {
        self.bounds
    }

    /// The verbs, one for each segment.
    pub fn verbs(&self) -> (r: &[PathVerb])
        ensures
            r@ == self@.verbs,
    {
        self.verbs.as_slice()
    }

    /// The points, in the order in which the verbs take them.
    pub fn points(&self) -> (r: &[Point])
        ensures
            r@ == self@.points,
    {
        self.points.as_slice()
    }
}

} // verus!
