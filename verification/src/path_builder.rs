//! Building a path segment by segment.

use vstd::prelude::*;
use crate::bounds::Bounds;
use crate::path::{
    lemma_point_count_bounds,
    lemma_point_count_concat,
    lemma_point_count_push,
    point_count,
    Path,
    PathVerb,
    PathView,
};
use crate::point::Point;
use crate::scalar::Scalar;

verus! {

/// The direction in which a closed contour is added.
#[derive(Clone, Copy, Debug, PartialEq, Eq, Structural)]
pub enum PathDirection {
    /// Clockwise.
    CW,
    /// Counter-clockwise.
    CCW,
}

/// A path builder as a value of specifications.
pub struct PathBuilderView {
    pub verbs: Seq<PathVerb>,
    pub points: Seq<Point>,
    /// Where among the points the last contour began.
    pub last_move_to_index: int,
    /// Whether the next segment has to begin a contour of its own.
    pub move_to_required: bool,
}

impl PathBuilderView {
    /// The builder with nothing in it.
    pub open spec fn empty() -> PathBuilderView {
        PathBuilderView {
            verbs: Seq::empty(),
            points: Seq::empty(),
            last_move_to_index: 0,
            move_to_required: true,
        }
    }

    /// There is one point for each place that the verbs have for one, the
    /// first verb is a move, an empty builder waits for one, and the last
    /// contour began among the points.
    pub open spec fn wf(self) -> bool {
        &&& self.points.len() == point_count(self.verbs)
        &&& self.verbs.len() > 0 ==> self.verbs[0] == PathVerb::Move
        &&& self.verbs.len() == 0 ==> self.move_to_required
        &&& 0 <= self.last_move_to_index <= self.points.len()
    }

    /// Begins a contour at `p`. A move that follows a move replaces it.
    pub open spec fn move_to(self, p: Point) -> PathBuilderView {
        if self.verbs.len() > 0 && self.verbs.last() == PathVerb::Move {
            PathBuilderView { points: self.points.update(self.points.len() - 1, p), ..self }
        } else {
            PathBuilderView {
                verbs: self.verbs.push(PathVerb::Move),
                points: self.points.push(p),
                last_move_to_index: self.points.len() as int,
                move_to_required: false,
            }
        }
    }

    /// Where a contour begins that no move began: where the last contour
    /// began, or the origin if there was none.
    pub open spec fn injected_point(self) -> Point {
        if self.last_move_to_index < self.points.len() {
            self.points[self.last_move_to_index]
        } else {
            Point { x: Scalar { bits: 0 }, y: Scalar { bits: 0 } }
        }
    }

    /// Begins a contour where one is required.
    pub open spec fn inject_move_to_if_needed(self) -> PathBuilderView {
        if self.move_to_required {
            self.move_to(self.injected_point())
        } else {
            self
        }
    }

    /// Adds a segment of the given kind and its points, after the move
    /// that it may need.
    pub open spec fn segment_to(self, verb: PathVerb, points: Seq<Point>) -> PathBuilderView {
        let started = self.inject_move_to_if_needed();
        PathBuilderView {
            verbs: started.verbs.push(verb),
            points: started.points + points,
            ..started
        }
    }

    /// Adds a line to `p`.
    pub open spec fn line_to(self, p: Point) -> PathBuilderView {
        self.segment_to(PathVerb::Line, seq![p])
    }

    /// Adds a quadratic curve to `p` with the control point `p1`.
    pub open spec fn quad_to(self, p1: Point, p: Point) -> PathBuilderView {
        self.segment_to(PathVerb::Quad, seq![p1, p])
    }

    /// Adds a cubic curve to `p` with the control points `p1` and `p2`.
    pub open spec fn cubic_to(self, p1: Point, p2: Point, p: Point) -> PathBuilderView {
        self.segment_to(PathVerb::Cubic, seq![p1, p2, p])
    }

    /// Closes the contour. Nothing is added to an empty path or after a
    /// close, but the next segment begins a contour either way.
    pub open spec fn close(self) -> PathBuilderView {
        PathBuilderView {
            verbs: if self.verbs.len() > 0 && self.verbs.last() != PathVerb::Close {
                self.verbs.push(PathVerb::Close)
            } else {
                self.verbs
            },
            move_to_required: true,
            ..self
        }
    }

    /// Adds the quadratic curves that `points` hold from `from` on, two
    /// points to a curve. A point that is left over is not used.
    pub open spec fn quads_from(self, points: Seq<Point>, from: int) -> PathBuilderView
        decreases points.len() - from,
    {
        if 0 <= from && from + 1 < points.len() {
            self.quad_to(points[from], points[from + 1]).quads_from(points, from + 2)
        } else {
            self
        }
    }

    /// Replaces the last point, or begins a contour at `p` if there is
    /// no point yet.
    pub open spec fn set_last_point(self, p: Point) -> PathBuilderView {
        if self.points.len() > 0 {
            PathBuilderView { points: self.points.update(self.points.len() - 1, p), ..self }
        } else {
            self.move_to(p)
        }
    }

    /// Appends all of another builder's segments.
    pub open spec fn push_path(self, other: PathBuilderView) -> PathBuilderView {
        if other.verbs.len() == 0 {
            self
        } else {
            PathBuilderView {
                verbs: self.verbs + other.verbs,
                points: self.points + other.points,
                last_move_to_index: if self.last_move_to_index != 0 {
                    self.points.len() + other.last_move_to_index
                } else {
                    0
                },
                ..self
            }
        }
    }

    /// Appends the segments of `other` from verb `index` down to the move
    /// that began their contour, each one backwards: a segment that ended
    /// at the point before `offset` now ends where it began.
    pub open spec fn reverse_from(self, other: PathBuilderView, index: int, offset: int)
        -> PathBuilderView
        decreases index + 1,
    {
        if index < 0 {
            self
        } else {
            match other.verbs[index] {
                PathVerb::Move => self,
                PathVerb::Line => self.line_to(other.points[offset - 1]).reverse_from(
                    other,
                    index - 1,
                    offset - 1,
                ),
                PathVerb::Quad => self.quad_to(
                    other.points[offset - 1],
                    other.points[offset - 2],
                ).reverse_from(other, index - 1, offset - 2),
                PathVerb::Cubic => self.cubic_to(
                    other.points[offset - 1],
                    other.points[offset - 2],
                    other.points[offset - 3],
                ).reverse_from(other, index - 1, offset - 3),
                PathVerb::Close => self.reverse_from(other, index - 1, offset),
            }
        }
    }

    /// Appends the last contour of `other` backwards, without its last
    /// point.
    pub open spec fn reverse_path_to(self, other: PathBuilderView) -> PathBuilderView {
        if other.verbs.len() == 0 {
            self
        } else {
            self.reverse_from(other, other.verbs.len() - 1, other.points.len() - 1)
        }
    }

    /// Whether all points from `start` on are equal as points. Fewer than
    /// two points always are.
    pub open spec fn is_zero_length_since_point(self, start: int) -> bool {
        forall|i: int| start < i < self.points.len() ==> self.points[start].same(#[trigger] self.points[i])
    }

    /// The path that the builder finishes as: none without a second
    /// segment, and none without bounds.
    pub open spec fn finish(self) -> Option<PathView> {
        if self.verbs.len() <= 1 {
            None
        } else {
            match Bounds::spec_from_points(self.points) {
                Some(bounds) => Some(PathView { bounds, verbs: self.verbs, points: self.points }),
                None => None,
            }
        }
    }
}

/// A move keeps a builder well formed.
pub proof fn lemma_move_to_wf(s: PathBuilderView, p: Point)
    requires
        s.wf(),
    ensures
        s.move_to(p).wf(),
{
    lemma_point_count_push(s.verbs, PathVerb::Move);
    lemma_point_count_bounds(s.verbs);
}

/// A segment keeps a builder well formed, if it brings the points that
/// its verb takes and is no move.
pub proof fn lemma_segment_to_wf(s: PathBuilderView, verb: PathVerb, points: Seq<Point>)
    requires
        s.wf(),
        verb != PathVerb::Move,
        points.len() == verb.spec_points(),
    ensures
        s.segment_to(verb, points).wf(),
        s.inject_move_to_if_needed().wf(),
        s.inject_move_to_if_needed().verbs.len() > 0 || !s.move_to_required,
{
    lemma_move_to_wf(s, s.injected_point());
    let started = s.inject_move_to_if_needed();
    lemma_point_count_push(started.verbs, verb);
}

/// A path builder.
#[derive(Clone, Debug)]
pub struct PathBuilder {
    pub(crate) verbs: Vec<PathVerb>,
    pub(crate) points: Vec<Point>,
    pub(crate) last_move_to_index: usize,
    pub(crate) move_to_required: bool,
}

impl Default for PathBuilder {
    /// The builder that `new` creates: empty, and waiting for a move.
    fn default() -> (r: PathBuilder)
        ensures
            r@ == PathBuilderView::empty(),
            r.wf(),
    {
        PathBuilder::new()
    }
}

impl View for PathBuilder {
    type V = PathBuilderView;

    closed spec fn view(&self) -> PathBuilderView {
        PathBuilderView {
            verbs: self.verbs@,
            points: self.points@,
            last_move_to_index: self.last_move_to_index as int,
            move_to_required: self.move_to_required,
        }
    }
}

impl PathBuilder {
    /// The builder is well formed. Every builder made by this module is.
    pub open spec fn wf(self) -> bool {
        self@.wf()
    }

    /// Creates a new builder.
    pub fn new() -> (r: Self)
        ensures
            r@ == PathBuilderView::empty(),
            r.wf(),
    {
        let r = PathBuilder {
            verbs: Vec::new(),
            points: Vec::new(),
            last_move_to_index: 0,
            move_to_required: true,
        };
        assert(r@.verbs =~= Seq::empty() && r@.points =~= Seq::empty());
        r
    }

    /// Creates a new builder with room for so many verbs and points.
    pub fn with_capacity(verbs_capacity: usize, points_capacity: usize) -> (r: Self)
        ensures
            r@ == PathBuilderView::empty(),
            r.wf(),
    {
        let r = PathBuilder {
            verbs: Vec::with_capacity(verbs_capacity),
            points: Vec::with_capacity(points_capacity),
            last_move_to_index: 0,
            move_to_required: true,
        };
        assert(r@.verbs =~= Seq::empty() && r@.points =~= Seq::empty());
        r
    }

    /// Creates the path that runs around `bounds`, clockwise from the
    /// top left corner, and closes.
    pub fn from_bound(bounds: Bounds) -> (r: Path)
        ensures
            r@.bounds == bounds@,
            r@.verbs == seq![
                PathVerb::Move,
                PathVerb::Line,
                PathVerb::Line,
                PathVerb::Line,
                PathVerb::Close,
            ],
            r@.points == seq![
                Point { x: bounds@.left, y: bounds@.top },
                Point { x: bounds@.right, y: bounds@.top },
                Point { x: bounds@.right, y: bounds@.bottom },
                Point { x: bounds@.left, y: bounds@.bottom },
            ],
    {
        let mut verbs: Vec<PathVerb> = Vec::new();
        verbs.push(PathVerb::Move);
        verbs.push(PathVerb::Line);
        verbs.push(PathVerb::Line);
        verbs.push(PathVerb::Line);
        verbs.push(PathVerb::Close);
        let mut points: Vec<Point> = Vec::new();
        points.push(Point::from_xy(bounds.left(), bounds.top()));
        points.push(Point::from_xy(bounds.right(), bounds.top()));
        points.push(Point::from_xy(bounds.right(), bounds.bottom()));
        points.push(Point::from_xy(bounds.left(), bounds.bottom()));
        assert(verbs@ =~= seq![
            PathVerb::Move,
            PathVerb::Line,
            PathVerb::Line,
            PathVerb::Line,
            PathVerb::Close,
        ]);
        assert(points@ =~= seq![
            Point { x: bounds@.left, y: bounds@.top },
            Point { x: bounds@.right, y: bounds@.top },
            Point { x: bounds@.right, y: bounds@.bottom },
            Point { x: bounds@.left, y: bounds@.bottom },
        ]);
        Path::from_parts(bounds, verbs, points)
    }

    /// Makes room for so many more verbs and points.
    pub fn reserve(&mut self, additional_verbs: usize, additional_points: usize)
        ensures
            final(self)@ == old(self)@,
    {
        self.verbs.reserve(additional_verbs);
        self.points.reserve(additional_points);
    }

    /// Returns the current number of segments in the builder.
    pub fn len(&self) -> (n: usize)
        ensures
            n == self@.verbs.len(),
    {
        self.verbs.len()
    }

    /// Returns the current number of points in the builder.
    pub fn points_len(&self) -> (n: usize)
        ensures
            n == self@.points.len(),
    {
        self.points.len()
    }

    /// Checks if the builder has any segments added.
    pub fn is_empty(&self) -> (r: bool)
        ensures
            r == (self@.verbs.len() == 0),
    {
        self.verbs.len() == 0
    }

    /// Adds beginning of a contour.
    ///
    /// Multiple continuous MoveTo segments are not allowed. If the previous
    /// segment was also MoveTo, it will be overwritten with the current one.
    pub fn move_to(&mut self, x: Scalar, y: Scalar)
        requires
            old(self).wf(),
        ensures
            final(self)@ == old(self)@.move_to(Point { x, y }),
            final(self).wf(),
    {
        proof {
            lemma_move_to_wf(self@, Point { x, y });
            lemma_point_count_bounds(self@.verbs);
        }
        let n = self.verbs.len();
        if n > 0 && self.verbs[n - 1] == PathVerb::Move {
            let last_idx = self.points.len() - 1;
            self.points.set(last_idx, Point::from_xy(x, y));
        } else {
            self.last_move_to_index = self.points.len();
            self.move_to_required = false;
            self.verbs.push(PathVerb::Move);
            self.points.push(Point::from_xy(x, y));
        }
    }

    /// Begins a contour where the last one began, if a segment that is
    /// about to be added needs a contour to go to.
    pub fn inject_move_to_if_needed(&mut self)
        requires
            old(self).wf(),
        ensures
            final(self)@ == old(self)@.inject_move_to_if_needed(),
            final(self).wf(),
    {
        proof {
            lemma_move_to_wf(self@, self@.injected_point());
        }
        if self.move_to_required {
            if self.last_move_to_index < self.points.len() {
                let p = self.points[self.last_move_to_index];
                self.move_to(p.x, p.y);
            } else {
                self.move_to(Scalar::zero(), Scalar::zero());
            }
        }
    }

    /// Adds a line from the last point.
    ///
    /// - If Path is empty - adds Move(0, 0) first.
    /// - If Path ends with Close - adds Move(last_x, last_y) first.
    pub fn line_to(&mut self, x: Scalar, y: Scalar)
        requires
            old(self).wf(),
        ensures
            final(self)@ == old(self)@.line_to(Point { x, y }),
            final(self).wf(),
    {
        proof {
            lemma_segment_to_wf(self@, PathVerb::Line, seq![Point { x, y }]);
        }
        self.inject_move_to_if_needed();
        self.verbs.push(PathVerb::Line);
        self.points.push(Point::from_xy(x, y));
        assert(self@.points =~= old(self)@.line_to(Point { x, y }).points);
    }

    /// Adds a quad curve from the last point to `x`, `y`.
    ///
    /// - If Path is empty - adds Move(0, 0) first.
    /// - If Path ends with Close - adds Move(last_x, last_y) first.
    pub fn quad_to(&mut self, x1: Scalar, y1: Scalar, x: Scalar, y: Scalar)
        requires
            old(self).wf(),
        ensures
            final(self)@ == old(self)@.quad_to(Point { x: x1, y: y1 }, Point { x, y }),
            final(self).wf(),
    {
        proof {
            lemma_segment_to_wf(
                self@,
                PathVerb::Quad,
                seq![Point { x: x1, y: y1 }, Point { x, y }],
            );
        }
        self.inject_move_to_if_needed();
        self.verbs.push(PathVerb::Quad);
        self.points.push(Point::from_xy(x1, y1));
        self.points.push(Point::from_xy(x, y));
        assert(self@.points =~= old(self)@.quad_to(Point { x: x1, y: y1 }, Point { x, y }).points);
    }

    /// Adds a cubic curve from the last point to `x`, `y`.
    ///
    /// - If Path is empty - adds Move(0, 0) first.
    /// - If Path ends with Close - adds Move(last_x, last_y) first.
    pub fn cubic_to(&mut self, x1: Scalar, y1: Scalar, x2: Scalar, y2: Scalar, x: Scalar, y: Scalar)
        requires
            old(self).wf(),
        ensures
            final(self)@ == old(self)@.cubic_to(
                Point { x: x1, y: y1 },
                Point { x: x2, y: y2 },
                Point { x, y },
            ),
            final(self).wf(),
    {
        proof {
            lemma_segment_to_wf(
                self@,
                PathVerb::Cubic,
                seq![Point { x: x1, y: y1 }, Point { x: x2, y: y2 }, Point { x, y }],
            );
        }
        self.inject_move_to_if_needed();
        self.verbs.push(PathVerb::Cubic);
        self.points.push(Point::from_xy(x1, y1));
        self.points.push(Point::from_xy(x2, y2));
        self.points.push(Point::from_xy(x, y));
        assert(self@.points =~= old(self)@.cubic_to(
            Point { x: x1, y: y1 },
            Point { x: x2, y: y2 },
            Point { x, y },
        ).points);
    }

    /// Adds a curve that was cut into quadratic curves: `points` holds
    /// the point that the curve starts from, and then for each quadratic
    /// curve its control point and its end.
    pub fn push_quads(&mut self, points: &Vec<Point>)
        requires
            old(self).wf(),
        ensures
            final(self)@ == old(self)@.quads_from(points@, 1),
            final(self).wf(),
    {
        let mut offset: usize = 1;
        while offset < points.len() && offset + 1 < points.len()
            invariant
                self.wf(),
                1 <= offset,
                self@.quads_from(points@, offset as int) == old(self)@.quads_from(points@, 1),
            decreases points@.len() - offset,
        {
            let pt1 = points[offset];
            let pt2 = points[offset + 1];
            self.quad_to(pt1.x, pt1.y, pt2.x, pt2.y);
            offset += 2;
        }
    }

    /// Closes the current contour.
    ///
    /// A closed contour connects the first and the last Point with a line,
    /// forming a continuous loop.
    ///
    /// Does nothing when Path is empty or already closed.
    pub fn close(&mut self)
        requires
            old(self).wf(),
        ensures
            final(self)@ == old(self)@.close(),
            final(self).wf(),
    {
        proof {
            lemma_point_count_push(self@.verbs, PathVerb::Close);
        }
        let n = self.verbs.len();
        if n > 0 {
            if self.verbs[n - 1] != PathVerb::Close {
                self.verbs.push(PathVerb::Close);
            }
        }
        self.move_to_required = true;
    }

    /// The last point, if there is one.
    pub fn last_point(&self) -> (r: Option<Point>)
        ensures
            r == (if self@.points.len() > 0 {
                Some(self@.points.last())
            } else {
                None
            }),
    {
        let n = self.points.len();
        if n > 0 {
            Some(self.points[n - 1])
        } else {
            None
        }
    }

    /// Replaces the last point, or begins a contour at `pt` if there is
    /// no point yet.
    pub fn set_last_point(&mut self, pt: Point)
        requires
            old(self).wf(),
        ensures
            final(self)@ == old(self)@.set_last_point(pt),
            final(self).wf(),
    {
        proof {
            lemma_move_to_wf(self@, pt);
        }
        let n = self.points.len();
        if n > 0 {
            self.points.set(n - 1, pt);
        } else {
            self.move_to(pt.x, pt.y);
        }
    }

    /// Whether the points from `start_pt_index` on all lie in one place.
    pub fn is_zero_length_since_point(&self, start_pt_index: usize) -> (r: bool)
        requires
            start_pt_index <= self@.points.len(),
        ensures
            r == self@.is_zero_length_since_point(start_pt_index as int),
    {
        let len = self.points.len();
        let count = len - start_pt_index;
        if count < 2 {
            return true;
        }
        let first = self.points[start_pt_index];
        let mut i: usize = 1;
        while i < count
            invariant
                1 <= i <= count,
                len == self@.points.len(),
                count == len - start_pt_index,
                first == self@.points[start_pt_index as int],
                forall|k: int|
                    start_pt_index < k < start_pt_index + i ==> first.same(
                        #[trigger] self@.points[k],
                    ),
            decreases count - i,
        {
            if !first.is_same(self.points[start_pt_index + i]) {
                return false;
            }
            i += 1;
        }
        true
    }

    /// Appends all of another builder's segments.
    pub fn push_path(&mut self, other: &PathBuilder)
        requires
            old(self).wf(),
            other.wf(),
            old(self)@.points.len() + other@.points.len() <= usize::MAX,
        ensures
            final(self)@ == old(self)@.push_path(other@),
            final(self).wf(),
    {
        if other.is_empty() {
            return ;
        }
        proof {
            lemma_point_count_concat(self@.verbs, other@.verbs);
        }
        if self.last_move_to_index != 0 {
            self.last_move_to_index = self.points.len() + other.last_move_to_index;
        }
        let mut i: usize = 0;
        while i < other.verbs.len()
            invariant
                i <= other.verbs@.len(),
                self.verbs@ == old(self).verbs@ + other.verbs@.subrange(0, i as int),
                self.points@ == old(self).points@,
                self.move_to_required == old(self).move_to_required,
                self.last_move_to_index == (if old(self).last_move_to_index != 0 {
                    old(self).points@.len() + other.last_move_to_index
                } else {
                    0
                }),
            decreases other.verbs@.len() - i,
        {
            self.verbs.push(other.verbs[i]);
            i += 1;
            assert(self.verbs@ =~= old(self).verbs@ + other.verbs@.subrange(0, i as int));
        }
        assert(other.verbs@.subrange(0, i as int) =~= other.verbs@);
        let mut j: usize = 0;
        while j < other.points.len()
            invariant
                j <= other.points@.len(),
                self.verbs@ == old(self).verbs@ + other.verbs@,
                self.points@ == old(self).points@ + other.points@.subrange(0, j as int),
                self.move_to_required == old(self).move_to_required,
                self.last_move_to_index == (if old(self).last_move_to_index != 0 {
                    old(self).points@.len() + other.last_move_to_index
                } else {
                    0
                }),
            decreases other.points@.len() - j,
        {
            self.points.push(other.points[j]);
            j += 1;
            assert(self.points@ =~= old(self).points@ + other.points@.subrange(0, j as int));
        }
        assert(other.points@.subrange(0, j as int) =~= other.points@);
    }

    /// Appends, in a reverse order, the last contour of `other`, ignoring
    /// its last point.
    pub fn reverse_path_to(&mut self, other: &PathBuilder)
        requires
            old(self).wf(),
            other.wf(),
        ensures
            final(self)@ == old(self)@.reverse_path_to(other@),
            final(self).wf(),
    {
        if other.is_empty() {
            return ;
        }
        proof {
            lemma_point_count_bounds(other@.verbs);
            assert(other@.verbs.subrange(0, other@.verbs.len() as int) =~= other@.verbs);
        }
        let mut points_offset = other.points.len() - 1;
        let mut index = other.verbs.len();
        let mut done = false;
        while !done
            invariant
                self.wf(),
                other.wf(),
                1 <= index <= other@.verbs.len(),
                points_offset + 1 == point_count(other@.verbs.subrange(0, index as int)),
                points_offset < other@.points.len(),
                done ==> other@.verbs[index - 1] == PathVerb::Move,
                self@.reverse_from(other@, index as int - 1, points_offset as int) == old(
                    self,
                )@.reverse_path_to(other@),
            decreases index - (if done { 1int } else { 0int }),
        {
            let verb = other.verbs[index - 1];
            proof {
                let upto = other@.verbs.subrange(0, index as int);
                let before = other@.verbs.subrange(0, index as int - 1);
                assert(upto.drop_last() =~= before);
                assert(upto.last() == verb);
                lemma_point_count_bounds(before);
                if index > 1 {
                    assert(before[0] == other@.verbs[0]);
                }
            }
            match verb {
                PathVerb::Move => {
                    done = true;
                },
                PathVerb::Line => {
                    let pt = other.points[points_offset - 1];
                    points_offset -= 1;
                    self.line_to(pt.x, pt.y);
                    index -= 1;
                },
                PathVerb::Quad => {
                    let pt1 = other.points[points_offset - 1];
                    let pt2 = other.points[points_offset - 2];
                    points_offset -= 2;
                    self.quad_to(pt1.x, pt1.y, pt2.x, pt2.y);
                    index -= 1;
                },
                PathVerb::Cubic => {
                    let pt1 = other.points[points_offset - 1];
                    let pt2 = other.points[points_offset - 2];
                    let pt3 = other.points[points_offset - 3];
                    points_offset -= 3;
                    self.cubic_to(pt1.x, pt1.y, pt2.x, pt2.y, pt3.x, pt3.y);
                    index -= 1;
                },
                PathVerb::Close => {
                    index -= 1;
                },
            }
        }
    }

    /// Reset the builder.
    ///
    /// Memory is not deallocated.
    pub fn clear(&mut self)
        ensures
            final(self)@ == PathBuilderView::empty(),
            final(self).wf(),
    {
        self.verbs.clear();
        self.points.clear();
        self.last_move_to_index = 0;
        self.move_to_required = true;
        assert(self@.verbs =~= Seq::empty() && self@.points =~= Seq::empty());
    }

    /// Finishes the builder and returns a `Path`.
    ///
    /// Returns `None` when `Path` is empty, is a single move, or has no
    /// bounds: see [`Bounds::spec_from_points`].
    pub fn finish(self) -> (r: Option<Path>)
        ensures
            r is Some == self@.finish() is Some,
            r matches Some(path) ==> Some(path@) == self@.finish(),
    {
        if self.is_empty() {
            return None;
        }
        if self.verbs.len() == 1 {
            return None;
        }
        match Bounds::from_points(&self.points) {
            Some(bounds) => Some(Path::from_parts(bounds, self.verbs, self.points)),
            None => None,
        }
    }
}

} // verus!
