use vstd::prelude::*;

verus! {

use crate::points::Point;
use crate::{DEFAULT_SEGMENTS, DEFAULT_TENSION};

/// A list of options indicating how a 2D spline should be calculated:
/// global tension (in `TENSION_UNIT` fixed-point units), sampled points
/// per interval, optional hidden anchors shaping the open ends, and
/// whether the curve closes into a loop.
#[derive(Clone)]
pub struct SplineOpts {
    pub tension: i64,
    pub num_of_segments: u32,
    pub hidden_point_at_start: Option<Point>,
    pub hidden_point_at_end: Option<Point>,
    pub closed: bool,
}

impl SplineOpts {
    /// Creates new options with the defaults.
    pub fn new() -> (r: SplineOpts)
        ensures
            r.tension == DEFAULT_TENSION,
            r.num_of_segments == DEFAULT_SEGMENTS,
            r.hidden_point_at_start is None,
            r.hidden_point_at_end is None,
            !r.closed,
    {
        SplineOpts {
            tension: DEFAULT_TENSION,
            num_of_segments: DEFAULT_SEGMENTS,
            hidden_point_at_start: None,
            hidden_point_at_end: None,
            closed: false,
        }
    }

    /// Sets tension.
    pub fn tension(self, val: i64) -> (r: SplineOpts)
        ensures
            r == (SplineOpts { tension: val, ..self }),
    {
        let mut s = self;
        s.tension = val;
        s
    }

    /// Sets num_of_segments.
    pub fn num_of_segments(self, val: u32) -> (r: SplineOpts)
        ensures
            r == (SplineOpts { num_of_segments: val, ..self }),
    {
        let mut s = self;
        s.num_of_segments = val;
        s
    }

    /// Sets hidden_point_at_start.
    pub fn hidden_point_at_start(self, val: Point) -> (r: SplineOpts)
        ensures
            r == (SplineOpts { hidden_point_at_start: Some(val), ..self }),
    {
        let mut s = self;
        s.hidden_point_at_start = Some(val);
        s
    }

    /// Sets hidden_point_at_end.
    pub fn hidden_point_at_end(self, val: Point) -> (r: SplineOpts)
        ensures
            r == (SplineOpts { hidden_point_at_end: Some(val), ..self }),
    {
        let mut s = self;
        s.hidden_point_at_end = Some(val);
        s
    }

    /// Sets closed.
    pub fn closed(self, val: bool) -> (r: SplineOpts)
        ensures
            r == (SplineOpts { closed: val, ..self }),
    {
        let mut s = self;
        s.closed = val;
        s
    }

    /// Gets tension.
    pub fn get_tension(&self) -> (r: i64)
        ensures
            r == self.tension,
    {
        self.tension
    }

    /// Gets num_of_segments.
    pub fn get_num_of_segments(&self) -> (r: u32)
        ensures
            r == self.num_of_segments,
    {
        self.num_of_segments
    }

    /// Gets hidden_point_at_start.
    pub fn get_hidden_point_at_start(&self) -> (r: Option<Point>)
        ensures
            r == self.hidden_point_at_start,
    {
        self.hidden_point_at_start
    }

    /// Gets hidden_point_at_end.
    pub fn get_hidden_point_at_end(&self) -> (r: Option<Point>)
        ensures
            r == self.hidden_point_at_end,
    {
        self.hidden_point_at_end
    }

    /// Gets closed.
    pub fn get_closed(&self) -> (r: bool)
        ensures
            r == self.closed,
    {
        self.closed
    }
}

impl Default for SplineOpts {
    /// The documented defaults: `DEFAULT_TENSION`, `DEFAULT_SEGMENTS`,
    /// no hidden anchors, open curve.
    fn default() -> (r: SplineOpts)
        ensures
            r.tension == DEFAULT_TENSION,
            r.num_of_segments == DEFAULT_SEGMENTS,
            r.hidden_point_at_start is None,
            r.hidden_point_at_end is None,
            !r.closed,
    {
        SplineOpts::new()
    }
}

} // verus!
