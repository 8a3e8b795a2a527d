use vstd::prelude::*;

verus! {

/// The point used as `prev` for the window of interval `i`: the point
/// one before `curr`, the wraparound point for a closed curve, else the
/// hidden start anchor or `curr` itself.
pub open spec fn window_prev<T>(pts: Seq<T>, closed: bool, hidden_start: Option<T>, i: int) -> T {
    if i == 0 {
        if closed {
            pts[pts.len() - 1]
        } else {
            match hidden_start {
                Some(h) => h,
                None => pts[0],
            }
        }
    } else {
        pts[i - 1]
    }
}

/// The point used as `next` for the window of interval `i`; for a
/// closed curve the last interval wraps back to the first point.
pub open spec fn window_next<T>(pts: Seq<T>, closed: bool, i: int) -> T {
    if closed && i == pts.len() - 1 {
        pts[0]
    } else {
        pts[i + 1]
    }
}

/// The point used as `next2` for the window of interval `i`: two past
/// `curr`, wrapping modulo the length for a closed curve; on an open
/// curve's last interval, the hidden end anchor or `next` itself.
pub open spec fn window_next2<T>(pts: Seq<T>, closed: bool, hidden_end: Option<T>, i: int) -> T {
    if closed {
        if i == pts.len() - 2 {
            pts[0]
        } else if i == pts.len() - 1 {
            pts[1]
        } else {
            pts[i + 2]
        }
    } else {
        if i == pts.len() - 2 {
            match hidden_end {
                Some(h) => h,
                None => pts[i + 1],
            }
        } else {
            pts[i + 2]
        }
    }
}

/// Resolves the four-point window `(prev, curr, next, next2)` of
/// interval `i`, applying every boundary rule of the generator.
pub fn window_at<T: Copy>(
    pts: &Vec<T>,
    closed: bool,
    hidden_start: &Option<T>,
    hidden_end: &Option<T>,
    i: usize,
) -> (w: (T, T, T, T))
    requires
        pts@.len() >= 2,
        closed ==> i < pts@.len(),
        !closed ==> i < pts@.len() - 1,
    ensures
        w.0 == window_prev(pts@, closed, *hidden_start, i as int),
        w.1 == pts@[i as int],
        w.2 == window_next(pts@, closed, i as int),
        w.3 == window_next2(pts@, closed, *hidden_end, i as int),
{
    let len = pts.len();
    let curr = pts[i];
    let prev = if i == 0 {
        if closed {
            pts[len - 1]
        } else {
            match hidden_start {
                Some(h) => *h,
                None => curr,
            }
        }
    } else {
        pts[i - 1]
    };
    let next = if closed && i == len - 1 {
        pts[0]
    } else {
        pts[i + 1]
    };
    let next2 = if closed {
        if i == len - 2 {
            pts[0]
        } else if i == len - 1 {
            pts[1]
        } else {
            pts[i + 2]
        }
    } else {
        if i == len - 2 {
            match hidden_end {
                Some(h) => *h,
                None => next,
            }
        } else {
            pts[i + 2]
        }
    };
    (prev, curr, next, next2)
}

} // verus!
