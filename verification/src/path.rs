use vstd::prelude::*;

verus! {

/// One unit from `from` toward `to`; `from` itself once it is there.
pub open spec fn nudged(from: int, to: int) -> int {
    if from < to {
        from + 1
    } else if from > to {
        from - 1
    } else {
        from
    }
}

/// The distance between two coordinates.
pub open spec fn span(from: int, to: int) -> nat {
    if from < to {
        (to - from) as nat
    } else {
        (from - to) as nat
    }
}

/// The number of steps of the walk between two points: the walk moves both
/// axes at once and ends as soon as either axis has arrived, so it is as
/// long as the shorter of the two spans, and empty where the points share a
/// coordinate.
pub open spec fn walk_len(from_x: int, from_y: int, to_x: int, to_y: int) -> nat {
    if span(from_x, to_x) <= span(from_y, to_y) {
        span(from_x, to_x)
    } else {
        span(from_y, to_y)
    }
}

/// Where a coordinate is after `steps` steps toward `to`, none of them past it.
pub open spec fn advanced(from: int, to: int, steps: int) -> int {
    if from < to {
        from + steps
    } else if from > to {
        from - steps
    } else {
        from
    }
}

/// The walk between two points, the whole of `duration` shared out evenly
/// over its steps (what does not divide is dropped).
pub open spec fn walk(from_x: i32, from_y: i32, to_x: i32, to_y: i32, duration: u32) -> Seq<
    (i32, i32, u32),
> {
    let n = walk_len(from_x as int, from_y as int, to_x as int, to_y as int);
    Seq::new(
        n,
        |i: int|
            (
                advanced(from_x as int, to_x as int, i + 1) as i32,
                advanced(from_y as int, to_y as int, i + 1) as i32,
                (duration as int / n as int) as u32,
            ),
    )
}

proof fn lemma_walk_step(from: int, to: int, steps: int, far: int)
    requires
        0 <= steps < span(from, to),
    ensures
        advanced(from, to, steps) != to,
        nudged(advanced(from, to, steps), to) == advanced(from, to, steps + 1),
        far <= from && far <= to ==> far <= advanced(from, to, steps + 1),
        from <= far && to <= far ==> advanced(from, to, steps + 1) <= far,
{
}

fn nudge(from: i32, to: i32) -> (next: i32)
    ensures
        next == nudged(from as int, to as int),
{
    if from < to {
        from + 1
    } else if from > to {
        from - 1
    } else {
        from
    }
}

/// The path of a drag from one point to another that takes `duration`
/// milliseconds in all: one entry for each step, with the point it reaches
/// and the time it takes.
///
/// Each step moves both axes by one unit toward the target, and the walk
/// ends when either axis arrives: a drag along one axis alone has no steps,
/// and one whose spans differ stops short on the longer axis.
pub fn virtual_path(from_x: i32, from_y: i32, to_x: i32, to_y: i32, duration: u32) -> (path:
    Option<Vec<(i32, i32, u32)>>)
    ensures
        path is None <==> walk_len(from_x as int, from_y as int, to_x as int, to_y as int) == 0,
        path is Some ==> path->0@ == walk(from_x, from_y, to_x, to_y, duration),
{
    let ghost n = walk_len(from_x as int, from_y as int, to_x as int, to_y as int);
    let mut x: i32 = from_x;
    let mut y: i32 = from_y;
    let mut points: Vec<(i32, i32, u32)> = Vec::new();
    while x != to_x && y != to_y
        invariant
            n == walk_len(from_x as int, from_y as int, to_x as int, to_y as int),
            points@.len() <= n,
            x == advanced(from_x as int, to_x as int, points@.len() as int),
            y == advanced(from_y as int, to_y as int, points@.len() as int),
            (x == to_x || y == to_y) ==> points@.len() == n,
            forall|i: int|
                0 <= i < points@.len() ==> (#[trigger] points@[i]).0 == advanced(
                    from_x as int,
                    to_x as int,
                    i + 1,
                ) && points@[i].1 == advanced(from_y as int, to_y as int, i + 1),
        decreases n - points@.len(),
    {
        proof {
            lemma_walk_step(from_x as int, to_x as int, points@.len() as int, i32::MIN as int);
            lemma_walk_step(from_x as int, to_x as int, points@.len() as int, i32::MAX as int);
            lemma_walk_step(from_y as int, to_y as int, points@.len() as int, i32::MIN as int);
            lemma_walk_step(from_y as int, to_y as int, points@.len() as int, i32::MAX as int);
        }
        x = nudge(x, to_x);
        y = nudge(y, to_y);
        points.push((x, y, 0));
    }
    let len = points.len();
    if len > 0 {
        assert(n <= u32::MAX);
        let each_duration: u32 = duration / (len as u32);
        let mut i: usize = 0;
        while i < len
            invariant
                len == points@.len(),
                len == n,
                i <= len,
                each_duration == (duration as int / n as int),
                forall|k: int|
                    0 <= k < len ==> (#[trigger] points@[k]).0 == advanced(
                        from_x as int,
                        to_x as int,
                        k + 1,
                    ) && points@[k].1 == advanced(from_y as int, to_y as int, k + 1),
                forall|k: int| 0 <= k < i ==> (#[trigger] points@[k]).2 == each_duration,
            decreases len - i,
        {
            let point = points[i];
            points.set(i, (point.0, point.1, each_duration));
            i += 1;
        }
        assert(points@ =~= walk(from_x, from_y, to_x, to_y, duration));
        return Some(points);
    }
    None
}

/// Between a point and itself there is no walk, whatever the duration.
pub proof fn lemma_no_walk_between_equal_points(x: i32, y: i32, duration: u32)
    ensures
        walk_len(x as int, y as int, x as int, y as int) == 0,
        walk(x, y, x, y, duration).len() == 0,
{
}

/// There is a walk exactly between points that differ in both
/// coordinates.
pub proof fn lemma_walk_needs_both_axes(from_x: i32, from_y: i32, to_x: i32, to_y: i32)
    ensures
        walk_len(from_x as int, from_y as int, to_x as int, to_y as int) > 0 <==> from_x != to_x
            && from_y != to_y,
{
}

/// Every step of a walk moves one unit on each axis, and the steps
/// together take no longer than the duration of the whole.
pub proof fn lemma_walk_steps(
    from_x: i32,
    from_y: i32,
    to_x: i32,
    to_y: i32,
    duration: u32,
    i: int,
)
    requires
        0 <= i < walk_len(from_x as int, from_y as int, to_x as int, to_y as int),
    ensures
        ({
            let path = walk(from_x, from_y, to_x, to_y, duration);
            let before = if i == 0 {
                (from_x, from_y, 0u32)
            } else {
                path[i - 1]
            };
            &&& path.len() == walk_len(from_x as int, from_y as int, to_x as int, to_y as int)
            &&& span(before.0 as int, path[i].0 as int) == 1
            &&& span(before.1 as int, path[i].1 as int) == 1
            &&& span(path[i].0 as int, to_x as int) == span(from_x as int, to_x as int) - (i + 1)
            &&& span(path[i].1 as int, to_y as int) == span(from_y as int, to_y as int) - (i + 1)
            &&& path[i].2 * path.len() <= duration
        }),
{
    let n = walk_len(from_x as int, from_y as int, to_x as int, to_y as int) as int;
    let d = duration as int;
    assert((d / n) * n <= d) by (nonlinear_arith)
        requires
            n > 0,
            d >= 0,
    ;
    assert(0 <= d / n <= d) by (nonlinear_arith)
        requires
            n > 0,
            d >= 0,
    ;
}

/// A walk between points whose spans are equal arrives: its last step
/// reaches the target.
pub proof fn lemma_diagonal_walk_arrives(
    from_x: i32,
    from_y: i32,
    to_x: i32,
    to_y: i32,
    duration: u32,
)
    requires
        span(from_x as int, to_x as int) == span(from_y as int, to_y as int),
        from_x != to_x,
    ensures
        ({
            let path = walk(from_x, from_y, to_x, to_y, duration);
            &&& path.len() == span(from_x as int, to_x as int)
            &&& path.last().0 == to_x
            &&& path.last().1 == to_y
        }),
{
}

} // verus!
