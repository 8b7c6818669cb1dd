use vstd::prelude::*;

verus! {

// ---------------------------------------------------------------------------
// Cutting control points into contiguous cubic Bezier segments
// ---------------------------------------------------------------------------

/// Number of contiguous cubic Bezier segments that `n` control points make:
/// the first segment needs 4 points and each further segment reuses the
/// previous end point and needs 3 new points; leftover points are ignored.
pub open spec fn bezier_segment_count(n: nat) -> nat {
    if n < 4 {
        0
    } else {
        ((n - 1) / 3) as nat
    }
}

/// The control points of segment `i`: `points[3i], ..., points[3i + 3]`.
pub open spec fn bezier_window<P>(points: Seq<P>, i: int) -> Seq<P> {
    points.subrange(3 * i, 3 * i + 4)
}

/// Segment counts: fewer than 4 points make no segment; otherwise `c`
/// segments use the first `3c + 1` points and leave fewer than 3 over.
pub proof fn lemma_bezier_segment_count_bounds(n: nat)
    ensures
        n < 4 ==> bezier_segment_count(n) == 0,
        n >= 4 ==> bezier_segment_count(n) >= 1,
        n >= 4 ==> 3 * bezier_segment_count(n) + 1 <= n < 3 * bezier_segment_count(n) + 4,
{
    if n >= 4 {
        let m = n as int;
        assert(3 * ((m - 1) / 3) <= m - 1 && m - 1 < 3 * ((m - 1) / 3) + 3 && (m - 1) / 3 >= 1)
            by (nonlinear_arith)
            requires
                m >= 4,
        ;
    }
}

/// Control point `j` of segment `i` is point `3i + j`: segments are taken in
/// order, starting at the first point.
pub proof fn lemma_bezier_window_entries<P>(points: Seq<P>, i: int, j: int)
    requires
        0 <= i < bezier_segment_count(points.len()),
        0 <= j < 4,
    ensures
        bezier_window(points, i).len() == 4,
        bezier_window(points, i)[j] == points[3 * i + j],
{
    lemma_bezier_segment_count_bounds(points.len());
    lemma_window_in_bounds(points.len() as int, i);
}

proof fn lemma_window_in_bounds(n: int, i: int)
    requires
        n >= 4,
        0 <= i < (n - 1) / 3,
    ensures
        3 * i + 4 <= n,
{
    assert(3 * ((n - 1) / 3) <= n - 1) by (nonlinear_arith)
        requires
            n >= 4,
    ;
}

/// Cuts `points` into the control windows of contiguous cubic Bezier
/// segments: window `i` holds `points[3i .. 3i + 4]`.
pub fn bezier_control_windows<P: Copy>(points: &[P]) -> (windows: Vec<[P; 4]>)
    ensures
        windows@.len() == bezier_segment_count(points@.len()),
        forall|i: int|
            0 <= i < windows@.len() ==> #[trigger] windows@[i]@ == bezier_window(points@, i),
        points@.len() < 4 ==> windows@.len() == 0,
        points@.len() >= 4 ==> 3 * windows@.len() + 1 <= points@.len() < 3 * windows@.len() + 4,
        forall|i: int, j: int|
            0 <= i < windows@.len() && 0 <= j < 4 ==> (#[trigger] windows@[i]@[j]) == points@[3 * i
                + j],
{
    proof {
        lemma_bezier_segment_count_bounds(points@.len());
    }
    let mut windows: Vec<[P; 4]> = Vec::new();
    if points.len() < 4 {
        return windows;
    }
    let n = points.len();
    let segment_count = (n - 1) / 3;
    let mut i: usize = 0;
    while i < segment_count
        invariant
            n == points@.len(),
            points@.len() >= 4,
            segment_count == (points@.len() - 1) / 3,
            i <= segment_count,
            windows@.len() == i,
            forall|k: int|
                0 <= k < i ==> #[trigger] windows@[k]@ == bezier_window(points@, k),
        decreases segment_count - i,
    {
        proof {
            lemma_window_in_bounds(n as int, i as int);
        }
        let base = 3 * i;
        let window = [points[base], points[base + 1], points[base + 2], points[base + 3]];
        assert(window@ =~= bezier_window(points@, i as int));
        windows.push(window);
        i = i + 1;
    }
    assert forall|k: int, j: int|
        0 <= k < windows@.len() && 0 <= j < 4 implies (#[trigger] windows@[k]@[j]) == points@[3 * k
        + j] by {
        lemma_bezier_window_entries(points@, k, j);
        assert(windows@[k]@ == bezier_window(points@, k));
    }
    windows
}

/// Consecutive segments share their joint: the last control point of segment
/// `i` is the first control point of segment `i + 1`, so the spline is
/// continuous.
pub proof fn lemma_bezier_windows_are_contiguous<P>(points: Seq<P>, i: int)
    requires
        0 <= i,
        i + 1 < bezier_segment_count(points.len()),
    ensures
        bezier_window(points, i)[3] == bezier_window(points, i + 1)[0],
        bezier_window(points, i).len() == 4,
        bezier_window(points, i + 1).len() == 4,
{
    lemma_window_in_bounds(points.len() as int, i + 1);
}

/// Every control point up to the last full segment belongs to some segment,
/// and the points that are left over are fewer than the 3 a new segment needs.
pub proof fn lemma_bezier_windows_cover_points<P>(points: Seq<P>)
    requires
        points.len() >= 4,
    ensures
        3 * bezier_segment_count(points.len()) + 1 <= points.len(),
        points.len() < 3 * bezier_segment_count(points.len()) + 4,
{
    let n = points.len() as int;
    assert(3 * ((n - 1) / 3) <= n - 1 && n - 1 < 3 * ((n - 1) / 3) + 3) by (nonlinear_arith)
        requires
            n >= 4,
    ;
}

// ---------------------------------------------------------------------------
// Sampling a segment and joining the samples of a spline
// ---------------------------------------------------------------------------

/// The parameters at which a segment is sampled `n` times, as fractions
/// `(numerator, denominator)`: none for `n == 0`, the start `0/1` for
/// `n == 1`, and `i / (n - 1)` for `i` in `0..n` otherwise, so that both end
/// points are sampled.
pub open spec fn sample_fraction(n: nat, i: int) -> (u32, u32) {
    if n == 1 {
        (0u32, 1u32)
    } else {
        (i as u32, (n - 1) as u32)
    }
}

/// Sample parameters of a segment evaluated at `n` evenly spaced points.
pub fn segment_sample_fractions(n: u32) -> (fractions: Vec<(u32, u32)>)
    ensures
        fractions@.len() == n,
        forall|i: int| 0 <= i < n ==> #[trigger] fractions@[i] == sample_fraction(n as nat, i),
        n == 1 ==> fractions@[0] == (0u32, 1u32),
        n >= 2 ==> forall|i: int| 0 <= i < n ==> (#[trigger] fractions@[i]).0 == i && fractions@[i].1
            == n - 1,
{
    let mut fractions: Vec<(u32, u32)> = Vec::new();
    if n == 0 {
        return fractions;
    }
    if n == 1 {
        fractions.push((0, 1));
        return fractions;
    }
    let mut i: u32 = 0;
    while i < n
        invariant
            n >= 2,
            i <= n,
            fractions@.len() == i,
            forall|k: int| 0 <= k < i ==> #[trigger] fractions@[k] == sample_fraction(n as nat, k),
        decreases n - i,
    {
        fractions.push((i, n - 1));
        i = i + 1;
    }
    fractions
}

/// With two or more samples the first is the start of the segment, the last
/// its end, and the parameters strictly increase in between.
pub proof fn lemma_sample_fractions_span_segment(n: nat)
    requires
        2 <= n <= u32::MAX,
    ensures
        sample_fraction(n, 0) == (0u32, (n - 1) as u32),
        sample_fraction(n, n - 1).0 == sample_fraction(n, n - 1).1,
        forall|i: int, j: int|
            0 <= i < j < n ==> (#[trigger] sample_fraction(n, i)).0 < (#[trigger] sample_fraction(
                n,
                j,
            )).0 && sample_fraction(n, i).1 == sample_fraction(n, j).1,
{
}

/// A segment's samples with the first one left out (nothing to leave out of
/// an empty list).
pub open spec fn without_first<T>(s: Seq<T>) -> Seq<T> {
    if s.len() == 0 {
        s
    } else {
        s.skip(1)
    }
}

/// The samples of a spline from the samples of its segments: all of the first
/// segment, then each later segment without its first sample, which repeats
/// the previous segment's last one.
pub open spec fn joined_samples<T>(segments: Seq<Seq<T>>) -> Seq<T>
    decreases segments.len(),
{
    if segments.len() == 0 {
        Seq::empty()
    } else if segments.len() == 1 {
        segments[0]
    } else {
        joined_samples(segments.drop_last()) + without_first(segments.last())
    }
}

/// The views of a list of sample lists.
pub open spec fn sample_views<T>(segments: Seq<Vec<T>>) -> Seq<Seq<T>> {
    segments.map_values(|v: Vec<T>| v@)
}

/// Joins per-segment samples into the samples of the whole spline.
pub fn join_segment_samples<T: Copy>(segments: &Vec<Vec<T>>) -> (samples: Vec<T>)
    ensures
        samples@ == joined_samples(sample_views(segments@)),
        segments@.len() == 0 ==> samples@.len() == 0,
        segments@.len() >= 1 ==> segments@[0]@.len() <= samples@.len() && samples@.subrange(
            0,
            segments@[0]@.len() as int,
        ) == segments@[0]@,
        segments@.len() >= 1 && segments@.last()@.len() >= 1 && (segments@.len() == 1
            || segments@.last()@.len() >= 2) ==> samples@.len() >= 1 && samples@.last()
            == segments@.last()@.last(),
{
    let ghost views = sample_views(segments@);
    let mut samples: Vec<T> = Vec::new();
    let mut i: usize = 0;
    while i < segments.len()
        invariant
            i <= segments@.len(),
            views == sample_views(segments@),
            samples@ == joined_samples(views.take(i as int)),
        decreases segments@.len() - i,
    {
        let segment = &segments[i];
        let ghost before = samples@;
        let start: usize = if i > 0 && segment.len() > 0 { 1 } else { 0 };
        let mut j: usize = start;
        while j < segment.len()
            invariant
                start <= j <= segment@.len(),
                samples@ == before + segment@.subrange(start as int, j as int),
            decreases segment@.len() - j,
        {
            samples.push(segment[j]);
            j = j + 1;
            assert(samples@ =~= before + segment@.subrange(start as int, j as int));
        }
        proof {
            assert(views.take(i + 1).drop_last() =~= views.take(i as int));
            assert(views.take(i + 1).last() == segment@);
            if i == 0 {
                assert(samples@ =~= segment@);
                assert(views.take(1) =~= seq![segment@]);
            } else if segment@.len() == 0 {
                assert(samples@ =~= before);
            } else {
                assert(samples@ =~= before + segment@.skip(1));
            }
        }
        i = i + 1;
    }
    assert(views.take(segments@.len() as int) =~= views);
    proof {
        if segments@.len() >= 1 {
            assert(views[0] == segments@[0]@);
            assert(views.last() == segments@.last()@);
            lemma_joined_samples_start_with_first(views);
            if segments@.last()@.len() >= 1 && (segments@.len() == 1 || segments@.last()@.len()
                >= 2) {
                lemma_joined_samples_end_with_last(views);
            }
        }
    }
    samples
}

/// No segments give no samples, and one segment gives exactly its samples.
pub proof fn lemma_joined_samples_base<T>(s: Seq<T>)
    ensures
        joined_samples(Seq::<Seq<T>>::empty()).len() == 0,
        joined_samples(seq![s]) == s,
{
}

/// Appending a segment appends its samples from index 1 to its end (the
/// first one repeats the joint); an empty segment adds nothing.
pub proof fn lemma_joined_samples_step<T>(segments: Seq<Seq<T>>, s: Seq<T>)
    requires
        segments.len() >= 1,
    ensures
        s.len() == 0 ==> joined_samples(segments.push(s)) == joined_samples(segments),
        s.len() >= 1 ==> joined_samples(segments.push(s)) == joined_samples(segments)
            + s.subrange(1, s.len() as int),
        joined_samples(segments.push(s)).len() == joined_samples(segments).len() + (if s.len()
            == 0 {
            0
        } else {
            s.len() - 1
        }),
{
    assert(segments.push(s).drop_last() =~= segments);
    assert(segments.push(s).last() == s);
    if s.len() >= 1 {
        assert(s.skip(1) =~= s.subrange(1, s.len() as int));
    } else {
        assert(joined_samples(segments) + s =~= joined_samples(segments));
    }
}

/// The joined samples start with all samples of the first segment.
pub proof fn lemma_joined_samples_start_with_first<T>(segments: Seq<Seq<T>>)
    requires
        segments.len() >= 1,
    ensures
        segments[0].len() <= joined_samples(segments).len(),
        joined_samples(segments).subrange(0, segments[0].len() as int) == segments[0],
    decreases segments.len(),
{
    if segments.len() > 1 {
        let rest = segments.drop_last();
        lemma_joined_samples_start_with_first(rest);
        assert(rest[0] == segments[0]);
        let j = joined_samples(rest);
        assert((j + without_first(segments.last())).subrange(0, segments[0].len() as int)
            =~= j.subrange(0, segments[0].len() as int));
    }
}

/// The joined samples end at the last sample of the last segment, when that
/// segment has a sample that is not a repeated joint.
pub proof fn lemma_joined_samples_end_with_last<T>(segments: Seq<Seq<T>>)
    requires
        segments.len() >= 1,
        segments.last().len() >= 1,
        segments.len() == 1 || segments.last().len() >= 2,
    ensures
        joined_samples(segments).len() >= 1,
        joined_samples(segments).last() == segments.last().last(),
{
    if segments.len() > 1 {
        let t = without_first(segments.last());
        assert(t.len() >= 1);
        assert(t.last() == segments.last().last());
    }
}

/// When every segment carries `n >= 1` samples, `k >= 1` segments give
/// `1 + k (n - 1)` samples: the joints are not repeated.
pub proof fn lemma_joined_sample_count<T>(segments: Seq<Seq<T>>, n: nat)
    requires
        segments.len() >= 1,
        n >= 1,
        forall|i: int| 0 <= i < segments.len() ==> (#[trigger] segments[i]).len() == n,
    ensures
        joined_samples(segments).len() == 1 + segments.len() * (n - 1),
    decreases segments.len(),
{
    if segments.len() > 1 {
        let rest = segments.drop_last();
        assert forall|i: int| 0 <= i < rest.len() implies (#[trigger] rest[i]).len() == n by {
            assert(rest[i] == segments[i]);
        }
        lemma_joined_sample_count(rest, n);
        assert(segments.len() * (n - 1) == rest.len() * (n - 1) + (n - 1)) by (nonlinear_arith)
            requires
                segments.len() == rest.len() + 1,
        ;
    }
}

// ---------------------------------------------------------------------------
// The characteristic matrix of a cubic Bezier segment
// ---------------------------------------------------------------------------

/// Entry `(row, col)` of the cubic Bezier characteristic matrix, whose row `k`
/// weighs the control points into the coefficient of `s^k`.
pub open spec fn bezier_coefficient(row: int, col: int) -> int {
    if row == 0 {
        if col == 0 { 1 } else { 0 }
    } else if row == 1 {
        if col == 0 { -3 } else if col == 1 { 3 } else { 0 }
    } else if row == 2 {
        if col == 0 { 3 } else if col == 1 { -6 } else if col == 2 { 3 } else { 0 }
    } else {
        if col == 0 { -1 } else if col == 1 { 3 } else if col == 2 { -3 } else { 1 }
    }
}

/// The cubic Bezier characteristic matrix.
pub fn bezier_char_matrix() -> (m: [[i8; 4]; 4])
    ensures
        forall|r: int, c: int|
            0 <= r < 4 && 0 <= c < 4 ==> (#[trigger] m[r][c]) == bezier_coefficient(r, c),
{
    [[1, 0, 0, 0], [-3, 3, 0, 0], [3, -6, 3, 0], [-1, 3, -3, 1]]
}

/// Coefficient of `s^row` of a segment with control values `p0..p3`: row
/// `row` of the matrix applied to the control values.
pub open spec fn weighted_point(row: int, p0: int, p1: int, p2: int, p3: int) -> int {
    bezier_coefficient(row, 0) * p0 + bezier_coefficient(row, 1) * p1 + bezier_coefficient(row, 2)
        * p2 + bezier_coefficient(row, 3) * p3
}

/// The segment's value at `s`: `w0 + w1 s + w2 s² + w3 s³`.
pub open spec fn segment_value(p0: int, p1: int, p2: int, p3: int, s: int) -> int {
    weighted_point(0, p0, p1, p2, p3) + weighted_point(1, p0, p1, p2, p3) * s + weighted_point(
        2,
        p0,
        p1,
        p2,
        p3,
    ) * (s * s) + weighted_point(3, p0, p1, p2, p3) * (s * s * s)
}

/// Column `col` of the matrix read as a polynomial in `s`: the weight that
/// control point `col` gets at parameter `s`.
pub open spec fn matrix_basis(col: int, s: int) -> int {
    bezier_coefficient(0, col) + bezier_coefficient(1, col) * s + bezier_coefficient(2, col) * (s
        * s) + bezier_coefficient(3, col) * (s * s * s)
}

/// The cubic Bernstein basis polynomial `col` at `s`.
pub open spec fn bernstein_basis(col: int, s: int) -> int {
    if col == 0 {
        (1 - s) * (1 - s) * (1 - s)
    } else if col == 1 {
        3 * ((1 - s) * (1 - s) * s)
    } else if col == 2 {
        3 * ((1 - s) * (s * s))
    } else {
        s * s * s
    }
}

/// The matrix is the cubic Bernstein basis: in exact arithmetic column `c`
/// is the Bernstein polynomial of control point `c` at every parameter, and a
/// segment starts at its first control value and ends at its last.
pub proof fn lemma_bezier_matrix_is_bernstein(p0: int, p1: int, p2: int, p3: int, s: int)
    ensures
        forall|c: int| 0 <= c < 4 ==> #[trigger] matrix_basis(c, s) == bernstein_basis(c, s),
        segment_value(p0, p1, p2, p3, 0) == p0,
        segment_value(p0, p1, p2, p3, 1) == p3,
{
    assert(matrix_basis(0, s) == 1 + (-3) * s + 3 * (s * s) + (-1) * (s * s * s));
    assert(matrix_basis(1, s) == 0 + 3 * s + (-6) * (s * s) + 3 * (s * s * s));
    assert(matrix_basis(2, s) == 0 + 0 * s + 3 * (s * s) + (-3) * (s * s * s));
    assert(matrix_basis(3, s) == 0 + 0 * s + 0 * (s * s) + 1 * (s * s * s));
    assert(1 + (-3) * s + 3 * (s * s) + (-1) * (s * s * s) == (1 - s) * (1 - s) * (1 - s))
        by (nonlinear_arith);
    assert(0 + 3 * s + (-6) * (s * s) + 3 * (s * s * s) == 3 * ((1 - s) * (1 - s) * s))
        by (nonlinear_arith);
    assert(0 + 0 * s + 3 * (s * s) + (-3) * (s * s * s) == 3 * ((1 - s) * (s * s)))
        by (nonlinear_arith);
    assert(0 + 0 * s + 0 * (s * s) + 1 * (s * s * s) == s * s * s) by (nonlinear_arith);
    let w0 = weighted_point(0, p0, p1, p2, p3);
    let w1 = weighted_point(1, p0, p1, p2, p3);
    let w2 = weighted_point(2, p0, p1, p2, p3);
    let w3 = weighted_point(3, p0, p1, p2, p3);
    assert(w0 == 1 * p0 + 0 * p1 + 0 * p2 + 0 * p3);
    assert(w1 == (-3) * p0 + 3 * p1 + 0 * p2 + 0 * p3);
    assert(w2 == 3 * p0 + (-6) * p1 + 3 * p2 + 0 * p3);
    assert(w3 == (-1) * p0 + 3 * p1 + (-3) * p2 + 1 * p3);
    assert(segment_value(p0, p1, p2, p3, 0) == w0 + w1 * 0 + w2 * (0 * 0) + w3 * (0 * 0 * 0));
    assert(segment_value(p0, p1, p2, p3, 1) == w0 + w1 * 1 + w2 * (1 * 1) + w3 * (1 * 1 * 1));
    assert(w0 + w1 * 0 + w2 * (0 * 0) + w3 * (0 * 0 * 0) == p0) by (nonlinear_arith)
        requires
            w0 == 1 * p0 + 0 * p1 + 0 * p2 + 0 * p3,
    ;
    assert(w0 + w1 * 1 + w2 * (1 * 1) + w3 * (1 * 1 * 1) == p3) by (nonlinear_arith)
        requires
            w0 == 1 * p0 + 0 * p1 + 0 * p2 + 0 * p3,
            w1 == (-3) * p0 + 3 * p1 + 0 * p2 + 0 * p3,
            w2 == 3 * p0 + (-6) * p1 + 3 * p2 + 0 * p3,
            w3 == (-1) * p0 + 3 * p1 + (-3) * p2 + 1 * p3,
    ;
}

} // verus!
