use glam::Vec2;
use track_sim::spline::{bezier_char_matrix, bezier_control_windows, join_segment_samples, segment_sample_fractions};

fn pts(n: usize) -> Vec<Vec2> {
    (0..n).map(|i| Vec2::new(i as f32, 10.0 * i as f32)).collect()
}

#[test]
fn fewer_than_four_points_make_no_segment() {
    for n in 0..4 {
        assert!(bezier_control_windows(&pts(n)).is_empty());
    }
}

#[test]
fn four_points_make_one_segment() {
    let p = pts(4);
    let w = bezier_control_windows(&p);
    assert_eq!(w.len(), 1);
    assert_eq!(w[0], [p[0], p[1], p[2], p[3]]);
}

#[test]
fn seven_points_make_two_segments_sharing_a_joint() {
    let p = pts(7);
    let w = bezier_control_windows(&p);
    assert_eq!(w.len(), 2);
    assert_eq!(w[1], [p[3], p[4], p[5], p[6]]);
    assert_eq!(w[0][3], w[1][0]);
}

#[test]
fn leftover_points_are_ignored() {
    assert_eq!(bezier_control_windows(&pts(8)).len(), 2);
    assert_eq!(bezier_control_windows(&pts(9)).len(), 2);
    let p = pts(10);
    let w = bezier_control_windows(&p);
    assert_eq!(w.len(), 3);
    assert_eq!(w[2], [p[6], p[7], p[8], p[9]]);
    for i in 0..w.len() - 1 {
        assert_eq!(w[i][3], w[i + 1][0]);
    }
}

#[test]
fn sample_fractions_cover_the_segment() {
    assert!(segment_sample_fractions(0).is_empty());
    assert_eq!(segment_sample_fractions(1), vec![(0, 1)]);
    assert_eq!(segment_sample_fractions(2), vec![(0, 1), (1, 1)]);
    assert_eq!(
        segment_sample_fractions(5),
        vec![(0, 4), (1, 4), (2, 4), (3, 4), (4, 4)]
    );
}

#[test]
fn joined_samples_skip_repeated_joints() {
    let segs = vec![vec![1, 2, 3], vec![3, 4, 5], vec![5, 6, 7]];
    assert_eq!(join_segment_samples(&segs), vec![1, 2, 3, 4, 5, 6, 7]);
}

#[test]
fn joined_samples_of_no_segment_are_empty() {
    let segs: Vec<Vec<u8>> = vec![];
    assert!(join_segment_samples(&segs).is_empty());
}

#[test]
fn joined_samples_with_empty_segments() {
    let segs = vec![vec![], vec![1, 2], vec![], vec![2, 3]];
    assert_eq!(join_segment_samples(&segs), vec![2, 3]);
    let segs = vec![vec![9], vec![9], vec![9]];
    assert_eq!(join_segment_samples(&segs), vec![9]);
}

#[test]
fn joined_sample_count_is_one_plus_k_times_n_minus_one() {
    let n = 64usize;
    for k in 1..5usize {
        let segs: Vec<Vec<usize>> = (0..k).map(|s| (0..n).map(|j| s * 1000 + j).collect()).collect();
        assert_eq!(join_segment_samples(&segs).len(), 1 + k * (n - 1));
    }
}

#[test]
fn bezier_matrix_entries() {
    assert_eq!(
        bezier_char_matrix(),
        [[1, 0, 0, 0], [-3, 3, 0, 0], [3, -6, 3, 0], [-1, 3, -3, 1]]
    );
}

#[test]
fn bezier_matrix_interpolates_end_points() {
    let m = bezier_char_matrix();
    let p = [7i64, -2, 13, 5];
    let w: Vec<i64> = (0..4)
        .map(|r| (0..4).map(|c| m[r][c] as i64 * p[c]).sum())
        .collect();
    let eval = |s: i64| w[0] + w[1] * s + w[2] * s * s + w[3] * s * s * s;
    assert_eq!(eval(0), 7);
    assert_eq!(eval(1), 5);
    // Bernstein form at s = 2.
    let s = 2i64;
    let bern = (1 - s).pow(3) * p[0] + 3 * (1 - s).pow(2) * s * p[1] + 3 * (1 - s) * s * s * p[2] + s.pow(3) * p[3];
    assert_eq!(eval(2), bern);
}
