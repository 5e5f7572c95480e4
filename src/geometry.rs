//! Integer points, keypoints and matched keypoint pairs.
use vstd::prelude::*;

verus! {

/// The scale given to every keypoint built from a corner.
pub const KEYPOINT_SIZE: u32 = 20;

/// A pixel location.
#[derive(Clone, Copy, Debug, PartialEq, Eq, Structural)]
pub struct Point {
    pub x: i32,
    pub y: i32,
}

/// A detected location with the scale used to describe it.
#[derive(Clone, Copy, Debug, PartialEq, Eq, Structural)]
pub struct KeyPoint {
    pub pt: Point,
    pub size: u32,
}

/// A current-frame keypoint paired with a previous-frame keypoint.
#[derive(Clone, Copy, Debug, PartialEq, Eq, Structural)]
pub struct Match {
    pub current_keypoint: KeyPoint,
    pub previous_keypoint: KeyPoint,
}

/// The keypoint that stands for a corner: at the corner, with the fixed scale.
pub open spec fn keypoint_at(p: Point) -> KeyPoint {
    KeyPoint { pt: p, size: KEYPOINT_SIZE }
}

/// One keypoint per corner, in the corners' order.
pub open spec fn keypoints_of(features: Seq<Point>) -> Seq<KeyPoint> {
    features.map_values(|p: Point| keypoint_at(p))
}

/// The positions of a list of keypoints.
pub open spec fn positions_of(keypoints: Seq<KeyPoint>) -> Seq<Point> {
    keypoints.map_values(|k: KeyPoint| k.pt)
}

/// The segment drawn for a match: from the current to the previous position.
pub open spec fn segment_of(m: Match) -> (Point, Point) {
    (m.current_keypoint.pt, m.previous_keypoint.pt)
}

/// The segments drawn for a list of matches.
pub open spec fn segments_of(matches: Seq<Match>) -> Seq<(Point, Point)> {
    matches.map_values(|m: Match| segment_of(m))
}

impl KeyPoint {
    /// The keypoint for a corner at `pt`, with the fixed scale.
    pub fn from_feature(pt: Point) -> (r: KeyPoint)
        ensures
            r == keypoint_at(pt),
    {
        KeyPoint { pt, size: KEYPOINT_SIZE }
    }
}

/// Builds one keypoint per detected corner, keeping their order.
pub fn keypoints_from_features(features: &Vec<Point>) -> (r: Vec<KeyPoint>)
    ensures
        r@ == keypoints_of(features@),
{
    let mut r: Vec<KeyPoint> = Vec::with_capacity(features.len());
    let mut i: usize = 0;
    while i < features.len()
        invariant
            i <= features@.len(),
            r@ == keypoints_of(features@.subrange(0, i as int)),
        decreases features@.len() - i,
    {
        r.push(KeyPoint::from_feature(features[i]));
        i = i + 1;
        assert(features@.subrange(0, i as int) =~= features@.subrange(0, i - 1).push(
            features@[i - 1],
        ));
    }
    assert(features@.subrange(0, i as int) =~= features@);
    r
}

/// The positions of the given keypoints, in order.
pub fn keypoint_positions(keypoints: &Vec<KeyPoint>) -> (r: Vec<Point>)
    ensures
        r@ == positions_of(keypoints@),
{
    let mut r: Vec<Point> = Vec::with_capacity(keypoints.len());
    let mut i: usize = 0;
    while i < keypoints.len()
        invariant
            i <= keypoints@.len(),
            r@ == positions_of(keypoints@.subrange(0, i as int)),
        decreases keypoints@.len() - i,
    {
        r.push(keypoints[i].pt);
        i = i + 1;
        assert(keypoints@.subrange(0, i as int) =~= keypoints@.subrange(0, i - 1).push(
            keypoints@[i - 1],
        ));
    }
    assert(keypoints@.subrange(0, i as int) =~= keypoints@);
    r
}

/// The segments to draw for the given matches, in order.
pub fn match_segments(matches: &Vec<Match>) -> (r: Vec<(Point, Point)>)
    ensures
        r@ == segments_of(matches@),
{
    let mut r: Vec<(Point, Point)> = Vec::with_capacity(matches.len());
    let mut i: usize = 0;
    while i < matches.len()
        invariant
            i <= matches@.len(),
            r@ == segments_of(matches@.subrange(0, i as int)),
        decreases matches@.len() - i,
    {
        let m = matches[i];
        r.push((m.current_keypoint.pt, m.previous_keypoint.pt));
        i = i + 1;
        assert(matches@.subrange(0, i as int) =~= matches@.subrange(0, i - 1).push(
            matches@[i - 1],
        ));
    }
    assert(matches@.subrange(0, i as int) =~= matches@);
    r
}

} // verus!
