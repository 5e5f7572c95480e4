use odometry::geometry::{KeyPoint, Match, Point};
use odometry::matching::DescriptorMatch;
use odometry::session::{SessionError, State, VisualOutputBase};

fn pt(x: i32, y: i32) -> Point {
    Point { x, y }
}

fn kp(x: i32, y: i32) -> KeyPoint {
    KeyPoint { pt: pt(x, y), size: 20 }
}

#[test]
fn new_session_holds_no_frames() {
    let s: State<u32> = State::new();
    assert!(s.previous_frame_state.is_none());
    assert!(s.current_frame_state.is_none());
    assert!(s.matches.is_empty());
    assert_eq!(s.visual_output_base, VisualOutputBase::Gray);
    assert!(!s.halted);
}

#[test]
fn first_input_sets_only_current() {
    let mut s: State<u32> = State::new();
    s.input(7);
    assert!(s.previous_frame_state.is_none());
    let f = s.current_frame_state.as_ref().unwrap();
    assert_eq!(f.original, 7);
    assert!(f.gray.is_none() && f.canny.is_none() && f.descriptors.is_none());
    assert!(f.features.is_empty() && f.keypoints.is_empty());
}

#[test]
fn repeated_inputs_keep_previous_absent() {
    let mut s: State<u32> = State::new();
    for frame in [1u32, 2, 3] {
        s.input(frame);
        assert!(s.previous_frame_state.is_none());
        assert_eq!(s.current_frame_state.as_ref().unwrap().original, frame);
    }
}

#[test]
fn forward_then_input_rolls_the_window() {
    let mut s: State<u32> = State::new();
    s.input(1);
    s.track_features(vec![pt(4, 5)]).unwrap();
    s.forward_frame_state();
    assert!(s.current_frame_state.is_none());
    let prev = s.previous_frame_state.as_ref().unwrap();
    assert_eq!(prev.original, 1);
    assert_eq!(prev.keypoints, vec![kp(4, 5)]);
    s.input(2);
    assert_eq!(s.previous_frame_state.as_ref().unwrap().original, 1);
    let cur = s.current_frame_state.as_ref().unwrap();
    assert_eq!(cur.original, 2);
    assert!(cur.keypoints.is_empty());
    s.forward_frame_state();
    assert_eq!(s.previous_frame_state.as_ref().unwrap().original, 2);
}

#[test]
fn stages_without_current_frame_fail() {
    let mut s: State<u32> = State::new();
    assert_eq!(s.filter(1, 2).unwrap_err(), SessionError::NoCurrentFrame);
    assert_eq!(s.track_features(vec![]).unwrap_err(), SessionError::NoCurrentFrame);
    assert_eq!(s.extract(vec![], 3).unwrap_err(), SessionError::NoCurrentFrame);
    assert_eq!(s.visual_output().unwrap_err(), SessionError::NoCurrentFrame);
    assert_eq!(s.base_image().unwrap_err(), SessionError::NoCurrentFrame);
    assert_eq!(s.current_frame().unwrap_err(), SessionError::NoCurrentFrame);
    assert_eq!(s.correspondences(&vec![]).unwrap_err(), SessionError::NoCurrentFrame);
}

#[test]
fn filter_stores_gray_and_edges() {
    let mut s: State<u32> = State::new();
    s.input(10);
    s.filter(11, 12).unwrap();
    let f = s.current_frame().unwrap();
    assert_eq!(f.original, 10);
    assert_eq!(f.gray, Some(11));
    assert_eq!(f.canny, Some(12));
}

#[test]
fn track_features_builds_keypoints() {
    let mut s: State<u32> = State::new();
    s.input(10);
    s.track_features(vec![pt(1, 2), pt(3, 4)]).unwrap();
    let f = s.current_frame().unwrap();
    assert_eq!(f.features, vec![pt(1, 2), pt(3, 4)]);
    assert_eq!(f.keypoints, vec![kp(1, 2), kp(3, 4)]);
    assert!(f.descriptors.is_none());
}

#[test]
fn extract_without_previous_clears_matches() {
    let mut s: State<u32> = State::new();
    s.matches = vec![Match { current_keypoint: kp(1, 1), previous_keypoint: kp(2, 2) }];
    s.input(10);
    s.track_features(vec![pt(1, 1), pt(5, 5), pt(9, 9)]).unwrap();
    assert_eq!(s.extract(vec![kp(1, 1), kp(5, 5)], 99), Ok(false));
    assert!(s.matches.is_empty());
    let f = s.current_frame().unwrap();
    assert_eq!(f.keypoints, vec![kp(1, 1), kp(5, 5)]);
    assert_eq!(f.descriptors, Some(99));
}

#[test]
fn extract_with_previous_asks_for_matching() {
    let mut s: State<u32> = State::new();
    s.input(1);
    s.forward_frame_state();
    s.input(2);
    s.track_features(vec![pt(1, 1)]).unwrap();
    assert_eq!(s.extract(vec![kp(1, 1)], 5), Ok(true));
}

#[test]
fn correspondences_need_previous_frame() {
    let mut s: State<u32> = State::new();
    s.input(1);
    assert_eq!(s.correspondences(&vec![]).unwrap_err(), SessionError::NoPreviousFrame);
}

#[test]
fn correspondences_resolve_and_reject() {
    let mut s: State<u32> = State::new();
    s.input(1);
    s.track_features(vec![pt(1, 1), pt(2, 2)]).unwrap();
    s.forward_frame_state();
    s.input(2);
    s.track_features(vec![pt(3, 3)]).unwrap();
    let dm = DescriptorMatch { query_idx: 0, train_idx: 1 };
    let (c, p) = s.correspondences(&vec![dm]).unwrap();
    assert_eq!(c, vec![kp(3, 3)]);
    assert_eq!(p, vec![kp(2, 2)]);
    let bad = DescriptorMatch { query_idx: 1, train_idx: 0 };
    assert_eq!(s.correspondences(&vec![bad]).unwrap_err(), SessionError::MatchIndexOutOfRange);
}

#[test]
fn keep_inliers_replaces_matches() {
    let mut s: State<u32> = State::new();
    s.keep_inliers(vec![kp(1, 1), kp(2, 2)], vec![kp(3, 3), kp(4, 4)], vec![0, 1]);
    assert_eq!(s.matches, vec![Match { current_keypoint: kp(2, 2), previous_keypoint: kp(4, 4) }]);
}

#[test]
fn base_image_follows_selection() {
    let mut s: State<u32> = State::new();
    s.input(10);
    assert_eq!(s.base_image().unwrap_err(), SessionError::MissingImage);
    s.select_visual_output_base(VisualOutputBase::Original);
    assert_eq!(s.base_image(), Ok(&10));
    s.filter(11, 12).unwrap();
    s.select_visual_output_base(VisualOutputBase::Gray);
    assert_eq!(s.base_image(), Ok(&11));
    s.select_visual_output_base(VisualOutputBase::Canny);
    assert_eq!(s.base_image(), Ok(&12));
}

#[test]
fn base_selection_leaves_overlay_content() {
    let mut s: State<u32> = State::new();
    s.input(10);
    s.filter(11, 12).unwrap();
    s.track_features(vec![pt(1, 1), pt(2, 2)]).unwrap();
    s.keep_inliers(vec![kp(1, 1)], vec![kp(0, 3)], vec![1]);
    let before = s.visual_output().unwrap();
    s.select_visual_output_base(VisualOutputBase::Canny);
    let after = s.visual_output().unwrap();
    assert_eq!(before.base, VisualOutputBase::Gray);
    assert_eq!(after.base, VisualOutputBase::Canny);
    assert_eq!(before.keypoints, after.keypoints);
    assert_eq!(before.segments, after.segments);
    assert_eq!(after.keypoints, vec![pt(1, 1), pt(2, 2)]);
    assert_eq!(after.segments, vec![(pt(1, 1), pt(0, 3))]);
}
