//! The session: a rolling window of two frame states, the most recent inlier
//! matches, the selected display base and the halted flag.
use vstd::prelude::*;
use crate::geometry::{
    keypoint_positions, keypoints_from_features, keypoints_of, match_segments, positions_of,
    segments_of, KeyPoint, Match, Point,
};
use crate::matching::{
    all_in_range, aligned, inliers, matched_current, matched_previous, resolve_matches,
    retain_inliers, DescriptorMatch,
};

verus! {

/// Which image of the current frame the overlay is drawn on.
#[derive(Clone, Copy, Debug, PartialEq, Eq, Structural)]
pub enum VisualOutputBase {
    Gray,
    Canny,
    Original,
}

/// Why a stage could not run.
#[derive(Clone, Copy, Debug, PartialEq, Eq, Structural)]
pub enum SessionError {
    /// A stage that works on the current frame ran before any `input`, or
    /// after the current frame was forwarded.
    NoCurrentFrame,
    /// Correspondences were asked for while no previous frame is held.
    NoPreviousFrame,
    /// The selected base image has not been computed for the current frame.
    MissingImage,
    /// A descriptor match names a keypoint that its frame does not have.
    MatchIndexOutOfRange,
}

/// A frame and what was derived from it. `I` is the image type.
#[derive(Debug)]
pub struct FrameState<I> {
    pub original: I,
    pub gray: Option<I>,
    pub canny: Option<I>,
    pub features: Vec<Point>,
    pub keypoints: Vec<KeyPoint>,
    pub descriptors: Option<I>,
}

/// The session state. `I` is the image type.
#[derive(Debug)]
pub struct State<I> {
    pub previous_frame_state: Option<FrameState<I>>,
    pub current_frame_state: Option<FrameState<I>>,
    pub matches: Vec<Match>,
    pub visual_output_base: VisualOutputBase,
    pub halted: bool,
}

/// What to draw: the base image to draw on, a marker at each keypoint and a
/// segment for each match.
#[derive(Debug)]
pub struct Overlay {
    pub base: VisualOutputBase,
    pub keypoints: Vec<Point>,
    pub segments: Vec<(Point, Point)>,
}

/// `f` wraps `original` and holds nothing derived from it yet.
pub open spec fn is_fresh<I>(f: FrameState<I>, original: I) -> bool {
    &&& f.original == original
    &&& f.gray is None
    &&& f.canny is None
    &&& f.features@ == Seq::<Point>::empty()
    &&& f.keypoints@ == Seq::<KeyPoint>::empty()
    &&& f.descriptors is None
}

/// The state of a session that has seen no frame.
pub open spec fn is_initial<I>(s: State<I>) -> bool {
    &&& s.previous_frame_state is None
    &&& s.current_frame_state is None
    &&& s.matches@ == Seq::<Match>::empty()
    &&& s.visual_output_base == VisualOutputBase::Gray
    &&& !s.halted
}

/// `t` and `s` agree on everything but the two frame states.
pub open spec fn same_settings<I>(s: State<I>, t: State<I>) -> bool {
    &&& t.matches == s.matches
    &&& t.visual_output_base == s.visual_output_base
    &&& t.halted == s.halted
}

/// `t` is `s` after `input(frame)`: a fresh current frame, the rest kept.
pub open spec fn input_step<I>(s: State<I>, frame: I, t: State<I>) -> bool {
    &&& t.previous_frame_state == s.previous_frame_state
    &&& t.current_frame_state matches Some(f) && is_fresh(f, frame)
    &&& same_settings(s, t)
}

/// `t` is `s` after `forward_frame_state()`: the current frame becomes the
/// previous one, and no current frame is left.
pub open spec fn forward_step<I>(s: State<I>, t: State<I>) -> bool {
    &&& t.previous_frame_state == s.current_frame_state
    &&& t.current_frame_state is None
    &&& same_settings(s, t)
}

/// The image of `f` that `base` selects, if it has been computed.
pub open spec fn selected_image<I>(f: FrameState<I>, base: VisualOutputBase) -> Option<I> {
    match base {
        VisualOutputBase::Gray => f.gray,
        VisualOutputBase::Canny => f.canny,
        VisualOutputBase::Original => Some(f.original),
    }
}

/// The marker positions of the overlay: the current frame's keypoints.
pub open spec fn overlay_keypoints<I>(s: State<I>) -> Seq<Point> {
    positions_of(s.current_frame_state.unwrap().keypoints@)
}

/// The segments of the overlay: one per inlier match.
pub open spec fn overlay_segments<I>(s: State<I>) -> Seq<(Point, Point)> {
    segments_of(s.matches@)
}

impl<I> FrameState<I> {
    /// A frame state that wraps `original` and holds nothing derived yet.
    pub fn new(original: I) -> (r: FrameState<I>)
        ensures
            is_fresh(r, original),
    {
        FrameState {
            original,
            gray: None,
            canny: None,
            features: Vec::new(),
            keypoints: Vec::new(),
            descriptors: None,
        }
    }
}

impl<I> State<I> {
    /// A session that has seen no frame, showing the grayscale base.
    pub fn new() -> (r: State<I>)
        ensures
            is_initial(r),
    {
        State {
            previous_frame_state: None,
            current_frame_state: None,
            matches: Vec::new(),
            visual_output_base: VisualOutputBase::Gray,
            halted: false,
        }
    }

    /// Makes a fresh frame state around `input` the current one; the previous
    /// frame state is kept.
    pub fn input(&mut self, input: I)
        ensures
            input_step(*old(self), input, *final(self)),
    {
        self.current_frame_state = Some(FrameState::new(input));
    }

    /// The current frame state.
    pub fn current_frame(&self) -> (r: Result<&FrameState<I>, SessionError>)
        ensures
            self.current_frame_state is None ==> r == Err::<&FrameState<I>, _>(
                SessionError::NoCurrentFrame,
            ),
            self.current_frame_state matches Some(f) ==> r == Ok::<_, SessionError>(&f),
    {
        match &self.current_frame_state {
            Some(f) => Ok(f),
            None => Err(SessionError::NoCurrentFrame),
        }
    }

    /// Stores the grayscale and edge images computed from the current frame.
    pub fn filter(&mut self, gray: I, canny: I) -> (r: Result<(), SessionError>)
        ensures
            old(self).current_frame_state is None ==> r == Err::<(), _>(
                SessionError::NoCurrentFrame,
            ) && *final(self) == *old(self),
            old(self).current_frame_state matches Some(f) ==> r is Ok && *final(self) == (State {
                current_frame_state: Some(FrameState { gray: Some(gray), canny: Some(canny), ..f }),
                ..*old(self)
            }),
    {
        match self.current_frame_state.take() {
            None => Err(SessionError::NoCurrentFrame),
            Some(f) => {
                self.current_frame_state = Some(
                    FrameState { gray: Some(gray), canny: Some(canny), ..f },
                );
                Ok(())
            },
        }
    }

    /// Stores the corners detected in the current frame's grayscale image and
    /// one keypoint per corner, with the fixed scale; clears the descriptors.
    pub fn track_features(&mut self, features: Vec<Point>) -> (r: Result<(), SessionError>)
        ensures
            old(self).current_frame_state is None ==> r == Err::<(), _>(
                SessionError::NoCurrentFrame,
            ) && *final(self) == *old(self),
            old(self).current_frame_state matches Some(f) ==> {
                &&& r is Ok
                &&& final(self).previous_frame_state == old(self).previous_frame_state
                &&& same_settings(*old(self), *final(self))
                &&& final(self).current_frame_state matches Some(g) && {
                    &&& g.original == f.original
                    &&& g.gray == f.gray
                    &&& g.canny == f.canny
                    &&& g.features == features
                    &&& g.keypoints@ == keypoints_of(features@)
                    &&& g.descriptors is None
                }
            },
    {
        match self.current_frame_state.take() {
            None => Err(SessionError::NoCurrentFrame),
            Some(f) => {
                let keypoints = keypoints_from_features(&features);
                self.current_frame_state = Some(
                    FrameState { features, keypoints, descriptors: None, ..f },
                );
                Ok(())
            },
        }
    }

    /// Stores the keypoints that were described and their descriptors. Returns
    /// whether matching against the previous frame is due: without a previous
    /// frame state there is nothing to match, and the match list is cleared.
    pub fn extract(&mut self, keypoints: Vec<KeyPoint>, descriptors: I) -> (r: Result<
        bool,
        SessionError,
    >)
        ensures
            old(self).current_frame_state is None ==> r == Err::<bool, _>(
                SessionError::NoCurrentFrame,
            ) && *final(self) == *old(self),
            old(self).current_frame_state matches Some(f) ==> {
                &&& r == Ok::<_, SessionError>(old(self).previous_frame_state is Some)
                &&& final(self).previous_frame_state == old(self).previous_frame_state
                &&& final(self).current_frame_state == Some(
                    FrameState { keypoints, descriptors: Some(descriptors), ..f },
                )
                &&& final(self).visual_output_base == old(self).visual_output_base
                &&& final(self).halted == old(self).halted
                &&& old(self).previous_frame_state is Some ==> final(self).matches
                    == old(self).matches
                &&& old(self).previous_frame_state is None ==> final(self).matches@ == Seq::<
                    Match,
                >::empty()
            },
    {
        match self.current_frame_state.take() {
            None => Err(SessionError::NoCurrentFrame),
            Some(f) => {
                self.current_frame_state = Some(
                    FrameState { keypoints, descriptors: Some(descriptors), ..f },
                );
                if self.previous_frame_state.is_some() {
                    Ok(true)
                } else {
                    self.matches = Vec::new();
                    Ok(false)
                }
            },
        }
    }

    /// The keypoint pairs that the descriptor matches name, the current
    /// frame's side first.
    pub fn correspondences(&self, matches: &Vec<DescriptorMatch>) -> (r: Result<
        (Vec<KeyPoint>, Vec<KeyPoint>),
        SessionError,
    >)
        ensures
            self.current_frame_state is None ==> r == Err::<(Vec<KeyPoint>, Vec<KeyPoint>), _>(
                SessionError::NoCurrentFrame,
            ),
            self.current_frame_state is Some && self.previous_frame_state is None ==> r == Err::<
                (Vec<KeyPoint>, Vec<KeyPoint>),
                _,
            >(SessionError::NoPreviousFrame),
            self.current_frame_state matches Some(c) ==> self.previous_frame_state matches Some(p)
                ==> {
                &&& !all_in_range(c.keypoints@, p.keypoints@, matches@) ==> r == Err::<
                    (Vec<KeyPoint>, Vec<KeyPoint>),
                    _,
                >(SessionError::MatchIndexOutOfRange)
                &&& all_in_range(c.keypoints@, p.keypoints@, matches@) ==> (r matches Ok(v)
                    && v.0@ == matched_current(c.keypoints@, p.keypoints@, matches@)
                    && v.1@ == matched_previous(c.keypoints@, p.keypoints@, matches@))
            },
    {
        match (&self.current_frame_state, &self.previous_frame_state) {
            (None, _) => Err(SessionError::NoCurrentFrame),
            (Some(_), None) => Err(SessionError::NoPreviousFrame),
            (Some(c), Some(p)) => match resolve_matches(&c.keypoints, &p.keypoints, matches) {
                Some(v) => Ok(v),
                None => Err(SessionError::MatchIndexOutOfRange),
            },
        }
    }

    /// Replaces the match list by the pairs whose mask entry is nonzero.
    pub fn keep_inliers(&mut self, current: Vec<KeyPoint>, previous: Vec<KeyPoint>, mask: Vec<u8>)
        ensures
            final(self).matches@ == inliers(aligned(current@, previous@, mask@)),
            final(self).previous_frame_state == old(self).previous_frame_state,
            final(self).current_frame_state == old(self).current_frame_state,
            final(self).visual_output_base == old(self).visual_output_base,
            final(self).halted == old(self).halted,
    {
        self.matches = retain_inliers(current, previous, mask);
    }

    /// What to draw for the current frame: the selected base, a marker at each
    /// keypoint and a segment for each match.
    pub fn visual_output(&self) -> (r: Result<Overlay, SessionError>)
        ensures
            self.current_frame_state is None ==> r is Err && r->Err_0
                == SessionError::NoCurrentFrame,
            self.current_frame_state is Some ==> (r matches Ok(o) && {
                &&& o.base == self.visual_output_base
                &&& o.keypoints@ == overlay_keypoints(*self)
                &&& o.segments@ == overlay_segments(*self)
            }),
    {
        match &self.current_frame_state {
            None => Err(SessionError::NoCurrentFrame),
            Some(f) => Ok(
                Overlay {
                    base: self.visual_output_base,
                    keypoints: keypoint_positions(&f.keypoints),
                    segments: match_segments(&self.matches),
                },
            ),
        }
    }

    /// The current frame's image that the selected base names.
    pub fn base_image(&self) -> (r: Result<&I, SessionError>)
        ensures
            self.current_frame_state is None ==> r == Err::<&I, _>(SessionError::NoCurrentFrame),
            self.current_frame_state matches Some(f) ==> match selected_image(
                f,
                self.visual_output_base,
            ) {
                None => r == Err::<&I, _>(SessionError::MissingImage),
                Some(img) => r == Ok::<_, SessionError>(&img),
            },
    {
        match &self.current_frame_state {
            None => Err(SessionError::NoCurrentFrame),
            Some(f) => {
                let selected = match self.visual_output_base {
                    VisualOutputBase::Gray => f.gray.as_ref(),
                    VisualOutputBase::Canny => f.canny.as_ref(),
                    VisualOutputBase::Original => Some(&f.original),
                };
                match selected {
                    Some(img) => Ok(img),
                    None => Err(SessionError::MissingImage),
                }
            },
        }
    }

    /// Moves the current frame state into the previous slot, discarding the
    /// old previous frame state.
    pub fn forward_frame_state(&mut self)
        ensures
            forward_step(*old(self), *final(self)),
    {
        self.previous_frame_state = self.current_frame_state.take();
    }

    /// Selects the image that later overlays are drawn on.
    pub fn select_visual_output_base(&mut self, visual_output_base: VisualOutputBase)
        ensures
            *final(self) == (State { visual_output_base, ..*old(self) }),
    {
        self.visual_output_base = visual_output_base;
    }

} // impl State

/// Replacing the current frame state by `input` leaves the previous frame
/// state alone: from a session that has seen no frame, any run of `input`
/// calls ends with no previous frame state and a fresh current frame state
/// around the last frame given.
pub proof fn lemma_inputs_leave_previous_absent<I>(states: Seq<State<I>>, frames: Seq<I>)
    requires
        frames.len() >= 1,
        states.len() == frames.len() + 1,
        is_initial(states[0]),
        forall|i: int|
            0 <= i < frames.len() ==> input_step(#[trigger] states[i], frames[i], states[i + 1]),
    ensures
        states.last().previous_frame_state is None,
        states.last().current_frame_state matches Some(f) && is_fresh(f, frames.last()),
    decreases frames.len(),
{
    if frames.len() > 1 {
        lemma_inputs_leave_previous_absent(states.drop_last(), frames.drop_last());
    }
    assert(input_step(states[frames.len() - 1], frames[frames.len() - 1], states[frames.len() as int]));
}

/// The rolling window: after the first `input` only a current frame state is
/// held; `forward_frame_state` makes it the previous one; the next `input`
/// installs a fresh current frame state beside it.
pub proof fn lemma_rolling_window<I>(
    s0: State<I>,
    first: I,
    s1: State<I>,
    s2: State<I>,
    second: I,
    s3: State<I>,
)
    requires
        is_initial(s0),
        input_step(s0, first, s1),
        forward_step(s1, s2),
        input_step(s2, second, s3),
    ensures
        s1.previous_frame_state is None,
        s1.current_frame_state matches Some(f) && is_fresh(f, first),
        s2.previous_frame_state == s1.current_frame_state,
        s2.current_frame_state is None,
        s3.previous_frame_state == s1.current_frame_state,
        s3.current_frame_state matches Some(f) && is_fresh(f, second),
{
}

/// Selecting a display base changes only which image the overlay is drawn on:
/// its keypoint markers and match segments stay the same.
pub proof fn lemma_base_changes_only_background<I>(s: State<I>, base: VisualOutputBase)
    ensures
        (State { visual_output_base: base, ..s }).visual_output_base == base,
        overlay_keypoints(State { visual_output_base: base, ..s }) == overlay_keypoints(s),
        overlay_segments(State { visual_output_base: base, ..s }) == overlay_segments(s),
{
}

} // verus!
