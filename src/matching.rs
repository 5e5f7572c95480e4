//! Turning descriptor matches into keypoint pairs, and keeping the pairs that
//! the geometric consensus marked as inliers.
use vstd::prelude::*;
use crate::geometry::{KeyPoint, Match};

verus! {

/// A descriptor match: the index of a current-frame descriptor (`query_idx`)
/// and of the previous-frame descriptor it was paired with (`train_idx`).
#[derive(Clone, Copy, Debug, PartialEq, Eq, Structural)]
pub struct DescriptorMatch {
    pub query_idx: i32,
    pub train_idx: i32,
}

/// Both indices of `m` name a keypoint of their frame.
pub open spec fn indices_in_range(
    current: Seq<KeyPoint>,
    previous: Seq<KeyPoint>,
    m: DescriptorMatch,
) -> bool {
    &&& 0 <= m.query_idx < current.len()
    &&& 0 <= m.train_idx < previous.len()
}

/// Every match names keypoints of both frames.
pub open spec fn all_in_range(
    current: Seq<KeyPoint>,
    previous: Seq<KeyPoint>,
    matches: Seq<DescriptorMatch>,
) -> bool {
    forall|i: int| 0 <= i < matches.len() ==> #[trigger] indices_in_range(current, previous, matches[i])
}

/// The keypoints that a match pairs (meaningful when its indices are in range).
pub open spec fn pair_of(
    current: Seq<KeyPoint>,
    previous: Seq<KeyPoint>,
    m: DescriptorMatch,
) -> (KeyPoint, KeyPoint) {
    (current[m.query_idx as int], previous[m.train_idx as int])
}

/// The current-frame keypoints of the matches, in match order.
pub open spec fn matched_current(
    current: Seq<KeyPoint>,
    previous: Seq<KeyPoint>,
    matches: Seq<DescriptorMatch>,
) -> Seq<KeyPoint> {
    matches.map_values(|m: DescriptorMatch| pair_of(current, previous, m).0)
}

/// The previous-frame keypoints of the matches, in match order.
pub open spec fn matched_previous(
    current: Seq<KeyPoint>,
    previous: Seq<KeyPoint>,
    matches: Seq<DescriptorMatch>,
) -> Seq<KeyPoint> {
    matches.map_values(|m: DescriptorMatch| pair_of(current, previous, m).1)
}

/// Keypoint pairs side by side with a mask, cut to the shortest of the three.
pub open spec fn aligned(
    current: Seq<KeyPoint>,
    previous: Seq<KeyPoint>,
    mask: Seq<u8>,
) -> Seq<(KeyPoint, KeyPoint, u8)> {
    let n = if current.len() <= previous.len() && current.len() <= mask.len() {
        current.len()
    } else if previous.len() <= mask.len() {
        previous.len()
    } else {
        mask.len()
    };
    Seq::new(n, |i: int| (current[i], previous[i], mask[i]))
}

/// The matches whose mask entry is nonzero, in order.
pub open spec fn inliers(rows: Seq<(KeyPoint, KeyPoint, u8)>) -> Seq<Match>
    decreases rows.len(),
{
    if rows.len() == 0 {
        Seq::empty()
    } else {
        let rest = inliers(rows.drop_last());
        let last = rows.last();
        if last.2 > 0 {
            rest.push(Match { current_keypoint: last.0, previous_keypoint: last.1 })
        } else {
            rest
        }
    }
}

/// Relies on itertools::multiunzip: the pairs split into their first and their
/// second components, each kept in order.
#[verifier::external_body]
fn unzip_pairs(pairs: Vec<(KeyPoint, KeyPoint)>) -> (r: (Vec<KeyPoint>, Vec<KeyPoint>))
    ensures
        r.0@ == pairs@.map_values(|p: (KeyPoint, KeyPoint)| p.0),
        r.1@ == pairs@.map_values(|p: (KeyPoint, KeyPoint)| p.1),
{
    itertools::multiunzip(pairs)
}

/// Relies on itertools::multizip: the three lists walked in lockstep, up to the
/// end of the shortest.
#[verifier::external_body]
fn zip_with_mask(current: Vec<KeyPoint>, previous: Vec<KeyPoint>, mask: Vec<u8>) -> (r: Vec<
    (KeyPoint, KeyPoint, u8),
>)
    ensures
        r@ == aligned(current@, previous@, mask@),
{
    itertools::multizip((current, previous, mask)).collect()
}

/// The keypoint pairs named by `matches`, split into the current-frame and the
/// previous-frame keypoints. `None` where an index names no keypoint.
pub fn resolve_matches(
    current: &Vec<KeyPoint>,
    previous: &Vec<KeyPoint>,
    matches: &Vec<DescriptorMatch>,
) -> (r: Option<(Vec<KeyPoint>, Vec<KeyPoint>)>)
    ensures
        r.is_some() <==> all_in_range(current@, previous@, matches@),
        r matches Some(v) ==> v.0@ == matched_current(current@, previous@, matches@) && v.1@
            == matched_previous(current@, previous@, matches@),
{
    let mut pairs: Vec<(KeyPoint, KeyPoint)> = Vec::with_capacity(matches.len());
    let mut i: usize = 0;
    while i < matches.len()
        invariant
            i <= matches@.len(),
            all_in_range(current@, previous@, matches@.subrange(0, i as int)),
            pairs@ == matches@.subrange(0, i as int).map_values(
                |m: DescriptorMatch| pair_of(current@, previous@, m),
            ),
        decreases matches@.len() - i,
    {
        let m = matches[i];
        if m.query_idx < 0 || m.query_idx as usize >= current.len() || m.train_idx < 0
            || m.train_idx as usize >= previous.len() {
            assert(!indices_in_range(current@, previous@, matches@[i as int]));
            return None;
        }
        pairs.push((current[m.query_idx as usize], previous[m.train_idx as usize]));
        i = i + 1;
        assert(matches@.subrange(0, i as int) =~= matches@.subrange(0, i - 1).push(m));
    }
    assert(matches@.subrange(0, i as int) =~= matches@);
    let r = unzip_pairs(pairs);
    assert(r.0@ =~= matched_current(current@, previous@, matches@));
    assert(r.1@ =~= matched_previous(current@, previous@, matches@));
    Some(r)
}

/// The matches whose mask entry is nonzero, pairing `current[i]` with
/// `previous[i]`; rows past the end of the shortest list are dropped.
pub fn retain_inliers(current: Vec<KeyPoint>, previous: Vec<KeyPoint>, mask: Vec<u8>) -> (r: Vec<
    Match,
>)
    ensures
        r@ == inliers(aligned(current@, previous@, mask@)),
{
    let rows = zip_with_mask(current, previous, mask);
    let mut r: Vec<Match> = Vec::new();
    let mut i: usize = 0;
    while i < rows.len()
        invariant
            i <= rows@.len(),
            r@ == inliers(rows@.subrange(0, i as int)),
        decreases rows@.len() - i,
    {
        let (c, p, keep) = rows[i];
        if keep > 0 {
            r.push(Match { current_keypoint: c, previous_keypoint: p });
        }
        i = i + 1;
        assert(rows@.subrange(0, i as int).drop_last() =~= rows@.subrange(0, i - 1));
    }
    assert(rows@.subrange(0, i as int) =~= rows@);
    r
}

} // verus!
