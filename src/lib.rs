//! Per-frame orchestration for a small visual-odometry preview: the two-frame
//! rolling window, keypoint construction, correspondence resolution, inlier
//! filtering, the render plan and the keyboard dispatch. Image processing
//! itself (colour conversion, edges, corners, descriptors, matching, RANSAC,
//! drawing) is done by the caller, which hands the results to this library.
pub mod geometry;
pub mod keys;
pub mod matching;
pub mod session;
