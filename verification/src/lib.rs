//! A verified geometry core for comparing two monitors' physical dimensions.
//!
//! Lengths are carried as fixed-point integers: physical lengths in
//! milli-inches, pixel densities in milli-pixels-per-inch, and rotations as a
//! cosine/sine pair scaled by a fixed power of two. All arithmetic is exact
//! integer arithmetic, so every result is pinned down by its contract.

pub mod physical;
pub mod scene;
pub mod session;
