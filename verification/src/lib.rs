//! Grid positions that carry the rectangle they are meant to stay in.
//!
//! A [`Point`] holds two zero-based coordinates together with an exclusive
//! upper bound for each axis. Checked arithmetic and the four cardinal steps
//! answer `None` instead of leaving that rectangle; the plain `+` and `-`
//! operators skip the check and demand of the caller that the machine range
//! is respected.
//!
//! Contracts are stated over [`PointView`], the four numbers of a point as
//! mathematical naturals.

pub mod decimal;
pub mod laws;
pub mod model;
pub mod point;

pub use model::PointView;
pub use point::Point;
pub use point::PointBuilder;
