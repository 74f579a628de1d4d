//! The decisions of a Monte Carlo path tracer.
//!
//! A path tracer follows light back from the eye: through a pixel, to the
//! nearest surface, on in a scattered direction, and so forth until the path
//! ends on a light or on the sky. This crate holds what is decided on the
//! way, and proves that it is decided as stated: which hit a ray sees, which
//! root or face of a shape counts, how a material sends a path on, how deep
//! a path may go, and which quasi-random generator a draw belongs to.
//!
//! The numbers themselves are single-precision floating-point numbers.
//! They are carried as bit patterns ([`scalar::Scalar`]) and only ever
//! compared, negated or picked from; sums, products, roots and powers are
//! the caller's to work out.
pub mod scalar;
pub mod geom;
pub mod context;
pub mod shapes;
pub mod materials;
pub mod scene;
pub mod path;
