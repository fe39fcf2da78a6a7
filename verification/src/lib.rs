//! A 2D turtle-graphics engine over fixed-point coordinates.
//!
//! A cursor ("turtle") carries a position, a heading and a pen flag; motion
//! commands move it about the plane and, while the pen is down, grow a list
//! of polylines. The accumulated drawing can be serialized to an SVG or an
//! EPS document.
//!
//! All quantities are held in thousandths (milli-units): a `Position`
//! coordinate of 1000 is one drawing unit, a `Degree` of 90_000 is a quarter
//! turn. Arithmetic on coordinates saturates at the `i64` range, mirroring
//! how unbounded drawings would clamp at the edge of any finite canvas;
//! rotation wraps, so turning left and then right by the same angle is
//! always an exact round trip.

pub mod angle;
pub mod engine;
pub mod geom;
pub mod laws;
pub mod num;
pub mod recorder;
pub mod render;
