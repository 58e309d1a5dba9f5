//! The per-frame state engine of an immediate-mode GUI toolkit.
//!
//! Once per frame the engine turns raw input into an immutable input snapshot,
//! resolves pointer interaction against layered regions, collects paint
//! commands per layer, and hands the ordered commands and the frame's output
//! back to the platform.
//!
//! All coordinates are whole points on a signed 32-bit grid. Arithmetic on
//! them saturates at the ends of the grid.

pub mod areas;
pub mod context;
pub mod fonts;
pub mod graphics;
pub mod input;
pub mod inspect;
pub mod layer;
pub mod math;
pub mod memory;
pub mod output;
pub mod paint;
pub mod style;
pub mod text;
pub mod used_ids;
