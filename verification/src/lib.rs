//! Verified decision logic for driving a FreeType-style font engine.
//!
//! The engine itself is reached through a foreign-function boundary that
//! lives outside this crate. Everything here is the logic around that
//! boundary: which call to make next and how to read its answer, how a data
//! source becomes a stream and who owns what it reads from, how to pick a
//! bitmap strike, how a variable-font instance scales the weight and width
//! class, and which code points a face covers. Each public function carries
//! a contract that Verus proves.
//!
//! Nothing in this crate performs an engine call. Where a computation needs
//! the engine, it is written as a small machine: it hands out an
//! [`EngineCall`], is given the [`EngineReply`], and says what comes next.
//! Floating point has no place here either. Sizes are in the fixed-point
//! units of the engine, and ratios are exact fractions.

mod bignat;
pub mod coverage;
pub mod engine;
pub mod face;
pub mod glyph;
pub mod library;
pub mod load_flags;
pub mod metrics;
pub mod size;
pub mod source;
pub mod stream;
pub mod variation;

pub use engine::{ft_result, succeeded, EngineCall, EngineReply, Error, LcdFilter, RenderMode};
pub use face::{Face, FaceRecord};
pub use library::Library;
pub use load_flags::compute_load_flags_from_config;
pub use size::SelectedFontSize;
pub use stream::FreeTypeStream;
