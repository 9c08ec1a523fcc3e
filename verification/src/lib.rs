//! Renders a language-neutral description of a native library's ABI surface
//! — functions, constants and types — into a C99 header: type declarations
//! ordered so that every definition precedes its first by-value use, each
//! node printed in the exact textual form the contracts state, and the whole
//! wrapped in the configured preprocessor scaffolding.

pub mod ir;
pub mod laws;
pub mod num;
pub mod sink;
pub mod sort;
pub mod specifier;
pub mod writer;
