//! A safe layer over the Hyperscan regular-expression engine: patterns and
//! their flags, the requests handed to the native compiler and scanners, the
//! protocol by which a match handler steers a scan, and one error type.
//!
//! The library makes no native call itself. It says what each call is given
//! and what its outcome means; whoever links the engine makes the calls.

pub mod adapter;
pub mod context;
pub mod database;
pub mod error;
pub mod flags;
pub mod pattern;
pub mod scanner;

pub use context::{Context, MatchEventHandler, Scan};
pub use database::{BlockDatabase, StreamDatabase, VectoredDatabase};
pub use error::{as_result, CompileError, Error, HyperscanErrorCode};
pub use flags::{Flag, FlagBit, ModeBit, ScanMode};
pub use pattern::{CompileRequest, Pattern};
pub use scanner::{BlockScanner, StreamScanner, VectoredScanner};
