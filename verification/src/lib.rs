//! Protocol core of a bridge between a pull-driven image codec engine and
//! asynchronous byte sources.
//!
//! The engine itself, the asynchronous runtime and the log sink live outside
//! this crate. What is here are the decisions that surround them: how a
//! blocking read is filled from short reads, how a region decoder moves
//! through its states, what a session remembers of the header, and how an
//! engine log level maps to a host severity.

pub mod geometry;
pub mod image;
pub mod decompressor;
pub mod reader;
pub mod relay;
pub mod source;

pub use crate::decompressor::{
    DecodeAction, DecodeError, DecodeEvent, DecoderState, KakaduDecompressor,
};
pub use crate::geometry::{Info, Region};
pub use crate::image::{CodecOpenError, HeaderAction, HeaderEvent, KakaduImage};
pub use crate::reader::{AsyncReader, AsyncSeekableRead, FillStep, IoError};
pub use crate::relay::{log, LogLevel, LogRecord, Severity};
pub use crate::source::{AsyncCompressedSource, TestCompressedSource};
