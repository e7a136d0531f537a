pub mod config;
pub mod error;
pub mod filter;
pub mod kv;
pub mod sink;
pub mod text;
pub mod vapi;
pub mod vsl;

pub use crate::error::{ParseError, VarnishError};
pub use crate::vapi::{Builder, LoggingBuilder};
pub use crate::vsl::{
    CallbackResult, CursorOpts, LogGrouping, LogLine, LogTransaction, Reason, RecordType, TxType,
};
