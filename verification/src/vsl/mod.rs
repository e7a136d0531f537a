//! The log stream's basic shapes: one tagged line, one grouped transaction,
//! the grouping modes and cursor options handed to the log provider, and the
//! decoder for a raw record's two header words.
pub mod ingest;
pub mod models;
pub mod parsers;
pub mod transform;

pub use models::{CacheHandling, IpSource, LogRecord, LogRequest, LogResponse, Reason, TxType};

use vstd::prelude::*;

verus! {

/// Which side of the proxying emitted a record.
#[derive(Debug, Clone, Copy, PartialEq, Eq, Structural)]
pub enum RecordType {
    Client,
    Backend,
    Other,
}

/// One tagged log line of a transaction.
#[derive(Debug)]
pub struct LogLine {
    pub vxid: u32,
    pub tag: String,
    pub data: String,
    pub ty: RecordType,
}

/// The mathematical shape of one tagged line.
pub ghost struct LineSpec {
    pub vxid: int,
    pub tag: Seq<char>,
    pub data: Seq<char>,
    pub ty: RecordType,
}

impl View for LogLine {
    type V = LineSpec;

    open spec fn view(&self) -> LineSpec {
        LineSpec { vxid: self.vxid as int, tag: self.tag@, data: self.data@, ty: self.ty }
    }
}

/// The views of a line sequence.
pub open spec fn lines_of(v: Seq<LogLine>) -> Seq<LineSpec> {
    v.map_values(|l: LogLine| l@)
}

/// The mathematical shape of one transaction.
pub ghost struct TxSpec {
    pub level: int,
    pub vxid: int,
    pub parent_vxid: int,
    pub ty: TxType,
    pub reason: Reason,
    pub data: Seq<LineSpec>,
}

/// How the provider groups raw records into transactions.
#[derive(Debug, Clone, Copy, PartialEq, Eq, Structural)]
pub enum LogGrouping {
    Raw,
    Vxid,
    Request,
    Session,
}

impl LogGrouping {
    /// The provider's numeric encoding of the grouping mode.
    pub fn as_raw(&self) -> (r: u32)
        ensures
            r == self.as_raw_spec(),
    {
        match self {
            LogGrouping::Raw => 0,
            LogGrouping::Vxid => 1,
            LogGrouping::Request => 2,
            LogGrouping::Session => 3,
        }
    }

    pub open spec fn as_raw_spec(&self) -> u32 {
        match self {
            LogGrouping::Raw => 0,
            LogGrouping::Vxid => 1,
            LogGrouping::Request => 2,
            LogGrouping::Session => 3,
        }
    }
}

/// Options for a new cursor over the log stream, kept as a bit set.
#[derive(Debug, Default, Copy, Clone)]
pub struct CursorOpts(u32);

impl CursorOpts {
    /// The whole option word as the provider will receive it.
    pub closed spec fn spec_raw(self) -> u32 {
        self.0
    }

    /// Reading starts at the tail of the stream.
    pub closed spec fn spec_is_tail(self) -> bool {
        self.0 & 1u32 != 0
    }

    /// Records are read in batches.
    pub closed spec fn spec_is_batch(self) -> bool {
        self.0 & 2u32 != 0
    }

    /// Reading stops once the tail is reached.
    pub closed spec fn spec_is_tail_stop(self) -> bool {
        self.0 & 4u32 != 0
    }

    /// No option set.
    pub fn new() -> (r: CursorOpts)
        ensures
            r.spec_raw() == 0,
            !r.spec_is_tail(),
            !r.spec_is_batch(),
            !r.spec_is_tail_stop(),
    {
        proof {
            assert(0u32 & 1u32 == 0 && 0u32 & 2u32 == 0 && 0u32 & 4u32 == 0) by (bit_vector);
        }
        CursorOpts(0)
    }

    /// Adds the tail option.
    pub fn tail(self) -> (r: Self)
        ensures
            r.spec_raw() == self.spec_raw() | 1u32,
            r.spec_is_tail(),
            r.spec_is_batch() == self.spec_is_batch(),
            r.spec_is_tail_stop() == self.spec_is_tail_stop(),
    {
        let ghost b = self.0;
        proof {
            assert((b | 1u32) & 1u32 != 0 && ((b | 1u32) & 2u32 == b & 2u32) && ((b | 1u32) & 4u32
                == b & 4u32)) by (bit_vector);
        }
        CursorOpts(self.0 | 1)
    }

    /// Adds the batch option.
    pub fn batch(self) -> (r: Self)
        ensures
            r.spec_raw() == self.spec_raw() | 2u32,
            r.spec_is_batch(),
            r.spec_is_tail() == self.spec_is_tail(),
            r.spec_is_tail_stop() == self.spec_is_tail_stop(),
    {
        let ghost b = self.0;
        proof {
            assert((b | 2u32) & 2u32 != 0 && ((b | 2u32) & 1u32 == b & 1u32) && ((b | 2u32) & 4u32
                == b & 4u32)) by (bit_vector);
        }
        CursorOpts(self.0 | 2)
    }

    /// Adds the tail-stop option.
    pub fn tail_stop(self) -> (r: Self)
        ensures
            r.spec_raw() == self.spec_raw() | 4u32,
            r.spec_is_tail_stop(),
            r.spec_is_tail() == self.spec_is_tail(),
            r.spec_is_batch() == self.spec_is_batch(),
    {
        let ghost b = self.0;
        proof {
            assert((b | 4u32) & 4u32 != 0 && ((b | 4u32) & 1u32 == b & 1u32) && ((b | 4u32) & 2u32
                == b & 2u32)) by (bit_vector);
        }
        CursorOpts(self.0 | 4)
    }

    /// Whether the tail option is set.
    pub fn is_tail(&self) -> (r: bool)
        ensures
            r == self.spec_is_tail(),
    {
        self.0 & 1 > 0
    }

    /// Whether the batch option is set.
    pub fn is_batch(&self) -> (r: bool)
        ensures
            r == self.spec_is_batch(),
    {
        self.0 & 2 > 0
    }

    /// Whether the tail-stop option is set.
    pub fn is_tail_stop(&self) -> (r: bool)
        ensures
            r == self.spec_is_tail_stop(),
    {
        self.0 & 4 > 0
    }

    /// The raw option word handed to the provider.
    pub fn raw(&self) -> (r: u32)
        ensures
            r == self.spec_raw(),
            (r & 1u32 != 0) == self.spec_is_tail(),
            (r & 2u32 != 0) == self.spec_is_batch(),
            (r & 4u32 != 0) == self.spec_is_tail_stop(),
    {
        self.0
    }
}

/// What a per-transaction callback asks the dispatcher to do next.
#[derive(Debug, Copy, Clone, PartialEq, Eq, Structural)]
pub enum CallbackResult {
    Continue,
    Stop(i32),
}

/// One grouped transaction: identity, kind, reason, and the ordered tagged
/// lines the provider emitted for it.
#[derive(Debug)]
pub struct LogTransaction {
    pub level: u32,
    pub vxid: u32,
    pub parent_vxid: u32,
    pub ty: TxType,
    pub reason: Reason,
    pub data: Vec<LogLine>,
}

impl View for LogTransaction {
    type V = TxSpec;

    open spec fn view(&self) -> TxSpec {
        TxSpec {
            level: self.level as int,
            vxid: self.vxid as int,
            parent_vxid: self.parent_vxid as int,
            ty: self.ty,
            reason: self.reason,
            data: lines_of(self.data@),
        }
    }
}

/// The fields packed into a raw record's two leading 32-bit words.
#[derive(Debug, Copy, Clone, PartialEq, Eq, Structural)]
pub struct RecordHeader {
    pub tag_index: u32,
    pub data_length: u32,
    pub vxid: u32,
    pub ty: RecordType,
}

/// Decodes a raw record header: the first word carries the tag index in its
/// top byte and the payload length in its low 16 bits; the second carries
/// the transaction id in its low 30 bits and the client/backend markers in
/// its top two bits.
pub fn decode_record_header(w0: u32, w1: u32) -> (r: RecordHeader)
    ensures
        r.tag_index == w0 >> 24u32,
        r.tag_index < 256,
        r.data_length == w0 & 0xffffu32,
        r.data_length < 0x10000,
        r.vxid == w1 & 0x3fffffffu32,
        r.vxid < 0x40000000,
        r.ty == (if w1 & 0x40000000u32 != 0 {
            RecordType::Client
        } else if w1 & 0x80000000u32 != 0 {
            RecordType::Backend
        } else {
            RecordType::Other
        }),
{
    proof {
        assert(w0 >> 24u32 < 256 && w0 & 0xffffu32 < 0x10000 && w1 & 0x3fffffffu32 < 0x40000000)
            by (bit_vector);
    }
    let tag_index = w0 >> 24;
    let data_length = w0 & 0xffff;
    let vxid = w1 & 0x3fffffff;
    let is_client = w1 & 0x40000000;
    let is_backend = w1 & 0x80000000;
    let ty = if is_client > 0 {
        RecordType::Client
    } else if is_backend > 0 {
        RecordType::Backend
    } else {
        RecordType::Other
    };
    RecordHeader { tag_index, data_length, vxid, ty }
}

} // verus!
