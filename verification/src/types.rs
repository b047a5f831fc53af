//! The data model shared by the pipeline: remote identifiers, attribute
//! values, static callsite metadata and severity levels.

use vstd::prelude::*;

verus! {

/// The 128-bit identifier of a remote timeline, carried as the
/// big-endian integer value of its sixteen bytes.
#[derive(Clone, Copy, Debug, PartialEq, Eq, Structural, Hash)]
pub struct TimelineId {
    pub id: u128,
}

/// The random 128-bit run identifier generated once per process
/// initialization, carried as the big-endian integer value of its
/// sixteen bytes.
#[derive(Clone, Copy, Debug, PartialEq, Eq, Structural, Hash)]
pub struct RunId {
    pub id: u128,
}

/// An attribute value in the remote schema.
///
/// Logical times are carried in their unary form: the single coordinate
/// the pipeline emits. Floating-point values are carried as their raw
/// 64-bit encoding; the pipeline never computes on them.
#[derive(Clone, Debug, PartialEq)]
pub enum AttrVal {
    String(String),
    Integer(i64),
    BigInt(i128),
    /// The bit pattern of a 64-bit floating-point value.
    Float(u64),
    Bool(bool),
    /// Nanoseconds since the UNIX epoch.
    Timestamp(u64),
    /// A unary logical time coordinate.
    LogicalTime(u64),
    TimelineId(TimelineId),
}

/// The specification-level form of an attribute value: strings as
/// character sequences.
pub enum AttrValV {
    String(Seq<char>),
    Integer(i64),
    BigInt(i128),
    Float(u64),
    Bool(bool),
    Timestamp(u64),
    LogicalTime(u64),
    TimelineId(TimelineId),
}

impl View for AttrVal {
    type V = AttrValV;

    open spec fn view(&self) -> AttrValV {
        match self {
            AttrVal::String(s) => AttrValV::String(s@),
            AttrVal::Integer(i) => AttrValV::Integer(*i),
            AttrVal::BigInt(i) => AttrValV::BigInt(*i),
            AttrVal::Float(bits) => AttrValV::Float(*bits),
            AttrVal::Bool(b) => AttrValV::Bool(*b),
            AttrVal::Timestamp(t) => AttrValV::Timestamp(*t),
            AttrVal::LogicalTime(t) => AttrValV::LogicalTime(*t),
            AttrVal::TimelineId(t) => AttrValV::TimelineId(*t),
        }
    }
}

impl AttrVal {
    /// An equal copy of the value.
    pub fn dup(&self) -> (r: AttrVal)
        ensures
            r == *self,
    {
        match self {
            AttrVal::String(s) => AttrVal::String(s.clone()),
            AttrVal::Integer(i) => AttrVal::Integer(*i),
            AttrVal::BigInt(i) => AttrVal::BigInt(*i),
            AttrVal::Float(bits) => AttrVal::Float(*bits),
            AttrVal::Bool(b) => AttrVal::Bool(*b),
            AttrVal::Timestamp(t) => AttrVal::Timestamp(*t),
            AttrVal::LogicalTime(t) => AttrVal::LogicalTime(*t),
            AttrVal::TimelineId(t) => AttrVal::TimelineId(*t),
        }
    }
}

/// A severity level of the tracing facade.
#[derive(Clone, Copy, Debug, PartialEq, Eq, Structural)]
pub enum Level {
    Trace,
    Debug,
    Info,
    Warn,
    Error,
}

impl Level {
    /// The lowercase display form of the level.
    pub open spec fn spec_severity(self) -> Seq<char> {
        match self {
            Level::Trace => "trace"@,
            Level::Debug => "debug"@,
            Level::Info => "info"@,
            Level::Warn => "warn"@,
            Level::Error => "error"@,
        }
    }

    /// The lowercase display form of the level, as written into the
    /// `event.severity` attribute.
    pub fn severity(&self) -> (r: String)
        ensures
            r@ == self.spec_severity(),
    {
        match self {
            Level::Trace => String::from_str("trace"),
            Level::Debug => String::from_str("debug"),
            Level::Info => String::from_str("info"),
            Level::Warn => String::from_str("warn"),
            Level::Error => String::from_str("error"),
        }
    }
}

/// The fields of the facade's static callsite metadata that the
/// pipeline reads, copied at capture time.
#[derive(Clone, Debug)]
pub struct SpanMetadata {
    pub name: String,
    pub level: Level,
    pub module: Option<String>,
    pub file: Option<String>,
    pub line: Option<u32>,
}

} // verus!
