//! The fixed 32-byte result message: a 16-byte header and a 16-byte payload
//! that holds a boolean or integer inline, or an address and a length.
//!
//! Serialized fields are little-endian. Byte and string payloads are carried
//! by address only: the bytes they point at are never copied, so the memory
//! must outlive the message's consumption on the far side.
use vstd::prelude::*;

verus! {

/// Protocol version stamped into every message.
pub const PROTOCOL_VERSION: u8 = 1;

/// Protocol magic number stamped into every message.
pub const PROTOCOL_MAGIC: u32 = 0xDABCFE01;

/// Size in bytes of every serialized message.
pub const MESSAGE_SIZE: usize = 32;

/// Outcome of a task, as carried in the header.
#[derive(Debug, Clone, Copy, PartialEq, Eq, Structural)]
pub enum TaskStatus {
    /// Completed, no data.
    Success,
    /// Completed with data.
    SuccessWithData,
    /// The worker stopped in order; carries no task id.
    WorkerShutdown,
    UnknownError,
    ProtocolError,
    VersionMismatch,
    CorruptedData,
}

/// Wire code of a status.
pub open spec fn status_code(s: TaskStatus) -> u16 {
    match s {
        TaskStatus::Success => 0x0000,
        TaskStatus::SuccessWithData => 0x0001,
        TaskStatus::WorkerShutdown => 0x0100,
        TaskStatus::UnknownError => 0x9001,
        TaskStatus::ProtocolError => 0xF001,
        TaskStatus::VersionMismatch => 0xF002,
        TaskStatus::CorruptedData => 0xF003,
    }
}

/// The status with a wire code, if any.
pub open spec fn status_of_code(c: u16) -> Option<TaskStatus> {
    if c == 0x0000 {
        Some(TaskStatus::Success)
    } else if c == 0x0001 {
        Some(TaskStatus::SuccessWithData)
    } else if c == 0x0100 {
        Some(TaskStatus::WorkerShutdown)
    } else if c == 0x9001 {
        Some(TaskStatus::UnknownError)
    } else if c == 0xF001 {
        Some(TaskStatus::ProtocolError)
    } else if c == 0xF002 {
        Some(TaskStatus::VersionMismatch)
    } else if c == 0xF003 {
        Some(TaskStatus::CorruptedData)
    } else {
        None
    }
}

impl TaskStatus {
    /// Wire code of this status.
    pub fn code(self) -> (r: u16)
        ensures
            r == status_code(self),
    {
        match self {
            TaskStatus::Success => 0x0000,
            TaskStatus::SuccessWithData => 0x0001,
            TaskStatus::WorkerShutdown => 0x0100,
            TaskStatus::UnknownError => 0x9001,
            TaskStatus::ProtocolError => 0xF001,
            TaskStatus::VersionMismatch => 0xF002,
            TaskStatus::CorruptedData => 0xF003,
        }
    }

    /// The status with a wire code, if any.
    pub fn from_code(c: u16) -> (r: Option<TaskStatus>)
        ensures
            r == status_of_code(c),
    {
        if c == 0x0000 {
            Some(TaskStatus::Success)
        } else if c == 0x0001 {
            Some(TaskStatus::SuccessWithData)
        } else if c == 0x0100 {
            Some(TaskStatus::WorkerShutdown)
        } else if c == 0x9001 {
            Some(TaskStatus::UnknownError)
        } else if c == 0xF001 {
            Some(TaskStatus::ProtocolError)
        } else if c == 0xF002 {
            Some(TaskStatus::VersionMismatch)
        } else if c == 0xF003 {
            Some(TaskStatus::CorruptedData)
        } else {
            None
        }
    }
}

/// Kind of data in the payload.
#[derive(Debug, Clone, Copy, PartialEq, Eq, Structural)]
pub enum DataType {
    /// No data.
    Empty,
    Bool,
    U64,
    Bytes,
    String,
}

/// Wire code of a data kind.
pub open spec fn data_type_code(d: DataType) -> u8 {
    match d {
        DataType::Empty => 0,
        DataType::Bool => 1,
        DataType::U64 => 2,
        DataType::Bytes => 3,
        DataType::String => 4,
    }
}

/// The data kind with a wire code, if any.
pub open spec fn data_type_of_code(c: u8) -> Option<DataType> {
    if c == 0 {
        Some(DataType::Empty)
    } else if c == 1 {
        Some(DataType::Bool)
    } else if c == 2 {
        Some(DataType::U64)
    } else if c == 3 {
        Some(DataType::Bytes)
    } else if c == 4 {
        Some(DataType::String)
    } else {
        None
    }
}

impl DataType {
    /// Wire code of this kind.
    pub fn code(self) -> (r: u8)
        ensures
            r == data_type_code(self),
    {
        match self {
            DataType::Empty => 0,
            DataType::Bool => 1,
            DataType::U64 => 2,
            DataType::Bytes => 3,
            DataType::String => 4,
        }
    }

    /// The data kind with a wire code, if any.
    pub fn from_code(c: u8) -> (r: Option<DataType>)
        ensures
            r == data_type_of_code(c),
    {
        if c == 0 {
            Some(DataType::Empty)
        } else if c == 1 {
            Some(DataType::Bool)
        } else if c == 2 {
            Some(DataType::U64)
        } else if c == 3 {
            Some(DataType::Bytes)
        } else if c == 4 {
            Some(DataType::String)
        } else {
            None
        }
    }
}

/// The 16-byte header.
#[derive(Debug, Clone, Copy, PartialEq, Eq, Structural)]
pub struct MessageHeader {
    pub magic: u32,
    pub version: u8,
    pub data_type: DataType,
    pub status: TaskStatus,
    pub task_id: u64,
}

/// Address and length of a byte buffer whose ownership passes to the recipient.
#[derive(Debug, Clone, Copy, PartialEq, Eq, Structural)]
pub struct BytesData {
    pub ptr: usize,
    pub len: usize,
}

/// Address and length of UTF-8 text.
#[derive(Debug, Clone, Copy, PartialEq, Eq, Structural)]
pub struct StringData {
    pub ptr: usize,
    pub len: usize,
}

/// The payload, tagged by its kind.
#[derive(Debug, Clone, Copy, PartialEq, Eq, Structural)]
pub enum DataPayload {
    Empty,
    Bool(bool),
    U64(u64),
    Bytes(BytesData),
    String(StringData),
}

/// The kind of a payload.
pub open spec fn payload_kind(p: DataPayload) -> DataType {
    match p {
        DataPayload::Empty => DataType::Empty,
        DataPayload::Bool(_) => DataType::Bool,
        DataPayload::U64(_) => DataType::U64,
        DataPayload::Bytes(_) => DataType::Bytes,
        DataPayload::String(_) => DataType::String,
    }
}

impl DataPayload {
    /// The inline boolean, for a boolean payload.
    pub fn bool_val(&self) -> (r: Option<bool>)
        ensures
            r == (match *self {
                DataPayload::Bool(b) => Some(b),
                _ => None,
            }),
    {
        match *self {
            DataPayload::Bool(b) => Some(b),
            _ => None,
        }
    }

    /// The inline integer, for an integer payload.
    pub fn u64_val(&self) -> (r: Option<u64>)
        ensures
            r == (match *self {
                DataPayload::U64(v) => Some(v),
                _ => None,
            }),
    {
        match *self {
            DataPayload::U64(v) => Some(v),
            _ => None,
        }
    }

    /// The buffer, for a byte payload.
    pub fn bytes(&self) -> (r: Option<BytesData>)
        ensures
            r == (match *self {
                DataPayload::Bytes(b) => Some(b),
                _ => None,
            }),
    {
        match *self {
            DataPayload::Bytes(b) => Some(b),
            _ => None,
        }
    }

    /// The text, for a string payload.
    pub fn string(&self) -> (r: Option<StringData>)
        ensures
            r == (match *self {
                DataPayload::String(s) => Some(s),
                _ => None,
            }),
    {
        match *self {
            DataPayload::String(s) => Some(s),
            _ => None,
        }
    }
}

/// A complete result message.
#[derive(Debug, Clone, Copy, PartialEq, Eq, Structural)]
pub struct TaskEventMessage {
    pub header: MessageHeader,
    pub payload: DataPayload,
}

/// A message with the current magic and version.
pub open spec fn stamped(task_id: u64, status: TaskStatus, payload: DataPayload) -> TaskEventMessage {
    TaskEventMessage {
        header: MessageHeader {
            magic: PROTOCOL_MAGIC,
            version: PROTOCOL_VERSION,
            data_type: payload_kind(payload),
            status,
            task_id,
        },
        payload,
    }
}

impl TaskEventMessage {
    /// The header's kind agrees with the payload.
    pub open spec fn wf(self) -> bool {
        self.header.data_type == payload_kind(self.payload)
    }

    /// Whether the status is a success.
    pub open spec fn success(self) -> bool {
        self.header.status is Success || self.header.status is SuccessWithData
    }

    /// Whether the status is an error: neither a success nor a shutdown.
    pub open spec fn error(self) -> bool {
        !self.success() && !(self.header.status is WorkerShutdown)
    }

    /// A success without data.
    pub fn no_data(task_id: u64) -> (r: TaskEventMessage)
        ensures
            r == stamped(task_id, TaskStatus::Success, DataPayload::Empty),
    {
        TaskEventMessage {
            header: MessageHeader {
                magic: PROTOCOL_MAGIC,
                version: PROTOCOL_VERSION,
                data_type: DataType::Empty,
                status: TaskStatus::Success,
                task_id,
            },
            payload: DataPayload::Empty,
        }
    }

    /// A success with a boolean.
    pub fn bool_data(task_id: u64, value: bool) -> (r: TaskEventMessage)
        ensures
            r == stamped(task_id, TaskStatus::SuccessWithData, DataPayload::Bool(value)),
    {
        TaskEventMessage {
            header: MessageHeader {
                magic: PROTOCOL_MAGIC,
                version: PROTOCOL_VERSION,
                data_type: DataType::Bool,
                status: TaskStatus::SuccessWithData,
                task_id,
            },
            payload: DataPayload::Bool(value),
        }
    }

    /// A success with an integer.
    pub fn u64_data(task_id: u64, value: u64) -> (r: TaskEventMessage)
        ensures
            r == stamped(task_id, TaskStatus::SuccessWithData, DataPayload::U64(value)),
    {
        TaskEventMessage {
            header: MessageHeader {
                magic: PROTOCOL_MAGIC,
                version: PROTOCOL_VERSION,
                data_type: DataType::U64,
                status: TaskStatus::SuccessWithData,
                task_id,
            },
            payload: DataPayload::U64(value),
        }
    }

    /// A success with a byte buffer handed to the recipient.
    pub fn bytes_data(task_id: u64, data_ptr: usize, data_len: usize) -> (r: TaskEventMessage)
        ensures
            r == stamped(
                task_id,
                TaskStatus::SuccessWithData,
                DataPayload::Bytes(BytesData { ptr: data_ptr, len: data_len }),
            ),
    {
        TaskEventMessage {
            header: MessageHeader {
                magic: PROTOCOL_MAGIC,
                version: PROTOCOL_VERSION,
                data_type: DataType::Bytes,
                status: TaskStatus::SuccessWithData,
                task_id,
            },
            payload: DataPayload::Bytes(BytesData { ptr: data_ptr, len: data_len }),
        }
    }

    /// A message with any status that carries text.
    pub fn string_data(task_id: u64, status: TaskStatus, text_ptr: usize, text_len: usize) -> (r:
        TaskEventMessage)
        ensures
            r == stamped(task_id, status, DataPayload::String(StringData { ptr: text_ptr, len: text_len })),
    {
        TaskEventMessage {
            header: MessageHeader {
                magic: PROTOCOL_MAGIC,
                version: PROTOCOL_VERSION,
                data_type: DataType::String,
                status,
                task_id,
            },
            payload: DataPayload::String(StringData { ptr: text_ptr, len: text_len }),
        }
    }

    /// An error message carrying its text.
    pub fn error_message(task_id: u64, error_type: TaskStatus, msg_ptr: usize, msg_len: usize) -> (r:
        TaskEventMessage)
        ensures
            r == stamped(task_id, error_type, DataPayload::String(StringData { ptr: msg_ptr, len: msg_len })),
    {
        TaskEventMessage::string_data(task_id, error_type, msg_ptr, msg_len)
    }

    /// The orderly-shutdown sentinel: task id 0, no data.
    pub fn shutdown_message() -> (r: TaskEventMessage)
        ensures
            r == stamped(0, TaskStatus::WorkerShutdown, DataPayload::Empty),
    {
        TaskEventMessage {
            header: MessageHeader {
                magic: PROTOCOL_MAGIC,
                version: PROTOCOL_VERSION,
                data_type: DataType::Empty,
                status: TaskStatus::WorkerShutdown,
                task_id: 0,
            },
            payload: DataPayload::Empty,
        }
    }

    /// Whether the status is a success.
    pub fn is_success(&self) -> (r: bool)
        ensures
            r == self.success(),
    {
        match self.header.status {
            TaskStatus::Success | TaskStatus::SuccessWithData => true,
            _ => false,
        }
    }

    /// Whether the status is an error.
    pub fn is_error(&self) -> (r: bool)
        ensures
            r == self.error(),
    {
        !self.is_success() && !matches!(self.header.status, TaskStatus::WorkerShutdown)
    }

    /// Whether magic and version are the current ones.
    pub fn is_valid(&self) -> (r: bool)
        ensures
            r == (self.header.magic == PROTOCOL_MAGIC && self.header.version == PROTOCOL_VERSION),
    {
        self.header.magic == PROTOCOL_MAGIC && self.header.version == PROTOCOL_VERSION
    }

    /// Serialized size of every message.
    pub fn total_size(&self) -> (r: usize)
        ensures
            r == MESSAGE_SIZE,
    {
        MESSAGE_SIZE
    }
}

/// Little-endian bytes of a 16-bit value.
pub open spec fn u16_le(x: u16) -> Seq<u8> {
    seq![x as u8, (x >> 8u16) as u8]
}

/// Little-endian bytes of a 32-bit value.
pub open spec fn u32_le(x: u32) -> Seq<u8> {
    seq![x as u8, (x >> 8u32) as u8, (x >> 16u32) as u8, (x >> 24u32) as u8]
}

/// Little-endian bytes of a 64-bit value.
pub open spec fn u64_le(x: u64) -> Seq<u8> {
    seq![
        x as u8,
        (x >> 8u64) as u8,
        (x >> 16u64) as u8,
        (x >> 24u64) as u8,
        (x >> 32u64) as u8,
        (x >> 40u64) as u8,
        (x >> 48u64) as u8,
        (x >> 56u64) as u8,
    ]
}

/// The 16-bit value stored little-endian at `at`.
pub open spec fn u16_at(s: Seq<u8>, at: int) -> u16 {
    (s[at] as u16) | ((s[at + 1] as u16) << 8u16)
}

/// The 32-bit value stored little-endian at `at`.
pub open spec fn u32_at(s: Seq<u8>, at: int) -> u32 {
    (s[at] as u32) | ((s[at + 1] as u32) << 8u32) | ((s[at + 2] as u32) << 16u32) | ((s[at
        + 3] as u32) << 24u32)
}

/// The 64-bit value stored little-endian at `at`.
pub open spec fn u64_at(s: Seq<u8>, at: int) -> u64 {
    (s[at] as u64) | ((s[at + 1] as u64) << 8u64) | ((s[at + 2] as u64) << 16u64) | ((s[at
        + 3] as u64) << 24u64) | ((s[at + 4] as u64) << 32u64) | ((s[at + 5] as u64) << 40u64)
        | ((s[at + 6] as u64) << 48u64) | ((s[at + 7] as u64) << 56u64)
}

/// `n` zero bytes.
pub open spec fn zeros(n: nat) -> Seq<u8> {
    Seq::new(n, |i: int| 0u8)
}

/// The 16 payload bytes: inline values first, unused bytes zero; a buffer or
/// text as its address then its length.
pub open spec fn payload_bytes(p: DataPayload) -> Seq<u8> {
    match p {
        DataPayload::Empty => zeros(16),
        DataPayload::Bool(b) => seq![if b { 1u8 } else { 0u8 }] + zeros(15),
        DataPayload::U64(v) => u64_le(v) + zeros(8),
        DataPayload::Bytes(d) => u64_le(d.ptr as u64) + u64_le(d.len as u64),
        DataPayload::String(d) => u64_le(d.ptr as u64) + u64_le(d.len as u64),
    }
}

/// The 32 bytes of a message: magic, version, kind, status and task id,
/// then the payload.
pub open spec fn message_bytes(m: TaskEventMessage) -> Seq<u8> {
    u32_le(m.header.magic) + seq![m.header.version, data_type_code(m.header.data_type)] + u16_le(
        status_code(m.header.status),
    ) + u64_le(m.header.task_id) + payload_bytes(m.payload)
}

/// The payload of kind `d` read from message bytes.
pub open spec fn payload_at(d: DataType, s: Seq<u8>) -> DataPayload {
    match d {
        DataType::Empty => DataPayload::Empty,
        DataType::Bool => DataPayload::Bool(s[16] != 0),
        DataType::U64 => DataPayload::U64(u64_at(s, 16)),
        DataType::Bytes => DataPayload::Bytes(
            BytesData { ptr: u64_at(s, 16) as usize, len: u64_at(s, 24) as usize },
        ),
        DataType::String => DataPayload::String(
            StringData { ptr: u64_at(s, 16) as usize, len: u64_at(s, 24) as usize },
        ),
    }
}

/// The message that bytes hold: none when fewer than 32 bytes are given,
/// when magic or version differ from the current ones, or when the kind or
/// status code is unknown. Bytes past the 32nd are ignored.
pub open spec fn parse_message(s: Seq<u8>) -> Option<TaskEventMessage> {
    if s.len() < MESSAGE_SIZE {
        None
    } else if u32_at(s, 0) != PROTOCOL_MAGIC || s[4] != PROTOCOL_VERSION {
        None
    } else {
        match (data_type_of_code(s[5]), status_of_code(u16_at(s, 6))) {
            (Some(d), Some(st)) => Some(
                TaskEventMessage {
                    header: MessageHeader {
                        magic: PROTOCOL_MAGIC,
                        version: PROTOCOL_VERSION,
                        data_type: d,
                        status: st,
                        task_id: u64_at(s, 8),
                    },
                    payload: payload_at(d, s),
                },
            ),
            _ => None,
        }
    }
}

fn push_u16_le(v: &mut Vec<u8>, x: u16)
    ensures
        final(v)@ == old(v)@ + u16_le(x),
{
    v.push(x as u8);
    v.push((x >> 8u16) as u8);
    proof {
        assert(final(v)@ =~= old(v)@ + u16_le(x));
    }
}

fn push_u32_le(v: &mut Vec<u8>, x: u32)
    ensures
        final(v)@ == old(v)@ + u32_le(x),
{
    v.push(x as u8);
    v.push((x >> 8u32) as u8);
    v.push((x >> 16u32) as u8);
    v.push((x >> 24u32) as u8);
    proof {
        assert(final(v)@ =~= old(v)@ + u32_le(x));
    }
}

fn push_u64_le(v: &mut Vec<u8>, x: u64)
    ensures
        final(v)@ == old(v)@ + u64_le(x),
{
    v.push(x as u8);
    v.push((x >> 8u64) as u8);
    v.push((x >> 16u64) as u8);
    v.push((x >> 24u64) as u8);
    v.push((x >> 32u64) as u8);
    v.push((x >> 40u64) as u8);
    v.push((x >> 48u64) as u8);
    v.push((x >> 56u64) as u8);
    proof {
        assert(final(v)@ =~= old(v)@ + u64_le(x));
    }
}

fn push_zeros(v: &mut Vec<u8>, n: usize)
    ensures
        final(v)@ == old(v)@ + zeros(n as nat),
{
    let mut i: usize = 0;
    while i < n
        invariant
            i <= n,
            v@ == old(v)@ + zeros(i as nat),
        decreases n - i,
    {
        v.push(0u8);
        i = i + 1;
        proof {
            assert(v@ =~= old(v)@ + zeros(i as nat));
        }
    }
}

fn read_u16_le(data: &[u8], at: usize) -> (r: u16)
    requires
        at + 2 <= data@.len(),
    ensures
        r == u16_at(data@, at as int),
{
    (data[at] as u16) | ((data[at + 1] as u16) << 8u16)
}

fn read_u32_le(data: &[u8], at: usize) -> (r: u32)
    requires
        at + 4 <= data@.len(),
    ensures
        r == u32_at(data@, at as int),
{
    (data[at] as u32) | ((data[at + 1] as u32) << 8u32) | ((data[at + 2] as u32) << 16u32) | ((
    data[at + 3] as u32) << 24u32)
}

fn read_u64_le(data: &[u8], at: usize) -> (r: u64)
    requires
        at + 8 <= data@.len(),
    ensures
        r == u64_at(data@, at as int),
{
    (data[at] as u64) | ((data[at + 1] as u64) << 8u64) | ((data[at + 2] as u64) << 16u64) | ((
    data[at + 3] as u64) << 24u64) | ((data[at + 4] as u64) << 32u64) | ((data[at + 5] as u64)
        << 40u64) | ((data[at + 6] as u64) << 48u64) | ((data[at + 7] as u64) << 56u64)
}

proof fn lemma_u16_at(t: Seq<u8>, at: int, x: u16)
    requires
        0 <= at,
        at + 2 <= t.len(),
        t.subrange(at, at + 2) == u16_le(x),
    ensures
        u16_at(t, at) == x,
{
    assert(t[at] == t.subrange(at, at + 2)[0]);
    assert(t[at + 1] == t.subrange(at, at + 2)[1]);
    assert(((x as u8) as u16) | ((((x >> 8u16) as u8) as u16) << 8u16) == x) by (bit_vector);
}

proof fn lemma_u32_at(t: Seq<u8>, at: int, x: u32)
    requires
        0 <= at,
        at + 4 <= t.len(),
        t.subrange(at, at + 4) == u32_le(x),
    ensures
        u32_at(t, at) == x,
{
    let w = t.subrange(at, at + 4);
    assert(t[at] == w[0] && t[at + 1] == w[1] && t[at + 2] == w[2] && t[at + 3] == w[3]);
    assert(((x as u8) as u32) | ((((x >> 8u32) as u8) as u32) << 8u32) | ((((x >> 16u32) as u8)
        as u32) << 16u32) | ((((x >> 24u32) as u8) as u32) << 24u32) == x) by (bit_vector);
}

proof fn lemma_u64_at(t: Seq<u8>, at: int, x: u64)
    requires
        0 <= at,
        at + 8 <= t.len(),
        t.subrange(at, at + 8) == u64_le(x),
    ensures
        u64_at(t, at) == x,
{
    let w = t.subrange(at, at + 8);
    assert(t[at] == w[0] && t[at + 1] == w[1] && t[at + 2] == w[2] && t[at + 3] == w[3]);
    assert(t[at + 4] == w[4] && t[at + 5] == w[5] && t[at + 6] == w[6] && t[at + 7] == w[7]);
    assert(((x as u8) as u64) | ((((x >> 8u64) as u8) as u64) << 8u64) | ((((x >> 16u64) as u8)
        as u64) << 16u64) | ((((x >> 24u64) as u8) as u64) << 24u64) | ((((x >> 32u64) as u8)
        as u64) << 32u64) | ((((x >> 40u64) as u8) as u64) << 40u64) | ((((x >> 48u64) as u8)
        as u64) << 48u64) | ((((x >> 56u64) as u8) as u64) << 56u64) == x) by (bit_vector);
}

/// Serializing a well-formed message and parsing the bytes gives the same
/// message back: every header field, an inline value exactly, and for a
/// buffer or text payload its address and length.
pub proof fn lemma_serialize_round_trip(m: TaskEventMessage)
    requires
        m.wf(),
        m.header.magic == PROTOCOL_MAGIC,
        m.header.version == PROTOCOL_VERSION,
    ensures
        parse_message(message_bytes(m)) == Some(m),
{
    let s = message_bytes(m);
    let h = u32_le(m.header.magic) + seq![m.header.version, data_type_code(m.header.data_type)]
        + u16_le(status_code(m.header.status)) + u64_le(m.header.task_id);
    let p = payload_bytes(m.payload);
    assert(s == h + p);
    assert(s.len() == 32);
    assert(s.subrange(0, 4) =~= u32_le(m.header.magic));
    lemma_u32_at(s, 0, m.header.magic);
    assert(s[4] == m.header.version);
    assert(s[5] == data_type_code(m.header.data_type));
    assert(s.subrange(6, 8) =~= u16_le(status_code(m.header.status)));
    lemma_u16_at(s, 6, status_code(m.header.status));
    assert(s.subrange(8, 16) =~= u64_le(m.header.task_id));
    lemma_u64_at(s, 8, m.header.task_id);
    match m.payload {
        DataPayload::Empty => {},
        DataPayload::Bool(b) => {
            assert(s[16] == p[0]);
        },
        DataPayload::U64(v) => {
            assert(s.subrange(16, 24) =~= u64_le(v));
            lemma_u64_at(s, 16, v);
        },
        DataPayload::Bytes(d) => {
            assert(s.subrange(16, 24) =~= u64_le(d.ptr as u64));
            lemma_u64_at(s, 16, d.ptr as u64);
            assert(s.subrange(24, 32) =~= u64_le(d.len as u64));
            lemma_u64_at(s, 24, d.len as u64);
        },
        DataPayload::String(d) => {
            assert(s.subrange(16, 24) =~= u64_le(d.ptr as u64));
            lemma_u64_at(s, 16, d.ptr as u64);
            assert(s.subrange(24, 32) =~= u64_le(d.len as u64));
            lemma_u64_at(s, 24, d.len as u64);
        },
    }
}

/// Fewer than 32 bytes, or 32 or more whose first four do not hold the
/// magic number, parse to nothing.
pub proof fn lemma_parse_rejects(s: Seq<u8>)
    ensures
        s.len() < MESSAGE_SIZE ==> parse_message(s) is None,
        s.len() >= MESSAGE_SIZE && u32_at(s, 0) != PROTOCOL_MAGIC ==> parse_message(s) is None,
        s.len() >= MESSAGE_SIZE && s[4] != PROTOCOL_VERSION ==> parse_message(s) is None,
{
}

/// Every message a constructor builds is well formed and carries the
/// current magic and version.
pub proof fn lemma_stamped_wf(task_id: u64, status: TaskStatus, payload: DataPayload)
    ensures
        stamped(task_id, status, payload).wf(),
        stamped(task_id, status, payload).header.magic == PROTOCOL_MAGIC,
        stamped(task_id, status, payload).header.version == PROTOCOL_VERSION,
{
}

/// Fixed-size serializer for result messages.
pub struct MessageSerializer;

impl MessageSerializer {
    /// The message's 32 bytes; a buffer or text payload contributes only its
    /// address and length.
    pub fn serialize(msg: &TaskEventMessage) -> (r: Vec<u8>)
        ensures
            r@ == message_bytes(*msg),
            r@.len() == MESSAGE_SIZE,
    {
        let mut buffer: Vec<u8> = Vec::with_capacity(MESSAGE_SIZE);
        push_u32_le(&mut buffer, msg.header.magic);
        buffer.push(msg.header.version);
        buffer.push(msg.header.data_type.code());
        push_u16_le(&mut buffer, msg.header.status.code());
        push_u64_le(&mut buffer, msg.header.task_id);
        match msg.payload {
            DataPayload::Empty => push_zeros(&mut buffer, 16),
            DataPayload::Bool(b) => {
                buffer.push(if b { 1u8 } else { 0u8 });
                push_zeros(&mut buffer, 15);
            },
            DataPayload::U64(v) => {
                push_u64_le(&mut buffer, v);
                push_zeros(&mut buffer, 8);
            },
            DataPayload::Bytes(d) => {
                push_u64_le(&mut buffer, d.ptr as u64);
                push_u64_le(&mut buffer, d.len as u64);
            },
            DataPayload::String(d) => {
                push_u64_le(&mut buffer, d.ptr as u64);
                push_u64_le(&mut buffer, d.len as u64);
            },
        }
        proof {
            let h = u32_le(msg.header.magic) + seq![msg.header.version, data_type_code(msg.header.data_type)] + u16_le(status_code(msg.header.status)) + u64_le(msg.header.task_id);
            assert(buffer@ =~= h + payload_bytes(msg.payload));
        }
        buffer
    }

    /// The message that `data` holds; none when it is shorter than 32 bytes,
    /// carries another magic or version, or an unknown kind or status.
    pub fn deserialize(data: &[u8]) -> (r: Option<TaskEventMessage>)
        ensures
            r == parse_message(data@),
    {
        if data.len() < MESSAGE_SIZE {
            return None;
        }
        let magic = read_u32_le(data, 0);
        if magic != PROTOCOL_MAGIC || data[4] != PROTOCOL_VERSION {
            return None;
        }
        let data_type = match DataType::from_code(data[5]) {
            Some(d) => d,
            None => return None,
        };
        let status = match TaskStatus::from_code(read_u16_le(data, 6)) {
            Some(st) => st,
            None => return None,
        };
        let payload = match data_type {
            DataType::Empty => DataPayload::Empty,
            DataType::Bool => DataPayload::Bool(data[16] != 0),
            DataType::U64 => DataPayload::U64(read_u64_le(data, 16)),
            DataType::Bytes => DataPayload::Bytes(
                BytesData { ptr: read_u64_le(data, 16) as usize, len: read_u64_le(data, 24) as usize },
            ),
            DataType::String => DataPayload::String(
                StringData { ptr: read_u64_le(data, 16) as usize, len: read_u64_le(data, 24) as usize },
            ),
        };
        Some(
            TaskEventMessage {
                header: MessageHeader {
                    magic: PROTOCOL_MAGIC,
                    version: PROTOCOL_VERSION,
                    data_type,
                    status,
                    task_id: read_u64_le(data, 8),
                },
                payload,
            },
        )
    }

    /// The address and length of a non-empty buffer or text payload with a
    /// non-null address; none otherwise.
    pub fn get_data_pointer(msg: &TaskEventMessage) -> (r: Option<(usize, usize)>)
        ensures
            r == (match msg.payload {
                DataPayload::Bytes(d) => if d.ptr != 0 && d.len > 0 {
                    Some((d.ptr, d.len))
                } else {
                    None
                },
                DataPayload::String(d) => if d.ptr != 0 && d.len > 0 {
                    Some((d.ptr, d.len))
                } else {
                    None
                },
                _ => None,
            }),
    {
        match msg.payload {
            DataPayload::Bytes(d) => if d.ptr != 0 && d.len > 0 {
                Some((d.ptr, d.len))
            } else {
                None
            },
            DataPayload::String(d) => if d.ptr != 0 && d.len > 0 {
                Some((d.ptr, d.len))
            } else {
                None
            },
            _ => None,
        }
    }
}

} // verus!
