//! Result codes for operations that cross the binding boundary.
//!
//! Codes are grouped: 0 is success, 1-99 generic errors, 100-199 connection
//! errors, 200-299 stream errors, 300-399 datagram errors and 400-499
//! configuration and parameter errors.
use vstd::prelude::*;

verus! {

/// Result code of an operation.
#[derive(Clone, Copy, Debug, PartialEq, Eq, Structural)]
pub enum QuicResult {
    /// Operation succeeded.
    Success,
    /// Unknown error.
    UnknownError,
    /// Runtime error.
    RuntimeError,
    /// I/O error.
    IoError,
    /// Timeout.
    Timeout,
    /// Resource exhausted.
    ResourceExhausted,
    /// Invalid operation.
    InvalidOperation,
    /// Internal error.
    InternalError,
    /// Operation cancelled.
    Cancelled,
    /// Connection failed.
    ConnectionFailed,
    /// Connection closed.
    ConnectionClosed,
    /// Connection lost.
    ConnectionLost,
    /// Connection reset.
    ConnectionReset,
    /// Version mismatch.
    VersionMismatch,
    /// Transport layer error.
    TransportError,
    /// Closed by the application.
    ApplicationClosed,
    /// Endpoint closed.
    EndpointClosed,
    /// Handshake failed.
    HandshakeFailed,
    /// TLS error.
    TlsError,
    /// Certificate error.
    CertificateError,
    /// Stream operation error.
    StreamError,
    /// Stream closed.
    StreamClosed,
    /// Stream reset.
    StreamReset,
    /// Stream stopped.
    StreamStopped,
    /// 0-RTT rejected.
    ZeroRttRejected,
    /// Buffer too small.
    BufferTooSmall,
    /// No more data.
    NoMoreData,
    /// Datagrams disabled.
    DatagramDisabled,
    /// Datagram too large.
    DatagramTooLarge,
    /// Unsupported by the peer.
    UnsupportedByPeer,
    /// Invalid parameter.
    InvalidParameter,
    /// Configuration error.
    ConfigError,
    /// Address parse error.
    AddressParseError,
    /// File not found.
    FileNotFound,
    /// Format error.
    FormatError,
}

/// Numeric value of a result code.
pub open spec fn result_code(r: QuicResult) -> i32 {
    match r {
        QuicResult::Success => 0,
        QuicResult::UnknownError => 1,
        QuicResult::RuntimeError => 2,
        QuicResult::IoError => 3,
        QuicResult::Timeout => 4,
        QuicResult::ResourceExhausted => 5,
        QuicResult::InvalidOperation => 6,
        QuicResult::InternalError => 7,
        QuicResult::Cancelled => 8,
        QuicResult::ConnectionFailed => 100,
        QuicResult::ConnectionClosed => 101,
        QuicResult::ConnectionLost => 102,
        QuicResult::ConnectionReset => 103,
        QuicResult::VersionMismatch => 104,
        QuicResult::TransportError => 105,
        QuicResult::ApplicationClosed => 106,
        QuicResult::EndpointClosed => 107,
        QuicResult::HandshakeFailed => 108,
        QuicResult::TlsError => 109,
        QuicResult::CertificateError => 110,
        QuicResult::StreamError => 200,
        QuicResult::StreamClosed => 201,
        QuicResult::StreamReset => 202,
        QuicResult::StreamStopped => 203,
        QuicResult::ZeroRttRejected => 204,
        QuicResult::BufferTooSmall => 205,
        QuicResult::NoMoreData => 206,
        QuicResult::DatagramDisabled => 300,
        QuicResult::DatagramTooLarge => 301,
        QuicResult::UnsupportedByPeer => 302,
        QuicResult::InvalidParameter => 400,
        QuicResult::ConfigError => 401,
        QuicResult::AddressParseError => 402,
        QuicResult::FileNotFound => 403,
        QuicResult::FormatError => 404,
    }
}

/// The result code with a numeric value; unknown values read as `UnknownError`.
pub open spec fn result_of_code(v: i32) -> QuicResult {
    if v == 0 {
        QuicResult::Success
    } else if v == 1 {
        QuicResult::UnknownError
    } else if v == 2 {
        QuicResult::RuntimeError
    } else if v == 3 {
        QuicResult::IoError
    } else if v == 4 {
        QuicResult::Timeout
    } else if v == 5 {
        QuicResult::ResourceExhausted
    } else if v == 6 {
        QuicResult::InvalidOperation
    } else if v == 7 {
        QuicResult::InternalError
    } else if v == 8 {
        QuicResult::Cancelled
    } else if v == 100 {
        QuicResult::ConnectionFailed
    } else if v == 101 {
        QuicResult::ConnectionClosed
    } else if v == 102 {
        QuicResult::ConnectionLost
    } else if v == 103 {
        QuicResult::ConnectionReset
    } else if v == 104 {
        QuicResult::VersionMismatch
    } else if v == 105 {
        QuicResult::TransportError
    } else if v == 106 {
        QuicResult::ApplicationClosed
    } else if v == 107 {
        QuicResult::EndpointClosed
    } else if v == 108 {
        QuicResult::HandshakeFailed
    } else if v == 109 {
        QuicResult::TlsError
    } else if v == 110 {
        QuicResult::CertificateError
    } else if v == 200 {
        QuicResult::StreamError
    } else if v == 201 {
        QuicResult::StreamClosed
    } else if v == 202 {
        QuicResult::StreamReset
    } else if v == 203 {
        QuicResult::StreamStopped
    } else if v == 204 {
        QuicResult::ZeroRttRejected
    } else if v == 205 {
        QuicResult::BufferTooSmall
    } else if v == 206 {
        QuicResult::NoMoreData
    } else if v == 300 {
        QuicResult::DatagramDisabled
    } else if v == 301 {
        QuicResult::DatagramTooLarge
    } else if v == 302 {
        QuicResult::UnsupportedByPeer
    } else if v == 400 {
        QuicResult::InvalidParameter
    } else if v == 401 {
        QuicResult::ConfigError
    } else if v == 402 {
        QuicResult::AddressParseError
    } else if v == 403 {
        QuicResult::FileNotFound
    } else if v == 404 {
        QuicResult::FormatError
    } else {
        QuicResult::UnknownError
    }
}

impl QuicResult {
    /// Numeric value of this code.
    pub fn code(self) -> (r: i32)
        ensures
            r == result_code(self),
    {
        match self {
            QuicResult::Success => 0,
            QuicResult::UnknownError => 1,
            QuicResult::RuntimeError => 2,
            QuicResult::IoError => 3,
            QuicResult::Timeout => 4,
            QuicResult::ResourceExhausted => 5,
            QuicResult::InvalidOperation => 6,
            QuicResult::InternalError => 7,
            QuicResult::Cancelled => 8,
            QuicResult::ConnectionFailed => 100,
            QuicResult::ConnectionClosed => 101,
            QuicResult::ConnectionLost => 102,
            QuicResult::ConnectionReset => 103,
            QuicResult::VersionMismatch => 104,
            QuicResult::TransportError => 105,
            QuicResult::ApplicationClosed => 106,
            QuicResult::EndpointClosed => 107,
            QuicResult::HandshakeFailed => 108,
            QuicResult::TlsError => 109,
            QuicResult::CertificateError => 110,
            QuicResult::StreamError => 200,
            QuicResult::StreamClosed => 201,
            QuicResult::StreamReset => 202,
            QuicResult::StreamStopped => 203,
            QuicResult::ZeroRttRejected => 204,
            QuicResult::BufferTooSmall => 205,
            QuicResult::NoMoreData => 206,
            QuicResult::DatagramDisabled => 300,
            QuicResult::DatagramTooLarge => 301,
            QuicResult::UnsupportedByPeer => 302,
            QuicResult::InvalidParameter => 400,
            QuicResult::ConfigError => 401,
            QuicResult::AddressParseError => 402,
            QuicResult::FileNotFound => 403,
            QuicResult::FormatError => 404,
        }
    }

    /// Whether this is success.
    pub fn is_success(&self) -> (r: bool)
        ensures
            r == (*self == QuicResult::Success),
    {
        matches!(self, QuicResult::Success)
    }

    /// Whether this is a connection error (100-199).
    pub fn is_connection_error(&self) -> (r: bool)
        ensures
            r == (100 <= result_code(*self) < 200),
    {
        let code = self.code();
        100 <= code && code < 200
    }

    /// Whether this is a stream error (200-299).
    pub fn is_stream_error(&self) -> (r: bool)
        ensures
            r == (200 <= result_code(*self) < 300),
    {
        let code = self.code();
        200 <= code && code < 300
    }

    /// The code with a numeric value; unknown values read as `UnknownError`.
    pub fn from_i32(value: i32) -> (r: QuicResult)
        ensures
            r == result_of_code(value),
    {
        if value == 0 {
            QuicResult::Success
        } else if value == 1 {
            QuicResult::UnknownError
        } else if value == 2 {
            QuicResult::RuntimeError
        } else if value == 3 {
            QuicResult::IoError
        } else if value == 4 {
            QuicResult::Timeout
        } else if value == 5 {
            QuicResult::ResourceExhausted
        } else if value == 6 {
            QuicResult::InvalidOperation
        } else if value == 7 {
            QuicResult::InternalError
        } else if value == 8 {
            QuicResult::Cancelled
        } else if value == 100 {
            QuicResult::ConnectionFailed
        } else if value == 101 {
            QuicResult::ConnectionClosed
        } else if value == 102 {
            QuicResult::ConnectionLost
        } else if value == 103 {
            QuicResult::ConnectionReset
        } else if value == 104 {
            QuicResult::VersionMismatch
        } else if value == 105 {
            QuicResult::TransportError
        } else if value == 106 {
            QuicResult::ApplicationClosed
        } else if value == 107 {
            QuicResult::EndpointClosed
        } else if value == 108 {
            QuicResult::HandshakeFailed
        } else if value == 109 {
            QuicResult::TlsError
        } else if value == 110 {
            QuicResult::CertificateError
        } else if value == 200 {
            QuicResult::StreamError
        } else if value == 201 {
            QuicResult::StreamClosed
        } else if value == 202 {
            QuicResult::StreamReset
        } else if value == 203 {
            QuicResult::StreamStopped
        } else if value == 204 {
            QuicResult::ZeroRttRejected
        } else if value == 205 {
            QuicResult::BufferTooSmall
        } else if value == 206 {
            QuicResult::NoMoreData
        } else if value == 300 {
            QuicResult::DatagramDisabled
        } else if value == 301 {
            QuicResult::DatagramTooLarge
        } else if value == 302 {
            QuicResult::UnsupportedByPeer
        } else if value == 400 {
            QuicResult::InvalidParameter
        } else if value == 401 {
            QuicResult::ConfigError
        } else if value == 402 {
            QuicResult::AddressParseError
        } else if value == 403 {
            QuicResult::FileNotFound
        } else if value == 404 {
            QuicResult::FormatError
        } else {
            QuicResult::UnknownError
        }
    }
}

impl Default for QuicResult {
    fn default() -> (r: QuicResult)
        ensures
            r == QuicResult::Success,
    {
        QuicResult::Success
    }
}

/// Every code maps to its value and back.
pub proof fn lemma_result_code_round_trip(r: QuicResult)
    ensures
        result_of_code(result_code(r)) == r,
{
}

} // verus!
