//! Error codes of the performance-measurement library.

use vstd::prelude::*;
use vstd::std_specs::convert::FromSpecImpl;
use vstd::string::StringExecFns;

verus! {

/// Error codes defined by the UEFI specification.
#[derive(Debug, Clone, Copy, PartialEq, Eq, Structural)]
pub enum EfiError {
    /// The image failed to load.
    LoadError,
    /// A parameter was incorrect.
    InvalidParameter,
    /// The operation is not supported.
    Unsupported,
    /// The buffer was not the proper size for the request.
    BadBufferSize,
    /// The buffer is not large enough to hold the requested data.
    BufferTooSmall,
    /// There is no data pending upon return.
    NotReady,
    /// The physical device reported an error while attempting the operation.
    DeviceError,
    /// The device cannot be written to.
    WriteProtected,
    /// A resource has run out.
    OutOfResources,
    /// An inconstancy was detected on the file system.
    VolumeCorrupted,
    /// There is no more space on the file system.
    VolumeFull,
    /// The device does not contain any medium to perform the operation.
    NoMedia,
    /// The medium in the device has changed since the last access.
    MediaChanged,
    /// The item was not found.
    NotFound,
    /// Access was denied.
    AccessDenied,
    /// The server was not found or did not respond to the request.
    NoResponse,
    /// A mapping to a device does not exist.
    NoMapping,
    /// The timeout time expired.
    Timeout,
    /// The protocol has not been started.
    NotStarted,
    /// The protocol has already been started.
    AlreadyStarted,
    /// The operation was aborted.
    Aborted,
    /// An ICMP error occurred during the network operation.
    IcmpError,
    /// A TFTP error occurred during the network operation.
    TftpError,
    /// A protocol error occurred during the network operation.
    ProtocolError,
    /// The function encountered an internal version that was incompatible with the requested one.
    IncompatibleVersion,
    /// The function was not performed due to a security violation.
    SecurityViolation,
    /// A CRC error was detected.
    CrcError,
    /// Beginning or end of media was reached.
    EndOfMedia,
    /// The end of the file was reached.
    EndOfFile,
    /// The language specified was invalid.
    InvalidLanguage,
    /// The security status of the data is unknown or compromised.
    CompromisedData,
    /// There is an address conflict during address allocation.
    IpAddressConflict,
    /// A HTTP error occurred during the network operation.
    HttpError,
}

impl EfiError {
    /// The number that the UEFI specification assigns to this error, without the error bit.
    pub open spec fn number(self) -> int {
        match self {
            EfiError::LoadError => 1,
            EfiError::InvalidParameter => 2,
            EfiError::Unsupported => 3,
            EfiError::BadBufferSize => 4,
            EfiError::BufferTooSmall => 5,
            EfiError::NotReady => 6,
            EfiError::DeviceError => 7,
            EfiError::WriteProtected => 8,
            EfiError::OutOfResources => 9,
            EfiError::VolumeCorrupted => 10,
            EfiError::VolumeFull => 11,
            EfiError::NoMedia => 12,
            EfiError::MediaChanged => 13,
            EfiError::NotFound => 14,
            EfiError::AccessDenied => 15,
            EfiError::NoResponse => 16,
            EfiError::NoMapping => 17,
            EfiError::Timeout => 18,
            EfiError::NotStarted => 19,
            EfiError::AlreadyStarted => 20,
            EfiError::Aborted => 21,
            EfiError::IcmpError => 22,
            EfiError::TftpError => 23,
            EfiError::ProtocolError => 24,
            EfiError::IncompatibleVersion => 25,
            EfiError::SecurityViolation => 26,
            EfiError::CrcError => 27,
            EfiError::EndOfMedia => 28,
            EfiError::EndOfFile => 31,
            EfiError::InvalidLanguage => 32,
            EfiError::CompromisedData => 33,
            EfiError::IpAddressConflict => 34,
            EfiError::HttpError => 35,
        }
    }

    /// The name of the variant, as text.
    pub open spec fn name(self) -> Seq<char> {
        match self {
            EfiError::LoadError => "LoadError"@,
            EfiError::InvalidParameter => "InvalidParameter"@,
            EfiError::Unsupported => "Unsupported"@,
            EfiError::BadBufferSize => "BadBufferSize"@,
            EfiError::BufferTooSmall => "BufferTooSmall"@,
            EfiError::NotReady => "NotReady"@,
            EfiError::DeviceError => "DeviceError"@,
            EfiError::WriteProtected => "WriteProtected"@,
            EfiError::OutOfResources => "OutOfResources"@,
            EfiError::VolumeCorrupted => "VolumeCorrupted"@,
            EfiError::VolumeFull => "VolumeFull"@,
            EfiError::NoMedia => "NoMedia"@,
            EfiError::MediaChanged => "MediaChanged"@,
            EfiError::NotFound => "NotFound"@,
            EfiError::AccessDenied => "AccessDenied"@,
            EfiError::NoResponse => "NoResponse"@,
            EfiError::NoMapping => "NoMapping"@,
            EfiError::Timeout => "Timeout"@,
            EfiError::NotStarted => "NotStarted"@,
            EfiError::AlreadyStarted => "AlreadyStarted"@,
            EfiError::Aborted => "Aborted"@,
            EfiError::IcmpError => "IcmpError"@,
            EfiError::TftpError => "TftpError"@,
            EfiError::ProtocolError => "ProtocolError"@,
            EfiError::IncompatibleVersion => "IncompatibleVersion"@,
            EfiError::SecurityViolation => "SecurityViolation"@,
            EfiError::CrcError => "CrcError"@,
            EfiError::EndOfMedia => "EndOfMedia"@,
            EfiError::EndOfFile => "EndOfFile"@,
            EfiError::InvalidLanguage => "InvalidLanguage"@,
            EfiError::CompromisedData => "CompromisedData"@,
            EfiError::IpAddressConflict => "IpAddressConflict"@,
            EfiError::HttpError => "HttpError"@,
        }
    }

    /// Returns the number that the UEFI specification assigns to this error, without the
    /// error bit.
    pub fn code(self) -> (code: usize)
        ensures
            code == self.number(),
    {
        match self {
            EfiError::LoadError => 1,
            EfiError::InvalidParameter => 2,
            EfiError::Unsupported => 3,
            EfiError::BadBufferSize => 4,
            EfiError::BufferTooSmall => 5,
            EfiError::NotReady => 6,
            EfiError::DeviceError => 7,
            EfiError::WriteProtected => 8,
            EfiError::OutOfResources => 9,
            EfiError::VolumeCorrupted => 10,
            EfiError::VolumeFull => 11,
            EfiError::NoMedia => 12,
            EfiError::MediaChanged => 13,
            EfiError::NotFound => 14,
            EfiError::AccessDenied => 15,
            EfiError::NoResponse => 16,
            EfiError::NoMapping => 17,
            EfiError::Timeout => 18,
            EfiError::NotStarted => 19,
            EfiError::AlreadyStarted => 20,
            EfiError::Aborted => 21,
            EfiError::IcmpError => 22,
            EfiError::TftpError => 23,
            EfiError::ProtocolError => 24,
            EfiError::IncompatibleVersion => 25,
            EfiError::SecurityViolation => 26,
            EfiError::CrcError => 27,
            EfiError::EndOfMedia => 28,
            EfiError::EndOfFile => 31,
            EfiError::InvalidLanguage => 32,
            EfiError::CompromisedData => 33,
            EfiError::IpAddressConflict => 34,
            EfiError::HttpError => 35,
        }
    }

    /// Returns the name of the variant.
    pub fn as_str(self) -> (name: &'static str)
        ensures
            name@ == self.name(),
    {
        match self {
            EfiError::LoadError => "LoadError",
            EfiError::InvalidParameter => "InvalidParameter",
            EfiError::Unsupported => "Unsupported",
            EfiError::BadBufferSize => "BadBufferSize",
            EfiError::BufferTooSmall => "BufferTooSmall",
            EfiError::NotReady => "NotReady",
            EfiError::DeviceError => "DeviceError",
            EfiError::WriteProtected => "WriteProtected",
            EfiError::OutOfResources => "OutOfResources",
            EfiError::VolumeCorrupted => "VolumeCorrupted",
            EfiError::VolumeFull => "VolumeFull",
            EfiError::NoMedia => "NoMedia",
            EfiError::MediaChanged => "MediaChanged",
            EfiError::NotFound => "NotFound",
            EfiError::AccessDenied => "AccessDenied",
            EfiError::NoResponse => "NoResponse",
            EfiError::NoMapping => "NoMapping",
            EfiError::Timeout => "Timeout",
            EfiError::NotStarted => "NotStarted",
            EfiError::AlreadyStarted => "AlreadyStarted",
            EfiError::Aborted => "Aborted",
            EfiError::IcmpError => "IcmpError",
            EfiError::TftpError => "TftpError",
            EfiError::ProtocolError => "ProtocolError",
            EfiError::IncompatibleVersion => "IncompatibleVersion",
            EfiError::SecurityViolation => "SecurityViolation",
            EfiError::CrcError => "CrcError",
            EfiError::EndOfMedia => "EndOfMedia",
            EfiError::EndOfFile => "EndOfFile",
            EfiError::InvalidLanguage => "InvalidLanguage",
            EfiError::CompromisedData => "CompromisedData",
            EfiError::IpAddressConflict => "IpAddressConflict",
            EfiError::HttpError => "HttpError",
        }
    }
}

/// Error type of the performance library.
#[derive(Debug)]
pub enum Error {
    /// FBPT full, can't add more performance records.
    OutOfResources,
    /// Buffer too small to allocate fbpt.
    BufferTooSmall,
    /// UEFI specification defined error type.
    Efi(EfiError),
    /// Generic serialization error while encoding a performance record or table.
    Serialization,
    /// A performance record exceeded the representable maximum size (u8::MAX bytes).
    RecordTooLarge {
        /// The actual size of the record that exceeded the limit.
        size: usize,
    },
    /// Error returned in place of a failed debug assertion.
    DebugAssert {
        /// The message describing the assertion failure.
        msg: &'static str,
        /// The file where the assertion failed.
        file: &'static str,
        /// The line number where the assertion failed.
        line: u32,
    },
}

impl From<EfiError> for Error {
    fn from(value: EfiError) -> (error: Self) {
        Error::Efi(value)
    }
}

impl FromSpecImpl<EfiError> for Error {
    open spec fn obeys_from_spec() -> bool {
        true
    }

    open spec fn from_spec(value: EfiError) -> Self {
        Error::Efi(value)
    }
}

/// The character that writes the digit `d`, for `d` below ten.
pub open spec fn digit_char(d: nat) -> char {
    if d == 0 {
        '0'
    } else if d == 1 {
        '1'
    } else if d == 2 {
        '2'
    } else if d == 3 {
        '3'
    } else if d == 4 {
        '4'
    } else if d == 5 {
        '5'
    } else if d == 6 {
        '6'
    } else if d == 7 {
        '7'
    } else if d == 8 {
        '8'
    } else {
        '9'
    }
}

/// The decimal notation of `n`, without leading zeros.
pub open spec fn decimal(n: nat) -> Seq<char>
    decreases n,
{
    if n < 10 {
        seq![digit_char(n)]
    } else {
        decimal(n / 10).push(digit_char(n % 10))
    }
}

fn digit_str(d: u64) -> (s: &'static str)
    requires
        d < 10,
    ensures
        s@ == seq![digit_char(d as nat)],
{
    proof {
        reveal_strlit("0");
        reveal_strlit("1");
        reveal_strlit("2");
        reveal_strlit("3");
        reveal_strlit("4");
        reveal_strlit("5");
        reveal_strlit("6");
        reveal_strlit("7");
        reveal_strlit("8");
        reveal_strlit("9");
    }
    let s = if d == 0 {
        "0"
    } else if d == 1 {
        "1"
    } else if d == 2 {
        "2"
    } else if d == 3 {
        "3"
    } else if d == 4 {
        "4"
    } else if d == 5 {
        "5"
    } else if d == 6 {
        "6"
    } else if d == 7 {
        "7"
    } else if d == 8 {
        "8"
    } else {
        "9"
    };
    assert(s@ =~= seq![digit_char(d as nat)]);
    s
}

pub(crate) fn append_decimal(text: &mut String, n: u64)
    ensures
        final(text)@ == old(text)@ + decimal(n as nat),
    decreases n,
{
    if n >= 10 {
        append_decimal(text, n / 10);
    }
    text.append(digit_str(n % 10));
    assert(text@ =~= old(text)@ + decimal(n as nat));
}

impl Error {
    /// The text that describes this error.
    pub open spec fn message(&self) -> Seq<char> {
        match *self {
            Error::OutOfResources => "FBPT buffer full, can't add more performance records."@,
            Error::BufferTooSmall => "Buffer to small to allocate FBPT table"@,
            Error::Efi(efi_error) => efi_error.name(),
            Error::Serialization => "Failed to serialize performance data"@,
            Error::RecordTooLarge { size } => "Performance record size "@ + decimal(size as nat)
                + " exceeds u8::MAX"@,
            Error::DebugAssert { msg, file, line } => "Assertion at "@ + file@ + ":"@ + decimal(
                line as nat,
            ) + ": "@ + msg@,
        }
    }

    /// Returns the text that describes this error.
    pub fn to_string(&self) -> (text: String)
        ensures
            text@ == self.message(),
    {
        match self {
            Error::OutOfResources => String::from_str(
                "FBPT buffer full, can't add more performance records.",
            ),
            Error::BufferTooSmall => String::from_str("Buffer to small to allocate FBPT table"),
            Error::Efi(efi_error) => String::from_str(efi_error.as_str()),
            Error::Serialization => String::from_str("Failed to serialize performance data"),
            Error::RecordTooLarge { size } => {
                let mut text = String::from_str("Performance record size ");
                append_decimal(&mut text, *size as u64);
                text.append(" exceeds u8::MAX");
                text
            },
            Error::DebugAssert { msg, file, line } => {
                let mut text = String::from_str("Assertion at ");
                text.append(file);
                text.append(":");
                append_decimal(&mut text, *line as u64);
                text.append(": ");
                text.append(msg);
                text
            },
        }
    }
}

} // verus!
