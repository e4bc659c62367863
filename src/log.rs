//! Where the native library writes its log.

use vstd::prelude::*;

verus! {

/// A log destination that the native library predefines.
#[allow(non_camel_case_types)]
#[derive(Clone, Copy, Debug, PartialEq, Eq, Structural)]
pub enum DefaultLogStream {
    /// A file.
    DefaultLogStream_FILE,
    /// The standard output.
    DefaultLogStream_STDOUT,
    /// The standard error output.
    DefaultLogStream_STDERR,
    /// The debugger (MSVC only).
    DefaultLogStream_DEBUGGER,
}

impl DefaultLogStream {
    /// The native code of this destination.
    pub open spec fn spec_code(&self) -> u32 {
        match *self {
            DefaultLogStream::DefaultLogStream_FILE => 0x1,
            DefaultLogStream::DefaultLogStream_STDOUT => 0x2,
            DefaultLogStream::DefaultLogStream_STDERR => 0x4,
            DefaultLogStream::DefaultLogStream_DEBUGGER => 0x8,
        }
    }

    /// The native code of this destination.
    pub fn code(&self) -> (r: u32)
        ensures
            r == self.spec_code(),
    {
        match self {
            DefaultLogStream::DefaultLogStream_FILE => 0x1,
            DefaultLogStream::DefaultLogStream_STDOUT => 0x2,
            DefaultLogStream::DefaultLogStream_STDERR => 0x4,
            DefaultLogStream::DefaultLogStream_DEBUGGER => 0x8,
        }
    }
}

/// Where to send the log.
#[derive(Clone, Debug)]
pub enum LogStream {
    /// The standard output.
    LogStreamStdout,
    /// The standard error output.
    LogStreamStderr,
    /// The debugger (MSVC only).
    LogStreamDebugger,
    /// The file at the given path.
    LogStreamFile(String),
}

/// The predefined native stream for a log destination, with the path of the
/// file where the destination is one.
pub fn predefined_stream(log_type: &LogStream) -> (r: (DefaultLogStream, Option<&str>))
    ensures
        match *log_type {
            LogStream::LogStreamStdout => r.0 == DefaultLogStream::DefaultLogStream_STDOUT && r.1 is None,
            LogStream::LogStreamStderr => r.0 == DefaultLogStream::DefaultLogStream_STDERR && r.1 is None,
            LogStream::LogStreamDebugger => r.0 == DefaultLogStream::DefaultLogStream_DEBUGGER && r.1 is None,
            LogStream::LogStreamFile(path) => r.0 == DefaultLogStream::DefaultLogStream_FILE && (r.1 matches Some(p) && p@ == path@),
        },
{
    match log_type {
        LogStream::LogStreamStdout => (DefaultLogStream::DefaultLogStream_STDOUT, None),
        LogStream::LogStreamStderr => (DefaultLogStream::DefaultLogStream_STDERR, None),
        LogStream::LogStreamDebugger => (DefaultLogStream::DefaultLogStream_DEBUGGER, None),
        LogStream::LogStreamFile(path) => (DefaultLogStream::DefaultLogStream_FILE, Some(path.as_str())),
    }
}

} // verus!
