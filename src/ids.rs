use vstd::prelude::*;

verus! {

/// Identifier of a process. By convention it equals the identifier of the
/// process's main thread: thread and process identifiers share one space.
#[derive(Clone, Copy, PartialEq, Eq, Structural, PartialOrd, Ord, Hash, Debug)]
pub struct WasiProcessId(pub u32);

impl WasiProcessId {
    /// The raw 32-bit value of this identifier.
    pub fn raw(&self) -> (r: u32)
        ensures
            r == self.0,
    {
        self.0
    }
}

impl From<u32> for WasiProcessId {
    fn from(id: u32) -> (r: Self)
        ensures
            r.0 == id,
    {
        WasiProcessId(id)
    }
}

impl vstd::std_specs::convert::FromSpecImpl<u32> for WasiProcessId {
    open spec fn obeys_from_spec() -> bool {
        true
    }

    open spec fn from_spec(v: u32) -> WasiProcessId {
        WasiProcessId(v)
    }
}

impl From<i32> for WasiProcessId {
    /// Reinterprets the bits of a signed identifier.
    fn from(id: i32) -> (r: Self)
        ensures
            r.0 == id as u32,
    {
        WasiProcessId(id as u32)
    }
}

impl vstd::std_specs::convert::FromSpecImpl<i32> for WasiProcessId {
    open spec fn obeys_from_spec() -> bool {
        true
    }

    open spec fn from_spec(v: i32) -> WasiProcessId {
        WasiProcessId(v as u32)
    }
}

impl From<WasiProcessId> for u32 {
    fn from(val: WasiProcessId) -> (r: u32)
        ensures
            r == val.0,
    {
        val.0
    }
}

impl vstd::std_specs::convert::FromSpecImpl<WasiProcessId> for u32 {
    open spec fn obeys_from_spec() -> bool {
        true
    }

    open spec fn from_spec(v: WasiProcessId) -> u32 {
        v.0
    }
}

impl From<WasiProcessId> for i32 {
    /// Reinterprets the bits of the identifier as a signed value.
    fn from(val: WasiProcessId) -> (r: i32)
        ensures
            r == val.0 as i32,
    {
        val.0 as i32
    }
}

impl vstd::std_specs::convert::FromSpecImpl<WasiProcessId> for i32 {
    open spec fn obeys_from_spec() -> bool {
        true
    }

    open spec fn from_spec(v: WasiProcessId) -> i32 {
        v.0 as i32
    }
}

/// Identifier of a thread, drawn from the same space as process identifiers.
#[derive(Clone, Copy, PartialEq, Eq, Structural, PartialOrd, Ord, Hash, Debug)]
pub struct WasiThreadId(pub u32);

impl WasiThreadId {
    /// The raw 32-bit value of this identifier.
    pub fn raw(&self) -> (r: u32)
        ensures
            r == self.0,
    {
        self.0
    }
}

impl From<u32> for WasiThreadId {
    fn from(id: u32) -> (r: Self)
        ensures
            r.0 == id,
    {
        WasiThreadId(id)
    }
}

impl vstd::std_specs::convert::FromSpecImpl<u32> for WasiThreadId {
    open spec fn obeys_from_spec() -> bool {
        true
    }

    open spec fn from_spec(v: u32) -> WasiThreadId {
        WasiThreadId(v)
    }
}

/// Exit status of a thread or process, an 8-bit value widened to 16 bits.
#[derive(Clone, Copy, PartialEq, Eq, Structural, PartialOrd, Ord, Hash, Debug)]
pub struct ExitCode(pub u16);

impl ExitCode {
    /// The status as a signed integer.
    pub fn raw(&self) -> (r: i32)
        ensures
            r == self.0 as i32,
    {
        self.0 as i32
    }

    /// Whether the status reports success.
    pub fn is_success(&self) -> (r: bool)
        ensures
            r == (self.0 == 0),
    {
        self.0 == 0
    }

    /// The exit status that reports an error number.
    pub fn from_errno(e: Errno) -> (r: ExitCode)
        ensures
            r.0 == e.code() % 256,
    {
        ExitCode(e.raw() % 256)
    }
}

/// The error numbers that this layer reports.
#[derive(Clone, Copy, PartialEq, Eq, Structural, Hash, Debug)]
pub enum Errno {
    /// Operation canceled.
    Canceled,
    /// No child processes.
    Child,
}

impl Errno {
    pub open spec fn code(self) -> u16 {
        match self {
            Errno::Canceled => 11,
            Errno::Child => 12,
        }
    }

    /// The WASI number of this error.
    pub fn raw(&self) -> (r: u16)
        ensures
            r == self.code(),
    {
        match self {
            Errno::Canceled => 11,
            Errno::Child => 12,
        }
    }
}

/// The largest signal number that names a known signal kind.
pub const MAX_SIGNAL: u8 = 32;

/// A signal kind, by its number (hang-up is 1, interrupt 2, and so on).
#[derive(Clone, Copy, PartialEq, Eq, Structural, Hash, Debug)]
pub struct Signal(pub u8);

/// A signal number that names no known signal kind.
#[derive(Clone, Copy, PartialEq, Eq, Structural, Hash, Debug)]
pub struct SignalDeliveryError;

impl Signal {
    pub open spec fn wf(self) -> bool {
        self.0 <= MAX_SIGNAL
    }

    pub open spec fn number(self) -> u8 {
        self.0
    }

    /// The signal kind with the given number, if there is one.
    pub fn from_raw(sig: u8) -> (r: Result<Signal, SignalDeliveryError>)
        ensures
            sig <= MAX_SIGNAL <==> r is Ok,
            r matches Ok(s) ==> s.number() == sig && s.wf(),
    {
        if sig <= MAX_SIGNAL {
            Ok(Signal(sig))
        } else {
            Err(SignalDeliveryError)
        }
    }

    /// The number of this signal kind.
    pub fn raw(&self) -> (r: u8)
        ensures
            r == self.number(),
    {
        self.0
    }
}

} // verus!
