//! Serial port configuration, what comes from a port and what goes to it.

use vstd::prelude::*;
use vstd::string::*;

verus! {

/// What the system reports of a failed read or write, `std::io::Error`.
#[verifier::external_type_specification]
#[verifier::external_body]
pub struct ExIoError(std::io::Error);

/// The kind of such a failure, `std::io::ErrorKind`.
#[verifier::external_type_specification]
#[verifier::external_body]
pub struct ExIoErrorKind(std::io::ErrorKind);

/// Events from the serial port.
#[derive(Debug)]
pub enum SerialEvent {
    Data(Vec<u8>),
    Error(std::io::Error),
}

/// Serial port configuration.
#[derive(Debug, Clone)]
pub struct SerialConfig {
    pub port: String,
    pub baud_rate: u32,
}

impl SerialConfig {
    /// A configuration for a device path and a baud rate.
    pub fn new(port: &str, baud_rate: u32) -> (c: Self)
        ensures
            c.port@ == port@,
            c.baud_rate == baud_rate,
    {
        SerialConfig { port: port.to_owned(), baud_rate }
    }
}

impl Default for SerialConfig {
    fn default() -> (c: Self)
        ensures
            c.port@ == "/dev/ttyUSB0"@,
            c.baud_rate == 115200,
    {
        SerialConfig::new("/dev/ttyUSB0", 115200)
    }
}

/// A keypress "entered" over a serial port: a few bytes, kept in place where they
/// are no more than five.
#[verifier::external_body]
#[derive(Debug)]
pub struct SerialKey {
    bytes: smallvec::SmallVec<[u8; 5]>,
}

/// The bytes that a key's `smallvec::SmallVec` holds.
pub uninterp spec fn key_bytes(key: SerialKey) -> Seq<u8>;

impl View for SerialKey {
    type V = Seq<u8>;

    open spec fn view(&self) -> Seq<u8> {
        key_bytes(*self)
    }
}

impl SerialKey {
    /// Calls `smallvec::SmallVec::from_slice`, which copies the bytes.
    #[verifier::external_body]
    fn from_slice(bytes: &[u8]) -> (key: SerialKey)
        ensures
            key_bytes(key) == bytes@,
    {
        SerialKey { bytes: smallvec::SmallVec::from_slice(bytes) }
    }

    /// Calls `smallvec::SmallVec::as_slice`, which gives the bytes.
    #[verifier::external_body]
    fn as_slice(&self) -> (bytes: &[u8])
        ensures
            bytes@ == key_bytes(*self),
    {
        self.bytes.as_slice()
    }

    /// A key of some bytes.
    pub fn new(bytes: &[u8]) -> (key: SerialKey)
        ensures
            key@ == bytes@,
    {
        SerialKey::from_slice(bytes)
    }

    /// The bytes of the key.
    pub fn bytes(&self) -> (bytes: &[u8])
        ensures
            bytes@ == self@,
    {
        self.as_slice()
    }
}

/// What a reader does after a read.
pub enum ReadStep {
    /// Stop: the port is closed.
    Stop,
    /// Pass the event on; stop if nobody receives it.
    Deliver(SerialEvent),
    /// Pass the event on and stop.
    DeliverAndStop(SerialEvent),
}

/// What follows from reading into a buffer: a read of nothing is the end of the
/// port, a read of `n` bytes passes on the first `n` of the buffer, and an error is
/// passed on and ends the reading.
pub open spec fn read_leads_to(
    buf: Seq<u8>,
    result: Result<usize, std::io::Error>,
    step: ReadStep,
) -> bool {
    match result {
        Ok(0) => step is Stop,
        Ok(n) => step matches ReadStep::Deliver(SerialEvent::Data(data)) && data@ == buf.take(
            n as int,
        ),
        Err(e) => step == ReadStep::DeliverAndStop(SerialEvent::Error(e)),
    }
}

/// What to do after a read into a buffer.
pub fn read_step(buf: &[u8], result: Result<usize, std::io::Error>) -> (step: ReadStep)
    requires
        result matches Ok(n) ==> n <= buf@.len(),
    ensures
        read_leads_to(buf@, result, step),
{
    match result {
        // EOF - port closed
        Ok(0) => ReadStep::Stop,
        Ok(n) => {
            let data = vstd::slice::slice_to_vec(vstd::slice::slice_subrange(buf, 0, n));
            assert(data@ =~= buf@.take(n as int));
            ReadStep::Deliver(SerialEvent::Data(data))
        },
        Err(e) => ReadStep::DeliverAndStop(SerialEvent::Error(e)),
    }
}

/// Every byte that was read is passed on, and none that was not: as many as the read
/// says, from the start of the buffer. Only the end of the port and an error stop the
/// reader, and the error is passed on first.
pub proof fn law_what_is_read_is_passed_on(
    buf: Seq<u8>,
    result: Result<usize, std::io::Error>,
    step: ReadStep,
)
    requires
        result matches Ok(n) ==> n <= buf.len(),
        read_leads_to(buf, result, step),
    ensures
        step is Stop <==> (result matches Ok(n) && n == 0),
        step is DeliverAndStop <==> result is Err,
        result matches Err(e) ==> step->DeliverAndStop_0 == SerialEvent::Error(e),
        result is Ok && result->Ok_0 > 0 ==> (step matches ReadStep::Deliver(SerialEvent::Data(data))
            && data@.len() == result->Ok_0 && forall|i: int|
            0 <= i < data@.len() ==> #[trigger] data@[i] == buf[i]),
{
}

} // verus!
