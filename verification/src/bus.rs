//! The bus-client vocabulary: operations, errors, bus modes and the physical bus.
//!
//! Everything here is plain data. The hardware abstraction layer has richer
//! types for the same things; the board's glue converts at the edge.

use vstd::prelude::*;

verus! {

/// Which part of a transfer the addressed device failed to acknowledge.
#[derive(Clone, Copy, Debug, PartialEq, Eq, Structural)]
pub enum NoAcknowledgeSource {
    Address,
    Data,
    Unknown,
}

/// An error raised by the physical layer while a transaction was on the wire.
#[derive(Clone, Copy, Debug, PartialEq, Eq, Structural)]
pub enum BusError {
    Overrun,
    NoAcknowledge(NoAcknowledgeSource),
    Timeout,
    Bus,
    Crc,
    ArbitrationLoss,
}

/// The coarse classes into which bus clients sort errors.
#[derive(Clone, Copy, Debug, PartialEq, Eq, Structural)]
pub enum ErrorKind {
    Bus,
    ArbitrationLoss,
    NoAcknowledge(NoAcknowledgeSource),
    Overrun,
    Other,
}

/// An error that carries no detail: every instance is of kind `Other`.
#[derive(Debug)]
pub struct ErrorT {}

impl ErrorT {
    pub fn kind(&self) -> (kind: ErrorKind)
        ensures
            kind == ErrorKind::Other,
    {
        ErrorKind::Other
    }
}

/// One step of a transaction: fill a buffer from the device, or send bytes to it.
#[derive(Debug, PartialEq, Eq)]
pub enum Operation {
    Read(Vec<u8>),
    Write(Vec<u8>),
}

/// An operation as specifications see it.
pub enum OperationView {
    Read(Seq<u8>),
    Write(Seq<u8>),
}

impl View for Operation {
    type V = OperationView;

    open spec fn view(&self) -> OperationView {
        match self {
            Operation::Read(buffer) => OperationView::Read(buffer@),
            Operation::Write(bytes) => OperationView::Write(bytes@),
        }
    }
}

/// The operation list of a transaction as specifications see it.
pub open spec fn operations_view(operations: Seq<Operation>) -> Seq<OperationView> {
    operations.map_values(|operation: Operation| operation@)
}

/// Exclusive, raw access to the serial transport.
///
/// An implementation carries out the whole operation list against the device at
/// `address`, fills the read buffers, and reports what the physical layer said.
/// Nothing is assumed about the answer: the arbitration layer is proved for
/// every outcome.
pub trait PhysicalBus {
    fn transaction(&mut self, address: u8, operations: &mut Vec<Operation>) -> Result<
        (),
        BusError,
    >;
}

/// Ratio of low to high time of the clock line in fast mode.
#[derive(Clone, Copy, Debug, PartialEq, Eq, Structural)]
pub enum DutyCycle {
    Ratio2to1,
    Ratio16to9,
}

/// Signalling mode of the bus, with its clock frequency in hertz.
#[derive(Clone, Copy, Debug, PartialEq, Eq, Structural)]
pub enum BusMode {
    Standard { frequency: u32 },
    Fast { frequency: u32, duty_cycle: DutyCycle },
}

/// Signalling rate of the board's bus, in kilohertz.
pub const BUS_RATE_KHZ: u32 = 400;

/// A rate given in kilohertz, in hertz.
///
/// Trusted: the body calls `stm32f4xx_hal::time::Hertz::kHz`, which is
/// `fugit::Rate::<u32, 1, 1>::kHz`, and reads the raw value of the rate back.
/// For a rate counted in hertz `kHz` multiplies its argument by one thousand
/// in 32-bit arithmetic, so the product has to fit.
#[verifier::external_body]
fn kilohertz(khz: u32) -> (hz: u32)
    requires
        khz * 1000 <= u32::MAX,
    ensures
        hz == khz * 1000,
{
    stm32f4xx_hal::time::Hertz::kHz(khz).raw()
}

/// The standard signalling mode at a frequency given in hertz.
///
/// Trusted: the body calls `stm32f4xx_hal::i2c::Mode::standard` and copies the
/// mode it gets field by field. `standard` stores the frequency unchanged
/// under the standard variant.
#[verifier::external_body]
fn standard_mode(hz: u32) -> (mode: BusMode)
    ensures
        mode == (BusMode::Standard { frequency: hz }),
{
    match stm32f4xx_hal::i2c::Mode::standard(stm32f4xx_hal::time::Hertz::from_raw(hz)) {
        stm32f4xx_hal::i2c::Mode::Standard { frequency } => BusMode::Standard {
            frequency: frequency.raw(),
        },
        stm32f4xx_hal::i2c::Mode::Fast { frequency, duty_cycle } => BusMode::Fast {
            frequency: frequency.raw(),
            duty_cycle: match duty_cycle {
                stm32f4xx_hal::i2c::DutyCycle::Ratio2to1 => DutyCycle::Ratio2to1,
                stm32f4xx_hal::i2c::DutyCycle::Ratio16to9 => DutyCycle::Ratio16to9,
            },
        },
    }
}

/// The mode in which the physical bus must be configured before it is wrapped
/// in the shared cell: standard signalling at 400 kHz.
pub fn required_bus_mode() -> (mode: BusMode)
    ensures
        mode == (BusMode::Standard { frequency: 400_000 }),
{
    standard_mode(kilohertz(BUS_RATE_KHZ))
}

} // verus!
