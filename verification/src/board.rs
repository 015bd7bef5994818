//! The board and its two-phase construction.
//!
//! A board is first built around its bus alone. The transition to the ready
//! board mints one proxy for each driver, lets the drivers initialise
//! themselves through their proxies, and gathers the driver handles. The
//! drivers are vendor code that talks to hardware, so the transition comes in
//! two steps with the drivers' work between them: [`Board::mint_proxies`]
//! hands out the proxies with each driver's configuration, and
//! [`Board::initialize_periphals`] takes what the drivers reported.

use vstd::prelude::*;
use crate::arbitration::CellState;
use crate::bus::BusError;
use crate::ownership::OwnershipConflict;
use crate::shared_bus::{I2CProxy, SharedBusCell};

verus! {

/// Number of drivers that consume a proxy.
pub const DRIVER_CONSUMERS: usize = 2;

/// Sampling rate of the temperature sensor.
#[derive(Clone, Copy, Debug, PartialEq, Eq, Structural)]
pub enum DataRate {
    OneShot,
    Continuous1Hz,
    Continuous7Hz,
    Continuous12_5Hz,
}

/// Orientation of the display.
#[derive(Clone, Copy, Debug, PartialEq, Eq, Structural)]
pub enum DisplayRotation {
    Rotate0,
    Rotate90,
    Rotate180,
    Rotate270,
}

/// How the display driver keeps what is drawn.
#[derive(Clone, Copy, Debug, PartialEq, Eq, Structural)]
pub enum DisplayMode {
    /// Every write goes straight to the display.
    Basic,
    /// Drawing fills a buffer that is flushed to the display on demand.
    BufferedGraphics,
    /// The display shows lines of text, as a terminal does.
    Terminal,
}

/// What went wrong between the display driver and its display.
#[derive(Clone, Copy, Debug, PartialEq, Eq, Structural)]
pub enum DisplayError {
    InvalidFormatError,
    BusWriteError,
    DCError,
    CSError,
    DataFormatNotImplemented,
    RSError,
    OutOfBoundsError,
}

/// Why the board could not be brought up. Each of these is fatal: there is no
/// degraded board.
#[derive(Clone, Copy, Debug, PartialEq, Eq, Structural)]
pub enum BoardError {
    /// The hardware had been claimed before.
    OwnershipConflict,
    /// A step of the transition was asked of a board that is not in the
    /// bus-only state.
    NotBusOnly,
    /// The drivers were not built through proxies of this board's cell: the
    /// cell has not minted a proxy for each driver, or it never minted the
    /// proxy that the sensor brings along.
    ProxiesNotMinted,
    /// The temperature sensor could not be built.
    SensorInit(BusError),
    /// The display could not be initialised.
    DisplayInit(DisplayError),
}

/// The proxy of the temperature sensor and the configuration of its builder.
#[derive(Debug)]
pub struct SensorPlan {
    pub proxy: I2CProxy,
    pub data_rate: DataRate,
}

/// The proxy of the display and the configuration of its driver. The driver
/// must be initialised explicitly once it is built.
#[derive(Debug)]
pub struct DisplayPlan {
    pub proxy: I2CProxy,
    pub width: u8,
    pub height: u8,
    pub rotation: DisplayRotation,
    pub mode: DisplayMode,
}

/// What a successful claim of the hardware yields once the clocks and the bus
/// have been set up: the bus, configured in [`crate::bus::required_bus_mode`],
/// the description of the clocks, and the timer.
pub struct Peripherals<B, C, T> {
    pub bus: B,
    pub clocks: C,
    pub timer: T,
}

/// The board: its driver handles and, until the drivers exist, its bus.
///
/// `B` is the physical bus, `D` and `S` are the handles of the display and of
/// the temperature sensor, `C` is the description of the clocks and `T` the
/// timer. The board looks into none of them.
#[allow(non_snake_case)]
pub struct Board<B, D, S, C, T> {
    pub display: Option<D>,
    pub temp_sensor: (Option<S>, Option<I2CProxy>),
    pub shared_bus: Option<SharedBusCell<B>>,
    pub clocks: Option<C>,
    pub TIM5: Option<T>,
}

impl<B, D, S, C, T> Board<B, D, S, C, T> {
    /// The bus-only state, fully formed: the bus sits in its cell, the clocks
    /// and the timer are there, and no driver exists.
    pub open spec fn bus_only(&self) -> bool {
        &&& self.shared_bus is Some
        &&& self.clocks is Some
        &&& self.TIM5 is Some
        &&& self.display is None
        &&& self.temp_sensor.0 is None
        &&& self.temp_sensor.1 is None
    }

    /// The ready state: both drivers are there, the sensor with its proxy, and
    /// the cell is out of reach.
    pub open spec fn ready(&self) -> bool {
        &&& self.shared_bus is None
        &&& self.display is Some
        &&& self.temp_sensor.0 is Some
        &&& self.temp_sensor.1 is Some
    }

    /// What the sensor's builder is given: its proxy and a continuous rate of
    /// one sample per second.
    pub open spec fn sensor_plan(plan: SensorPlan, proxy: nat) -> bool {
        plan.proxy@ == proxy && plan.data_rate == DataRate::Continuous1Hz
    }

    /// What the display's driver is given: its proxy, a display of 128 by 64
    /// pixels that is not rotated, and buffered drawing.
    pub open spec fn display_plan(plan: DisplayPlan, proxy: nat) -> bool {
        &&& plan.proxy@ == proxy
        &&& plan.width == 128
        &&& plan.height == 64
        &&& plan.rotation == DisplayRotation::Rotate0
        &&& plan.mode == DisplayMode::BufferedGraphics
    }

    /// Whether the cell of a bus-only board has minted a proxy for each
    /// driver, among them the one that the sensor brings along.
    pub open spec fn proxies_minted(board: Self, sensor: Result<(S, I2CProxy), BusError>) -> bool {
        &&& board.shared_bus->0@.minted >= DRIVER_CONSUMERS
        &&& sensor matches Ok(built) ==> built.1@ < board.shared_bus->0@.minted
    }

    /// Whether the board is in the bus-only state.
    pub fn is_bus_only(&self) -> (yes: bool)
        ensures
            yes == self.bus_only(),
    {
        self.shared_bus.is_some() && self.clocks.is_some() && self.TIM5.is_some()
            && self.display.is_none() && self.temp_sensor.0.is_none()
            && self.temp_sensor.1.is_none()
    }

    /// Whether the board is in the ready state.
    pub fn is_ready(&self) -> (yes: bool)
        ensures
            yes == self.ready(),
    {
        self.shared_bus.is_none() && self.display.is_some() && self.temp_sensor.0.is_some()
            && self.temp_sensor.1.is_some()
    }

    /// Builds the board in its bus-only state from the claim of the hardware.
    ///
    /// A claim that reports a conflict is fatal and gives
    /// [`BoardError::OwnershipConflict`]. A successful claim always gives a
    /// board: its bus is moved into a fresh cell, from which no proxy has been
    /// minted, and the clocks and the timer are kept as they came.
    pub fn construct_bus(claim: Result<Peripherals<B, C, T>, OwnershipConflict>) -> (built: Result<
        Self,
        BoardError,
    >)
        ensures
            claim is Err ==> {
                &&& built matches Err(error)
                &&& error == BoardError::OwnershipConflict
            },
            claim matches Ok(hardware) ==> {
                &&& built matches Ok(board)
                &&& board.bus_only()
                &&& board.shared_bus->0@ == CellState::fresh()
                &&& board.shared_bus->0.bus() == hardware.bus
                &&& board.clocks == Some(hardware.clocks)
                &&& board.TIM5 == Some(hardware.timer)
            },
    {
        match claim {
            Err(_) => Err(BoardError::OwnershipConflict),
            Ok(hardware) => Ok(
                Board {
                    display: None,
                    temp_sensor: (None, None),
                    clocks: Some(hardware.clocks),
                    TIM5: Some(hardware.timer),
                    shared_bus: Some(SharedBusCell::new(hardware.bus)),
                },
            ),
        }
    }

    /// First step of the transition: mints exactly two proxies from the
    /// board's cell, one for each driver, and pairs each with the
    /// configuration of its driver.
    ///
    /// On a board that is not in the bus-only state the step fails with
    /// [`BoardError::NotBusOnly`] and changes nothing. Otherwise it succeeds:
    /// the sensor gets the next identity of the cell and the display the one
    /// after it, and nothing else about the board or the cell changes.
    pub fn mint_proxies(&mut self) -> (minted: Result<(SensorPlan, DisplayPlan), BoardError>)
        requires
            old(self).shared_bus matches Some(cell) ==> cell@.minted + DRIVER_CONSUMERS
                <= usize::MAX,
        ensures
            !old(self).bus_only() ==> {
                &&& minted matches Err(error)
                &&& error == BoardError::NotBusOnly
                &&& *final(self) == *old(self)
            },
            old(self).bus_only() ==> {
                &&& minted matches Ok(plans)
                &&& Self::sensor_plan(plans.0, old(self).shared_bus->0@.minted)
                &&& Self::display_plan(plans.1, old(self).shared_bus->0@.minted + 1)
                &&& final(self).bus_only()
                &&& final(self).shared_bus->0@ == (CellState {
                    minted: (old(self).shared_bus->0@.minted + DRIVER_CONSUMERS) as nat,
                    ..old(self).shared_bus->0@
                })
                &&& final(self).shared_bus->0.bus() == old(self).shared_bus->0.bus()
                &&& final(self).clocks == old(self).clocks
                &&& final(self).TIM5 == old(self).TIM5
            },
    {
        if !self.is_bus_only() {
            return Err(BoardError::NotBusOnly);
        }
        match &mut self.shared_bus {
            Some(cell) => {
                let first = cell.mint();
                let second = cell.mint();
                Ok(
                    (
                        SensorPlan { proxy: first, data_rate: DataRate::Continuous1Hz },
                        DisplayPlan {
                            proxy: second,
                            width: 128,
                            height: 64,
                            rotation: DisplayRotation::Rotate0,
                            mode: DisplayMode::BufferedGraphics,
                        },
                    ),
                )
            },
            None => Err(BoardError::NotBusOnly),
        }
    }

    /// Second step of the transition: takes what the two drivers reported and
    /// produces the ready board.
    ///
    /// `sensor` is the outcome of building the temperature sensor, with the
    /// proxy that the sensor goes on using; `display` is the outcome of
    /// building and initialising the display. The step fails, and leaves this
    /// board as it was,
    /// - with [`BoardError::NotBusOnly`] on a board that is not in the bus-only
    ///   state, whatever the drivers reported;
    /// - else with [`BoardError::ProxiesNotMinted`] if the first step has not
    ///   run, so that the cell has minted fewer proxies than there are
    ///   drivers, or if the sensor brings a proxy that the cell never minted;
    /// - else with [`BoardError::SensorInit`] and the sensor's error, if the
    ///   sensor failed;
    /// - else with [`BoardError::DisplayInit`] and the display's error, if the
    ///   display failed.
    ///
    /// Otherwise it succeeds. The ready board holds both handles, the sensor's
    /// proxy, the clocks and the timer, and no cell. This board gives up the
    /// clocks and the timer and keeps the cell, untouched and in its place,
    /// for the proxies that refer to it; having been consumed, it is no longer
    /// in the bus-only state.
    pub fn initialize_periphals(
        &mut self,
        sensor: Result<(S, I2CProxy), BusError>,
        display: Result<D, DisplayError>,
    ) -> (transition: Result<Self, BoardError>)
        ensures
            !old(self).bus_only() ==> {
                &&& transition matches Err(error)
                &&& error == BoardError::NotBusOnly
            },
            old(self).bus_only() && !Self::proxies_minted(*old(self), sensor) ==> {
                &&& transition matches Err(error)
                &&& error == BoardError::ProxiesNotMinted
            },
            old(self).bus_only() && Self::proxies_minted(*old(self), sensor) ==> (match (
                sensor,
                display,
            ) {
                (Err(failure), _) => {
                    &&& transition matches Err(error)
                    &&& error == BoardError::SensorInit(failure)
                },
                (Ok(_), Err(failure)) => {
                    &&& transition matches Err(error)
                    &&& error == BoardError::DisplayInit(failure)
                },
                (Ok(built), Ok(screen)) => {
                    &&& transition matches Ok(board)
                    &&& board.ready()
                    &&& board.display == Some(screen)
                    &&& board.temp_sensor == (Some(built.0), Some(built.1))
                    &&& board.clocks == old(self).clocks
                    &&& board.TIM5 == old(self).TIM5
                },
            }),
            transition is Err ==> *final(self) == *old(self),
            transition is Ok ==> {
                &&& final(self).shared_bus == old(self).shared_bus
                &&& final(self).clocks is None
                &&& final(self).TIM5 is None
                &&& final(self).display is None
                &&& final(self).temp_sensor == old(self).temp_sensor
                &&& !final(self).bus_only()
            },
    {
        if !self.is_bus_only() {
            return Err(BoardError::NotBusOnly);
        }
        let minted = match &self.shared_bus {
            Some(cell) => cell.minted(),
            None => 0,
        };
        let foreign = match &sensor {
            Ok((_, proxy)) => proxy.id() >= minted,
            Err(_) => false,
        };
        if minted < DRIVER_CONSUMERS || foreign {
            return Err(BoardError::ProxiesNotMinted);
        }
        match sensor {
            Err(error) => Err(BoardError::SensorInit(error)),
            Ok((handle, proxy)) => match display {
                Err(error) => Err(BoardError::DisplayInit(error)),
                Ok(screen) => Ok(
                    Board {
                        display: Some(screen),
                        temp_sensor: (Some(handle), Some(proxy)),
                        shared_bus: None,
                        clocks: self.clocks.take(),
                        TIM5: self.TIM5.take(),
                    },
                ),
            },
        }
    }
}

} // verus!
