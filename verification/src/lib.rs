//! Arbitration of one shared serial bus between the drivers of a board, and the
//! two-phase construction of that board.
//!
//! The board has one physical bus and two drivers that each want a bus of their
//! own: a display and a temperature sensor. The bus is moved into a
//! [`SharedBusCell`], which hands out [`I2CProxy`] tokens; every transaction
//! through a proxy runs inside the critical section of the cell, so that the
//! transactions of different proxies follow one another and never overlap.
//! [`Board`] is built around the bus first and turned into the ready board once
//! both drivers have initialised themselves through their proxies.

pub mod arbitration;
pub mod board;
pub mod bus;
pub mod ownership;
pub mod shared_bus;

pub use board::{Board, BoardError, Peripherals};
pub use bus::{BusError, ErrorT, Operation, PhysicalBus};
pub use ownership::{OwnershipConflict, OwnershipSingleton};
pub use shared_bus::{I2CProxy, SharedBusCell};

pub use embedded_graphics;
pub use hts221;
pub use ssd1306;
pub use stm32f4xx_hal;
