//! Gateway logic for a shared M-Bus serial line and its power-control hat.
//!
//! The crate holds the decisions of the gateway and proves each against its
//! contract:
//!
//! - `address`: which addresses of bus devices are accepted;
//! - `bus`: the lock that keeps two operations off the serial line;
//! - `tool`: which device names are accepted, the command line of each
//!   protocol tool, and how the outcome of a run is told apart into a
//!   payload or a failure message;
//! - `server`: the bus access controller, which puts the three together;
//! - `hat`: what the hat's description files say of it;
//! - `power`: the order in which the power pin is driven;
//! - `api`, `config`, `models`, `responses`, `text`: the interface
//!   description, the configuration, and the values that go in and out.
//!
//! Reading files, driving the GPIO pin and running the tools is left to the
//! caller, who hands the results in as plain values. The only code that is
//! believed and not proved is the pair of calls into the standard library's
//! UTF-8 decoder in `tool`.

pub mod address;
pub mod api;
pub mod bus;
pub mod config;
pub mod hat;
pub mod models;
pub mod power;
pub mod responses;
pub mod server;
pub mod text;
pub mod tool;
