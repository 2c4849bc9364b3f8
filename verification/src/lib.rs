//! Wii controllers as gamepads and pointers on a Linux desktop, verified with Verus.
//!
//! - What a controller does: `input`, `hid`, `mapping`, `pointer`, `aim`, `engine`, `bridge`,
//!   `trace`, `calibration`.
//! - The configuration and its file: `config`, `config_text`, `round_trip`.
//! - The daemon and its clients: `protocol`, `frame`, `socket`, `connection`, `server`, `platform`,
//!   `diagnostics`, `client`, `capture`, `session`.
//! - The control center: `model`, `log`, `process`, `config_task`, `live`, `validation`, `control`,
//!   `window`, `form`, `rules`, `palette`, `smoke`.
//! - The terminal view: `view`.
//! - What all of it promises, from what goes in to what comes out: `laws`.
//!
//! Nothing here reads a clock, a file or a socket. What happens outside comes in as a value, and
//! what is to be done outside is returned as one.
pub mod aim;
pub mod bridge;
pub mod calibration;
pub mod capture;
pub mod client;
pub mod config;
pub mod config_task;
pub mod config_text;
pub mod connection;
pub mod control;
pub mod diagnostics;
pub mod engine;
pub mod failure;
pub mod form;
pub mod frame;
pub mod hid;
pub mod input;
pub mod laws;
pub mod live;
pub mod log;
pub mod mapping;
pub mod model;
pub mod palette;
pub mod platform;
pub mod pointer;
pub mod process;
pub mod protocol;
pub mod round_trip;
pub mod rules;
pub mod server;
pub mod session;
pub mod smoke;
pub mod socket;
pub mod text;
pub mod trace;
pub mod validation;
pub mod view;
pub mod window;
