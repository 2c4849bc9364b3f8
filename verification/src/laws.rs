//! What the programs promise their users, stated from what goes in to what comes out.
pub mod aiming;
pub mod bridging;
pub mod calibrating;
pub mod capturing;
pub mod clients;
pub mod connecting;
pub mod controlling;
pub mod devices;
pub mod discovering;
pub mod editing;
pub mod files;
pub mod keys;
pub mod logging;
pub mod motion;
pub mod numbers;
pub mod operating;
pub mod outputs;
pub mod pointing;
pub mod processes;
pub mod reports;
pub mod serving;
pub mod sessions;
pub mod settings;
pub mod sockets;
pub mod steering;
pub mod texts;
pub mod tracing;
pub mod viewing;
pub mod wording;
