//! Receipt and label printing core for a single-store point of sale,
//! together with the small pure services around it (input validation,
//! configuration data, log levels).
//!
//! The printing subsystem builds ESC/POS byte streams for receipts, test
//! pages and barcode labels, decides which transport a destination string
//! names, plans the serial baud sweep, classifies transport failures into
//! actionable diagnostics, and assembles the destination list shown in the
//! settings screen. All of that is pure and verified; the surrounding I/O
//! (serial ports, TCP, print queues, the database) lives outside this crate
//! and hands plain values in and out.

pub mod audit;
pub mod barcode;
pub mod chars;
pub mod config;
pub mod diagnostics;
pub mod discovery;
pub mod escpos;
pub mod format;
pub mod logging;
pub mod models;
pub mod network;
pub mod numparse;
pub mod queue;
pub mod router;
pub mod serial;
pub mod strutil;
pub mod timeclock;
pub mod validation;
