//! Supervisory control library for a paired-cabin elevator rig.
//!
//! Two cabins share one shaft model; a host computer drives each motor
//! through direction and PWM lines and talks to a microcontroller
//! peripheral over a serial link that carries encoder reads, PWM
//! commands, panel button registers and temperature reports.
//!
//! This crate holds the logic of that controller: the wire checksum and
//! frame codec, the per-operation request builders and reply parsers,
//! the PID regulator, the floor model with its calibration procedure,
//! the per-cabin request queue with its emergency latch, the panel
//! decision rules and the move-to-floor control step.  Everything here
//! is pure computation on plain values; the binary around it performs
//! the UART, GPIO and display traffic and feeds the results back in.

pub mod calibration;
pub mod common;
pub mod crc;
pub mod floors;
pub mod link;
pub mod modbus;
pub mod motion;
pub mod panel;
pub mod pid;
pub mod queue;
