//! A remote input bridge library: fixed-width byte packets arriving on
//! per-channel network ports are decoded into typed input commands, queued
//! through a single multi-producer/single-consumer command queue, and turned
//! into the event records that a virtual input device consumes. A small
//! screen-info responder encodes the host's screen resolution for remote
//! clients.

pub mod codec;
pub mod command;
pub mod device;
pub mod listener;
pub mod queue;
pub mod screen;
