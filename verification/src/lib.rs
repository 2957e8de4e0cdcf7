//! Shared definitions of the Arion emulation engine: its configuration record,
//! the engine-wide constants and the plain data types handed between the
//! engine and its users (memory segments, signals, register values and the
//! architecture, linkage and log-level enumerations).
#![allow(non_camel_case_types, non_snake_case)]

pub mod common;
