//! Liaison: serving FMI 3.0 functional mock-up units over a network.
//!
//! This crate holds the verified core of the Liaison client and server:
//! status codes and their wire representation, the table of live FMU
//! instances kept by the server, the conversions applied to variable values
//! on their way between the wire and the FMU, the naming rules used when a
//! Liaison FMU is built, and the routing of FMI calls to query keys.
#![allow(non_camel_case_types)]
#![allow(non_snake_case)]

pub mod text;
pub mod fmi3;
pub mod proto;
pub mod conversions;
pub mod placeholder;
pub mod callbacks;
pub mod instance_manager;
pub mod values;
pub mod queryable_handlers;
pub mod fmu_creator;
pub mod fmu_loader;
pub mod utils;
pub mod server;
pub mod client;
pub mod metrics;
pub mod latency;
pub mod config;
