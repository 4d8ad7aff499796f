//! Verified core of a scanning agent that bridges browser applications to
//! TWAIN document scanners.

#![allow(non_camel_case_types)]
#![allow(non_snake_case)]

pub mod text;
pub mod address;
pub mod agent;
pub mod config;
pub mod deep_link;
pub mod driver;
pub mod logging;
pub mod pdf;
pub mod protocol;
pub mod scanner;
pub mod ws_server;
