//! Handle management and capability-checked dispatch for ZLG CAN, CAN-FD and
//! LIN adapters reached through a native function table.

pub mod error;
pub mod device;
pub mod can;
pub mod config;
pub mod text;
pub mod lin;
pub mod cloud;
pub mod bulk;
pub mod native;
pub mod api;
pub mod handler;
pub mod driver;
