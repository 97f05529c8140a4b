//! A small dependency-injection container with verified lookup and
//! registration, together with the start-up of an application that serves
//! its routes through an HTTP framework.

pub mod container;
pub mod laws;
pub mod router;
pub mod bootstrap;
pub mod error;
pub mod server;
