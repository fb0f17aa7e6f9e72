//! Request and response bodies of the server's routes.

pub mod execute;
pub mod info;
pub mod prove;
pub mod verify;
