//! Names of the layers and extensions that the library knows.

pub mod device;
pub mod instance;
