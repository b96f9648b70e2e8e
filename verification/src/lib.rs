pub mod model;
pub mod server;
pub mod wire;
