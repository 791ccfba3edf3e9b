pub mod laws;
pub mod logging;
pub mod model;
pub mod protocol;
pub mod rotation;
pub mod worker;
