pub mod clock;
pub mod date;
pub mod error;
pub mod laws;
pub mod model;
pub mod request;
