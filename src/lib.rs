pub mod error;
pub mod laws;
pub mod params;
pub mod request;
pub mod response;
pub mod server;
pub mod value;

pub use error::Error;
pub use request::{Request, validate};
pub use response::respond;
pub use server::{Route, Server};
pub use value::Json;
