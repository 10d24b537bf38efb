//! SOCKS version 5.

pub mod address;
pub mod buffer;
pub mod method;
pub mod request;
pub mod response;
pub mod step;
pub mod stream;

pub use address::{Address, Domain};
pub use method::Method;
pub use request::{Request, RequestError};
pub use response::Response;
pub use step::Step;
pub use stream::Stream;
