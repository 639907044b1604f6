//! The transport that the client sends its requests through.
use vstd::prelude::*;

verus! {

/// Sends one POST request and writes the reply's body into `buf`, answering
/// how many bytes it wrote and the reply's status code.
pub trait Client {
    type Error;

    fn post_request(
        &mut self,
        uri: &str,
        headers: &[(&str, &str)],
        body: &[u8],
        buf: &mut [u8],
    ) -> Result<(usize, u16), Self::Error>;
}

/// An error for transports that stand in for the service in tests.
#[derive(Debug, Clone, Copy, PartialEq, Eq, Structural)]
pub struct TestError;

} // verus!
