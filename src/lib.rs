//! A client for the glucose "share" service: it signs an account in and
//! fetches the latest reading, over a transport that the caller supplies.
use vstd::prelude::*;

pub mod client;
pub mod error;
pub mod json;
pub mod response;
pub mod trend;
pub mod wire;

pub use client::{Client, TestError};
pub use error::{ClientError, DexcomError, DexcomErrorResponse, SerdeJsonError};
pub use response::GlucosReading;
pub use trend::Trend;
pub use wire::{Endpoint, Region};

use response::{
    decode_id, decode_reading, failure_matches, id_body, id_result_matches, reading_result_matches,
    readings_body, reply_outcome,
};
use vstd::slice::slice_subrange;
use wire::{
    account_id_body, account_id_request, latest_glucose_body, latest_glucose_request,
    session_id_body, session_id_request, uri,
};

verus! {

/// The most bytes of a reply's body that are read.
pub const RESPONSE_CAPACITY: usize = 512;

/// One request sent through the transport, and what came back: the status
/// and the body, or `None` where the transport failed.
pub struct Exchange {
    pub endpoint: Endpoint,
    pub body: Seq<u8>,
    pub reply: Option<(u16, Seq<u8>)>,
}

/// The answer of an exchange whose success body is an id; `None` where the
/// transport failed.
pub open spec fn id_reply(x: Exchange) -> Option<Result<Seq<char>, Option<DexcomError>>> {
    match x.reply {
        Some((s, b)) => Some(reply_outcome(s, b, id_body(b))),
        None => None,
    }
}

/// A call answers as its exchange stands for, where the success body is an id.
pub open spec fn id_call<E>(x: Exchange, r: Result<String, ClientError<E>>) -> bool {
    match id_reply(x) {
        Some(o) => id_result_matches(r, o),
        None => r is Err && r->Err_0 is ConnectionError,
    }
}

/// A call answers as its exchange stands for, where the success body is a
/// reading.
pub open spec fn reading_call<E>(x: Exchange, r: Result<[GlucosReading; 1], ClientError<E>>) -> bool {
    match x.reply {
        Some((s, b)) => reading_result_matches(r, reply_outcome(s, b, readings_body(b))),
        None => r is Err && r->Err_0 is ConnectionError,
    }
}

/// What the transport gave back: status and body, or `None` where it failed.
pub open spec fn reply_of<E>(r: Result<(Vec<u8>, u16), E>) -> Option<(u16, Seq<u8>)> {
    match r {
        Ok((b, s)) => Some((s, b@)),
        Err(_) => None,
    }
}

/// The client: it holds the transport for as long as it lives.
pub struct Dexcom<'a, C: Client> {
    client: &'a mut C,
    region: Region,
    sent: Ghost<Seq<Exchange>>,
}

impl<'a, C: Client> Dexcom<'a, C> {
    /// Every exchange made through the transport so far, in order.
    pub closed spec fn log(&self) -> Seq<Exchange> {
        self.sent@
    }

    /// The addresses that requests go to.
    pub closed spec fn region_of(&self) -> Region {
        self.region
    }

    /// The exchanges made after the first `n`.
    pub open spec fn sent_since(&self, n: nat) -> Seq<Exchange> {
        self.log().subrange(n as int, self.log().len() as int)
    }

    /// A client on the global host.
    pub fn new(client: &'a mut C) -> (r: Self)
        ensures
            r.log() == Seq::<Exchange>::empty(),
            r.region_of() == Region::Global,
    {
        Dexcom { client, region: Region::Global, sent: Ghost(Seq::empty()) }
    }

    /// A client on the host of a region.
    pub fn with_region(client: &'a mut C, region: Region) -> (r: Self)
        ensures
            r.log() == Seq::<Exchange>::empty(),
            r.region_of() == region,
    {
        Dexcom { client, region, sent: Ghost(Seq::empty()) }
    }

    /// Sends one request, and answers the body and status of the reply.
    fn exchange(&mut self, endpoint: Endpoint, body: &[u8]) -> (r: Result<(Vec<u8>, u16), C::Error>)
        ensures
            final(self).region_of() == old(self).region_of(),
            final(self).log() == old(self).log().push(
                Exchange {
                    endpoint,
                    body: body@,
                    reply: reply_of(r),
                },
            ),
    {
        let mut buf: Vec<u8> = vec![0u8; RESPONSE_CAPACITY];
        let headers = [("Content-Type", "application/json"), ("User-Agent", "rsdexcom/0.0.1")];
        let answer = self.client.post_request(uri(self.region, endpoint), &headers, body, buf.as_mut_slice());
        let r = match answer {
            Ok((size, status)) => {
                let n = if size < buf.len() { size } else { buf.len() };
                let mut got: Vec<u8> = Vec::new();
                let part = slice_subrange(buf.as_slice(), 0, n);
                let mut i: usize = 0;
                while i < n
                    invariant
                        n == part@.len(),
                        i <= n,
                        got@ == part@.subrange(0, i as int),
                    decreases n - i,
                {
                    got.push(part[i]);
                    assert(part@.subrange(0, i + 1) == part@.subrange(0, i as int).push(part@[i as int]));
                    i = i + 1;
                }
                assert(part@.subrange(0, n as int) == part@);
                Ok((got, status))
            },
            Err(e) => Err(e),
        };
        self.sent = Ghost(self.sent@.push(
            Exchange {
                endpoint,
                body: body@,
                reply: reply_of(r),
            },
        ));
        r
    }

    /// Sends a request whose answer is an id, and decodes the reply.
    fn post_request(&mut self, endpoint: Endpoint, body: &[u8]) -> (r: Result<String, ClientError<C::Error>>)
        ensures
            final(self).region_of() == old(self).region_of(),
            final(self).log().len() == old(self).log().len() + 1,
            old(self).log().is_prefix_of(final(self).log()),
            final(self).log().last().endpoint == endpoint,
            final(self).log().last().body == body@,
            id_call(final(self).log().last(), r),
    {
        match self.exchange(endpoint, body) {
            Ok((reply, status)) => decode_id(status, reply.as_slice()),
            Err(e) => Err(ClientError::ConnectionError(e)),
        }
    }

    /// Asks for the latest reading of a session: one request, for the last ten
    /// minutes and at most one reading.
    pub fn get_current_glucose_reading(&mut self, session_id: &str) -> (r: Result<
        [GlucosReading; 1],
        ClientError<C::Error>,
    >)
        ensures
            final(self).region_of() == old(self).region_of(),
            old(self).log().is_prefix_of(final(self).log()),
            match latest_glucose_request(session_id@) {
                None => final(self).log() == old(self).log() && r is Err && r->Err_0 is JSONError,
                Some(body) => {
                    let calls = final(self).sent_since(old(self).log().len());
                    &&& calls.len() == 1
                    &&& calls[0].endpoint == Endpoint::LatestGlucose
                    &&& calls[0].body == body
                    &&& reading_call(calls[0], r)
                },
            },
    {
        let body = match latest_glucose_body(session_id) {
            Ok(b) => b,
            Err(e) => return Err(ClientError::JSONError(SerdeJsonError(e))),
        };
        let r = match self.exchange(Endpoint::LatestGlucose, body.as_slice()) {
            Ok((reply, status)) => decode_reading(status, reply.as_slice()),
            Err(e) => Err(ClientError::ConnectionError(e)),
        };
        assert(self.sent_since(old(self).log().len())[0] == self.log().last());
        r
    }

    /// Signs an account in: asks for its account id, then for a session id
    /// with that account id, and answers the session id. Stops at the first
    /// step that fails.
    pub fn load_session_id(&mut self, account_name: &str, password: &str, application_id: &str) -> (r: Result<
        String,
        ClientError<C::Error>,
    >)
        ensures
            final(self).region_of() == old(self).region_of(),
            old(self).log().is_prefix_of(final(self).log()),
            ({
                let calls = final(self).sent_since(old(self).log().len());
                match account_id_request(account_name@, password@, application_id@) {
                    None => calls.len() == 0 && r is Err && r->Err_0 is JSONError,
                    Some(first) => {
                        &&& calls.len() >= 1
                        &&& calls[0].endpoint == Endpoint::AccountId
                        &&& calls[0].body == first
                        &&& match id_reply(calls[0]) {
                            None => calls.len() == 1 && r is Err && r->Err_0 is ConnectionError,
                            Some(Err(f)) => calls.len() == 1 && r is Err && failure_matches(r->Err_0, f),
                            Some(Ok(account_id)) => match session_id_request(account_id, password@, application_id@) {
                                None => calls.len() == 1 && r is Err && r->Err_0 is JSONError,
                                Some(second) => {
                                    &&& calls.len() == 2
                                    &&& calls[1].endpoint == Endpoint::SessionId
                                    &&& calls[1].body == second
                                    &&& id_call(calls[1], r)
                                },
                            },
                        }
                    },
                }
            }),
    {
        let ghost start = self.log().len();
        let account_id = self.get_account_id(account_name, password, application_id)?;
        let ghost middle = self.log();
        let session_id = self.get_session_id(&account_id, password, application_id);
        proof {
            let calls = self.sent_since(start);
            assert(middle.len() == start + 1);
            assert(calls[0] == middle[start as int]);
            if self.log().len() > middle.len() {
                assert(calls[1] == self.sent_since(middle.len())[0]);
            }
        }
        session_id
    }

    /// Asks for the account id of an account name.
    pub fn get_account_id(&mut self, account_name: &str, password: &str, application_id: &str) -> (r: Result<
        String,
        ClientError<C::Error>,
    >)
        ensures
            final(self).region_of() == old(self).region_of(),
            old(self).log().is_prefix_of(final(self).log()),
            match account_id_request(account_name@, password@, application_id@) {
                None => final(self).log() == old(self).log() && r is Err && r->Err_0 is JSONError,
                Some(body) => {
                    let calls = final(self).sent_since(old(self).log().len());
                    &&& calls.len() == 1
                    &&& calls[0].endpoint == Endpoint::AccountId
                    &&& calls[0].body == body
                    &&& id_call(calls[0], r)
                },
            },
    {
        let body = match account_id_body(account_name, password, application_id) {
            Ok(b) => b,
            Err(e) => return Err(ClientError::JSONError(SerdeJsonError(e))),
        };
        let r = self.post_request(Endpoint::AccountId, body.as_slice());
        assert(self.sent_since(old(self).log().len())[0] == self.log().last());
        r
    }

    /// Asks for a session id for an account id.
    pub fn get_session_id(&mut self, account_id: &str, password: &str, application_id: &str) -> (r: Result<
        String,
        ClientError<C::Error>,
    >)
        ensures
            final(self).region_of() == old(self).region_of(),
            old(self).log().is_prefix_of(final(self).log()),
            match session_id_request(account_id@, password@, application_id@) {
                None => final(self).log() == old(self).log() && r is Err && r->Err_0 is JSONError,
                Some(body) => {
                    let calls = final(self).sent_since(old(self).log().len());
                    &&& calls.len() == 1
                    &&& calls[0].endpoint == Endpoint::SessionId
                    &&& calls[0].body == body
                    &&& id_call(calls[0], r)
                },
            },
    {
        let body = match session_id_body(account_id, password, application_id) {
            Ok(b) => b,
            Err(e) => return Err(ClientError::JSONError(SerdeJsonError(e))),
        };
        let r = self.post_request(Endpoint::SessionId, body.as_slice());
        assert(self.sent_since(old(self).log().len())[0] == self.log().last());
        r
    }
}

} // verus!
