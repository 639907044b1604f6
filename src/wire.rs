//! Where requests go and what they carry.
use vstd::prelude::*;
use vstd::string::StringSliceAdditionalSpecFns;
use crate::json::{encode_str, json_str_encoding};

verus! {

/// The two sets of addresses that the service is reached at.
#[derive(Debug, Clone, Copy, PartialEq, Eq, Structural)]
pub enum Region {
    /// The default, global host.
    Global,
    /// The host for accounts outside the United States.
    OutsideUs,
}

/// The three operations of the service that the client uses.
#[derive(Debug, Clone, Copy, PartialEq, Eq, Structural)]
pub enum Endpoint {
    /// Authenticates an account by name and answers its account id.
    AccountId,
    /// Logs an account in by id and answers a session id.
    SessionId,
    /// Answers the latest readings of a session.
    LatestGlucose,
}

/// The address of an operation in a region.
pub open spec fn endpoint_uri(region: Region, endpoint: Endpoint) -> Seq<char> {
    match (region, endpoint) {
        (Region::Global, Endpoint::AccountId) =>
            "https://share2.dexcom.com/ShareWebServices/Services/General/AuthenticatePublisherAccount"@,
        (Region::Global, Endpoint::SessionId) =>
            "https://share2.dexcom.com/ShareWebServices/Services/General/LoginPublisherAccountById"@,
        (Region::Global, Endpoint::LatestGlucose) =>
            "https://share2.dexcom.com/ShareWebServices/Services/Publisher/ReadPublisherLatestGlucoseValues"@,
        (Region::OutsideUs, Endpoint::AccountId) =>
            "https://shareous1.dexcom.com/ShareWebServices/Services/General/AuthenticatePublisherAccount"@,
        (Region::OutsideUs, Endpoint::SessionId) =>
            "https://shareous1.dexcom.com/ShareWebServices/Services/General/LoginPublisherAccountById"@,
        (Region::OutsideUs, Endpoint::LatestGlucose) =>
            "https://shareous1.dexcom.com/ShareWebServices/Services/Publisher/ReadPublisherLatestGlucoseValues"@,
    }
}

/// The address of an operation in a region.
pub fn uri(region: Region, endpoint: Endpoint) -> (r: &'static str)
    ensures
        r@ == endpoint_uri(region, endpoint),
{
    match (region, endpoint) {
        (Region::Global, Endpoint::AccountId) =>
            "https://share2.dexcom.com/ShareWebServices/Services/General/AuthenticatePublisherAccount",
        (Region::Global, Endpoint::SessionId) =>
            "https://share2.dexcom.com/ShareWebServices/Services/General/LoginPublisherAccountById",
        (Region::Global, Endpoint::LatestGlucose) =>
            "https://share2.dexcom.com/ShareWebServices/Services/Publisher/ReadPublisherLatestGlucoseValues",
        (Region::OutsideUs, Endpoint::AccountId) =>
            "https://shareous1.dexcom.com/ShareWebServices/Services/General/AuthenticatePublisherAccount",
        (Region::OutsideUs, Endpoint::SessionId) =>
            "https://shareous1.dexcom.com/ShareWebServices/Services/General/LoginPublisherAccountById",
        (Region::OutsideUs, Endpoint::LatestGlucose) =>
            "https://shareous1.dexcom.com/ShareWebServices/Services/Publisher/ReadPublisherLatestGlucoseValues",
    }
}

/// Appends `b` to `out`.
fn append(out: &mut Vec<u8>, b: &[u8])
    ensures
        final(out)@ == old(out)@ + b@,
{
    let mut i: usize = 0;
    while i < b.len()
        invariant
            i <= b@.len(),
            out@ == old(out)@ + b@.subrange(0, i as int),
        decreases b@.len() - i,
    {
        out.push(b[i]);
        assert(b@.subrange(0, i + 1) == b@.subrange(0, i as int).push(b@[i as int]));
        i = i + 1;
    }
    assert(b@.subrange(0, b@.len() as int) == b@);
}

/// The body that asks for the account id of an account name.
pub open spec fn account_id_request(account_name: Seq<char>, password: Seq<char>, application_id: Seq<char>) -> Option<Seq<u8>> {
    match (json_str_encoding(account_name), json_str_encoding(password), json_str_encoding(application_id)) {
        (Some(a), Some(p), Some(i)) => Some(
            "{\"accountName\":".spec_bytes() + a + ",\"password\":".spec_bytes() + p
                + ",\"applicationId\":".spec_bytes() + i + "}".spec_bytes(),
        ),
        _ => None,
    }
}

/// The body that asks for a session id for an account id.
pub open spec fn session_id_request(account_id: Seq<char>, password: Seq<char>, application_id: Seq<char>) -> Option<Seq<u8>> {
    match (json_str_encoding(account_id), json_str_encoding(password), json_str_encoding(application_id)) {
        (Some(a), Some(p), Some(i)) => Some(
            "{\"accountId\":".spec_bytes() + a + ",\"password\":".spec_bytes() + p
                + ",\"applicationId\":".spec_bytes() + i + "}".spec_bytes(),
        ),
        _ => None,
    }
}

/// The body that asks for the latest reading of a session: always the last
/// ten minutes, at most one reading.
pub open spec fn latest_glucose_request(session_id: Seq<char>) -> Option<Seq<u8>> {
    match json_str_encoding(session_id) {
        Some(s) => Some(
            "{\"sessionId\":".spec_bytes() + s + ",\"minutes\":10,\"maxCount\":1}".spec_bytes(),
        ),
        None => None,
    }
}

/// Whatever the session id, the readings request asks for the last ten
/// minutes and at most one reading: its body ends with the same members.
pub proof fn latest_glucose_window_is_fixed(session_id: Seq<char>)
    requires
        json_str_encoding(session_id) is Some,
    ensures
        latest_glucose_request(session_id) is Some,
        ({
            let body = latest_glucose_request(session_id)->Some_0;
            let tail = ",\"minutes\":10,\"maxCount\":1}".spec_bytes();
            &&& body.len() >= tail.len()
            &&& body.subrange(body.len() - tail.len(), body.len() as int) == tail
        }),
{
    let s = json_str_encoding(session_id)->Some_0;
    let head = "{\"sessionId\":".spec_bytes() + s;
    let tail = ",\"minutes\":10,\"maxCount\":1}".spec_bytes();
    let body = latest_glucose_request(session_id)->Some_0;
    assert(body == head + tail);
    assert(body.subrange(head.len() as int, body.len() as int) =~= tail);
}

/// The body that asks for the account id of an account name.
pub fn account_id_body(account_name: &str, password: &str, application_id: &str) -> (r: Result<Vec<u8>, serde_json::Error>)
    ensures
        match r {
            Ok(b) => account_id_request(account_name@, password@, application_id@) == Some(b@),
            Err(_) => account_id_request(account_name@, password@, application_id@) is None,
        },
{
    let a = encode_str(account_name)?;
    let p = encode_str(password)?;
    let i = encode_str(application_id)?;
    let mut out: Vec<u8> = Vec::new();
    append(&mut out, "{\"accountName\":".as_bytes());
    append(&mut out, a.as_slice());
    append(&mut out, ",\"password\":".as_bytes());
    append(&mut out, p.as_slice());
    append(&mut out, ",\"applicationId\":".as_bytes());
    append(&mut out, i.as_slice());
    append(&mut out, "}".as_bytes());
    Ok(out)
}

/// The body that asks for a session id for an account id.
pub fn session_id_body(account_id: &str, password: &str, application_id: &str) -> (r: Result<Vec<u8>, serde_json::Error>)
    ensures
        match r {
            Ok(b) => session_id_request(account_id@, password@, application_id@) == Some(b@),
            Err(_) => session_id_request(account_id@, password@, application_id@) is None,
        },
{
    let a = encode_str(account_id)?;
    let p = encode_str(password)?;
    let i = encode_str(application_id)?;
    let mut out: Vec<u8> = Vec::new();
    append(&mut out, "{\"accountId\":".as_bytes());
    append(&mut out, a.as_slice());
    append(&mut out, ",\"password\":".as_bytes());
    append(&mut out, p.as_slice());
    append(&mut out, ",\"applicationId\":".as_bytes());
    append(&mut out, i.as_slice());
    append(&mut out, "}".as_bytes());
    Ok(out)
}

/// The body that asks for the latest reading of a session.
pub fn latest_glucose_body(session_id: &str) -> (r: Result<Vec<u8>, serde_json::Error>)
    ensures
        match r {
            Ok(b) => latest_glucose_request(session_id@) == Some(b@),
            Err(_) => latest_glucose_request(session_id@) is None,
        },
{
    let s = encode_str(session_id)?;
    let mut out: Vec<u8> = Vec::new();
    append(&mut out, "{\"sessionId\":".as_bytes());
    append(&mut out, s.as_slice());
    append(&mut out, ",\"minutes\":10,\"maxCount\":1}".as_bytes());
    Ok(out)
}

} // verus!
