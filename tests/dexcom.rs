use rsdexcom::response::{decode_id, decode_reading};
use rsdexcom::wire::{account_id_body, latest_glucose_body, session_id_body, uri};
use rsdexcom::{
    Client, ClientError, Dexcom, DexcomError, DexcomErrorResponse, Endpoint, GlucosReading, Region,
    TestError, Trend,
};

const AUTHENTICATE: &str =
    "https://share2.dexcom.com/ShareWebServices/Services/General/AuthenticatePublisherAccount";
const LOGIN_ID: &str =
    "https://share2.dexcom.com/ShareWebServices/Services/General/LoginPublisherAccountById";
const READINGS: &str =
    "https://share2.dexcom.com/ShareWebServices/Services/Publisher/ReadPublisherLatestGlucoseValues";

/// A transport that answers each address with a fixed reply and records
/// every request it is handed.
struct Scripted {
    replies: Vec<(String, Result<(Vec<u8>, u16), TestError>)>,
    calls: Vec<(String, Vec<u8>)>,
    headers: Vec<(String, String)>,
}

impl Scripted {
    fn new() -> Self {
        Scripted { replies: Vec::new(), calls: Vec::new(), headers: Vec::new() }
    }

    fn on(mut self, uri: &str, status: u16, body: &[u8]) -> Self {
        self.replies.push((uri.to_string(), Ok((body.to_vec(), status))));
        self
    }

    fn failing(mut self, uri: &str) -> Self {
        self.replies.push((uri.to_string(), Err(TestError)));
        self
    }

    fn uris(&self) -> Vec<&str> {
        self.calls.iter().map(|c| c.0.as_str()).collect()
    }
}

impl Client for Scripted {
    type Error = TestError;

    fn post_request(
        &mut self,
        uri: &str,
        headers: &[(&str, &str)],
        body: &[u8],
        buf: &mut [u8],
    ) -> Result<(usize, u16), TestError> {
        self.calls.push((uri.to_string(), body.to_vec()));
        self.headers = headers.iter().map(|(k, v)| (k.to_string(), v.to_string())).collect();
        let reply = self.replies.iter().find(|r| r.0 == uri).expect("unexpected address").1.clone();
        match reply {
            Ok((bytes, status)) => {
                buf[..bytes.len()].copy_from_slice(&bytes);
                Ok((bytes.len(), status))
            }
            Err(e) => Err(e),
        }
    }
}

fn id_error(status: u16, body: &str) -> DexcomError {
    match decode_id::<TestError>(status, body.as_bytes()) {
        Err(ClientError::DexcomError(e)) => e,
        other => panic!("expected a rejection, got {:?}", other),
    }
}

#[test]
fn test_get_current_glucose_reading() {
    let mut client = Scripted::new()
        .on(AUTHENTICATE, 200, b"\"1e913fce-5a34-4d27-a991-b6cb3a3bd3d8\"")
        .on(LOGIN_ID, 200, b"\"a21d18db-a276-40bc-8337-77dcd02df53e\"")
        .on(
            READINGS,
            200,
            r#"[{"WT":"Date(1699110415000)","ST":"Date(1699110415000)","DT":"Date(1699110415000+0900)","Value":153,"Trend":"Flat"}]"#.as_bytes(),
        );

    let mut dexcom = Dexcom::new(&mut client);

    let session_id = dexcom.load_session_id("", "", "").unwrap();
    assert_eq!(session_id, "a21d18db-a276-40bc-8337-77dcd02df53e");

    let glucose = dexcom.get_current_glucose_reading(&session_id);

    assert!(glucose.is_ok());
    assert_eq!(glucose.unwrap(), [GlucosReading { trend: Trend::Flat, value: 153 }])
}

#[test]
fn test_dexcom_error_response() {
    let message = r#"{"Code":"SessionIdNotFound"}"#;
    let response = DexcomErrorResponse::parse(message.as_bytes()).unwrap();

    let error: DexcomError = response.into();
    assert_eq!(error, DexcomError::SessionNotFound);
}

#[test]
fn end_to_end_three_calls_in_order() {
    let mut client = Scripted::new()
        .on(AUTHENTICATE, 200, b"\"a21d18db-a276-40bc-8337-77dcd02df53e\"")
        .on(LOGIN_ID, 200, b"\"1e913fce-5a34-4d27-a991-b6cb3a3bd3d8\"")
        .on(READINGS, 200, br#"[{"Value":153,"Trend":"Flat"}]"#);
    {
        let mut dexcom = Dexcom::new(&mut client);
        let session_id = dexcom.load_session_id("u", "p", "a").unwrap();
        assert_eq!(session_id, "1e913fce-5a34-4d27-a991-b6cb3a3bd3d8");
        let reading = dexcom.get_current_glucose_reading(&session_id).unwrap();
        assert_eq!(reading, [GlucosReading { value: 153, trend: Trend::Flat }]);
    }
    assert_eq!(client.uris(), vec![AUTHENTICATE, LOGIN_ID, READINGS]);
    assert_eq!(
        client.calls[0].1,
        br#"{"accountName":"u","password":"p","applicationId":"a"}"#.to_vec()
    );
    assert_eq!(
        client.calls[1].1,
        br#"{"accountId":"a21d18db-a276-40bc-8337-77dcd02df53e","password":"p","applicationId":"a"}"#
            .to_vec()
    );
    assert_eq!(
        client.calls[2].1,
        br#"{"sessionId":"1e913fce-5a34-4d27-a991-b6cb3a3bd3d8","minutes":10,"maxCount":1}"#.to_vec()
    );
    assert_eq!(
        client.headers,
        vec![
            ("Content-Type".to_string(), "application/json".to_string()),
            ("User-Agent".to_string(), "rsdexcom/0.0.1".to_string()),
        ]
    );
}

#[test]
fn load_session_id_stops_after_a_rejected_first_call() {
    let mut client = Scripted::new()
        .on(AUTHENTICATE, 500, br#"{"Code":"AccountPasswordInvalid","Message":"bad"}"#)
        .on(LOGIN_ID, 200, b"\"never\"");
    {
        let mut dexcom = Dexcom::new(&mut client);
        match dexcom.load_session_id("u", "p", "a") {
            Err(ClientError::DexcomError(e)) => assert_eq!(e, DexcomError::AccountPasswordInvalid),
            other => panic!("unexpected {:?}", other),
        }
    }
    assert_eq!(client.uris(), vec![AUTHENTICATE]);
}

#[test]
fn load_session_id_stops_after_a_transport_failure() {
    let mut client = Scripted::new().failing(AUTHENTICATE).on(LOGIN_ID, 200, b"\"never\"");
    {
        let mut dexcom = Dexcom::new(&mut client);
        match dexcom.load_session_id("u", "p", "a") {
            Err(ClientError::ConnectionError(TestError)) => {}
            other => panic!("unexpected {:?}", other),
        }
    }
    assert_eq!(client.uris(), vec![AUTHENTICATE]);
}

#[test]
fn load_session_id_reports_the_second_call_failure() {
    let mut client = Scripted::new()
        .on(AUTHENTICATE, 200, b"\"acc\"")
        .on(LOGIN_ID, 400, br#"{"Code":"InvalidArgument","Message":"UUID is malformed"}"#);
    {
        let mut dexcom = Dexcom::new(&mut client);
        match dexcom.load_session_id("u", "p", "a") {
            Err(ClientError::DexcomError(e)) => assert_eq!(e, DexcomError::InvalidAccountId),
            other => panic!("unexpected {:?}", other),
        }
    }
    assert_eq!(client.uris(), vec![AUTHENTICATE, LOGIN_ID]);
}

#[test]
fn glucose_reading_is_one_call_with_a_fixed_window() {
    let mut client = Scripted::new().on(READINGS, 200, br#"[{"Value":90,"Trend":"SingleDown"}]"#);
    {
        let mut dexcom = Dexcom::new(&mut client);
        let r = dexcom.get_current_glucose_reading("some-session").unwrap();
        assert_eq!(r, [GlucosReading { value: 90, trend: Trend::SingleDown }]);
    }
    assert_eq!(client.uris(), vec![READINGS]);
    assert_eq!(
        client.calls[0].1,
        br#"{"sessionId":"some-session","minutes":10,"maxCount":1}"#.to_vec()
    );
}

#[test]
fn outside_us_region_uses_its_own_host() {
    let ous = "https://shareous1.dexcom.com/ShareWebServices/Services/Publisher/ReadPublisherLatestGlucoseValues";
    let mut client = Scripted::new().on(ous, 200, br#"[{"Value":100,"Trend":4}]"#);
    {
        let mut dexcom = Dexcom::with_region(&mut client, Region::OutsideUs);
        let r = dexcom.get_current_glucose_reading("s").unwrap();
        assert_eq!(r, [GlucosReading { value: 100, trend: Trend::Flat }]);
    }
    assert_eq!(client.uris(), vec![ous]);
    assert_eq!(uri(Region::Global, Endpoint::AccountId), AUTHENTICATE);
    assert_eq!(uri(Region::Global, Endpoint::SessionId), LOGIN_ID);
    assert_eq!(uri(Region::Global, Endpoint::LatestGlucose), READINGS);
    assert_eq!(
        uri(Region::OutsideUs, Endpoint::AccountId),
        "https://shareous1.dexcom.com/ShareWebServices/Services/General/AuthenticatePublisherAccount"
    );
}

#[test]
fn reading_decodes_exact_fields() {
    let r = decode_reading::<TestError>(200, br#"[{"Value":-5,"Trend":"DoubleUp","Extra":[1,2]}]"#);
    assert_eq!(r.unwrap(), [GlucosReading { value: -5, trend: Trend::DoubleUp }]);
    let r = decode_reading::<TestError>(299, br#"[{"Trend":9,"Value":2147483647}]"#);
    assert_eq!(r.unwrap(), [GlucosReading { value: i32::MAX, trend: Trend::RateOutOfRange }]);
}

#[test]
fn reading_of_wrong_shape_is_a_json_error() {
    let bodies: [&[u8]; 7] = [
        b"[]",
        br#"[{"Value":1,"Trend":"Flat"},{"Value":2,"Trend":"Flat"}]"#,
        br#"[{"Value":1}]"#,
        br#"[{"Value":1,"Trend":"Sideways"}]"#,
        br#"[{"Value":2147483648,"Trend":"Flat"}]"#,
        br#"{"Value":1,"Trend":"Flat"}"#,
        b"not json",
    ];
    for body in bodies {
        match decode_reading::<TestError>(200, body) {
            Err(ClientError::JSONError(_)) => {}
            other => panic!("unexpected {:?}", other),
        }
    }
}

#[test]
fn unparsable_success_body_is_a_json_error() {
    match decode_id::<TestError>(200, b"{not json") {
        Err(ClientError::JSONError(_)) => {}
        other => panic!("unexpected {:?}", other),
    }
    match decode_id::<TestError>(200, b"42") {
        Err(ClientError::JSONError(_)) => {}
        other => panic!("unexpected {:?}", other),
    }
    assert_eq!(decode_id::<TestError>(204, b"\"x\\\"y\"").unwrap(), "x\"y");
}

#[test]
fn session_not_found_code() {
    assert_eq!(id_error(500, r#"{"Code":"SessionIdNotFound"}"#), DexcomError::SessionNotFound);
    assert_eq!(id_error(300, r#"{"Code":"SessionIdNotFound"}"#), DexcomError::SessionNotFound);
}

#[test]
fn invalid_argument_messages() {
    let name = r#"{"Code":"InvalidArgument","Message":"accountName is required"}"#;
    assert_eq!(id_error(400, name), DexcomError::InvalidUsername);
    let password = r#"{"Code":"InvalidArgument","Message":"password is required"}"#;
    assert_eq!(id_error(400, password), DexcomError::InvalidPassword);
    let other = r#"{"Code":"InvalidArgument","Message":"something else"}"#;
    assert_eq!(id_error(400, other), DexcomError::InvalidUnknown);
    let both = r#"{"Code":"InvalidArgument","Message":"password and accountName"}"#;
    assert_eq!(id_error(400, both), DexcomError::InvalidUsername);
    let uuid = r#"{"Code":"InvalidArgument","Message":"not a UUID"}"#;
    assert_eq!(id_error(400, uuid), DexcomError::InvalidAccountId);
    let lower = r#"{"Code":"InvalidArgument","Message":"uuid"}"#;
    assert_eq!(id_error(400, lower), DexcomError::InvalidUnknown);
    let absent = r#"{"Code":"InvalidArgument"}"#;
    assert_eq!(id_error(400, absent), DexcomError::InvalidUnknown);
}

#[test]
fn every_code_maps_to_its_error() {
    assert_eq!(id_error(401, r#"{"Code":"SessionNotValid"}"#), DexcomError::SessionInvalid);
    assert_eq!(
        id_error(401, r#"{"Code":"AccountPasswordInvalid"}"#),
        DexcomError::AccountPasswordInvalid
    );
    assert_eq!(
        id_error(429, r#"{"Code":"SSO_AuthenticateMaxAttemptsExceeed","Message":"x"}"#),
        DexcomError::AuthenticateMaxAttempsExceed
    );
    assert_eq!(id_error(500, r#"{"Code":"Teapot"}"#), DexcomError::Unknown);
    assert_eq!(id_error(500, r#"{"Message":"accountName"}"#), DexcomError::Unknown);
    assert_eq!(id_error(500, r#"{"Code":null,"TypeName":"FaultException"}"#), DexcomError::Unknown);
    assert_eq!(id_error(199, r#"{"Code":"SessionNotValid"}"#), DexcomError::SessionInvalid);
}

#[test]
fn unreadable_error_body_is_a_json_error() {
    for body in ["not json", r#"["SessionIdNotFound"]"#, r#"{"Code":5}"#] {
        match decode_id::<TestError>(500, body.as_bytes()) {
            Err(ClientError::JSONError(_)) => {}
            other => panic!("unexpected {:?}", other),
        }
    }
}

#[test]
fn error_response_from_fields() {
    let response = DexcomErrorResponse {
        code: Some("InvalidArgument".to_string()),
        message: Some("password too short".to_string()),
    };
    assert_eq!(DexcomError::from(response), DexcomError::InvalidPassword);
    let parsed =
        DexcomErrorResponse::parse(br#"{"Code":"SessionNotValid","Message":"expired"}"#).unwrap();
    assert_eq!(parsed.code.as_deref(), Some("SessionNotValid"));
    assert_eq!(parsed.message.as_deref(), Some("expired"));
}

#[test]
fn request_bodies_escape_their_strings() {
    assert_eq!(
        account_id_body("a\"b", "p\\q", "é").unwrap(),
        "{\"accountName\":\"a\\\"b\",\"password\":\"p\\\\q\",\"applicationId\":\"é\"}".as_bytes().to_vec()
    );
    assert_eq!(
        session_id_body("id", "", "app").unwrap(),
        br#"{"accountId":"id","password":"","applicationId":"app"}"#.to_vec()
    );
    assert_eq!(
        latest_glucose_body("").unwrap(),
        br#"{"sessionId":"","minutes":10,"maxCount":1}"#.to_vec()
    );
}

#[test]
fn trend_names_numbers_and_glyphs() {
    let all = [
        ("None", Trend::NoTrend, "-"),
        ("DoubleUp", Trend::DoubleUp, "↑↑"),
        ("SingleUp", Trend::SingleUp, "↑"),
        ("FortyFiveUp", Trend::FortyFiveUp, "↗"),
        ("Flat", Trend::Flat, "→"),
        ("FortyFiveDown", Trend::FortyFiveDown, "↘"),
        ("SingleDown", Trend::SingleDown, "↓"),
        ("DoubleDown", Trend::DoubleDown, "↓↓"),
        ("NotComputable", Trend::NotComputable, "?"),
        ("RateOutOfRange", Trend::RateOutOfRange, "!"),
    ];
    for (i, (name, trend, glyph)) in all.iter().enumerate() {
        assert_eq!(Trend::from_name(name), Some(*trend));
        assert_eq!(Trend::from_index(i as i64), Some(*trend));
        assert_eq!(trend.glyph(), *glyph);
        assert_eq!(trend.to_string(), glyph.to_string());
    }
    assert_eq!(Trend::from_name("flat"), None);
    assert_eq!(Trend::from_index(10), None);
    assert_eq!(Trend::from_index(-1), None);
}

#[test]
fn oversized_reported_length_is_cut_to_the_buffer() {
    struct Liar;
    impl Client for Liar {
        type Error = TestError;
        fn post_request(
            &mut self,
            _uri: &str,
            _headers: &[(&str, &str)],
            _body: &[u8],
            buf: &mut [u8],
        ) -> Result<(usize, u16), TestError> {
            buf[..3].copy_from_slice(b"\"x\"");
            for b in buf[3..].iter_mut() {
                *b = b' ';
            }
            Ok((100_000, 200))
        }
    }
    let mut liar = Liar;
    let mut dexcom = Dexcom::new(&mut liar);
    assert_eq!(dexcom.get_account_id("u", "p", "a").unwrap(), "x");
}
