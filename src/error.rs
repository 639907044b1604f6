//! The service's rejections, and the errors of a client call.
use vstd::prelude::*;
use vstd::string::StrSliceExecFns;

verus! {

/// A rejection reported by the service on a response outside 2xx.
#[derive(Debug, Clone, Copy, PartialEq, Eq, Structural)]
pub enum DexcomError {
    AccountPasswordInvalid,
    AuthenticateMaxAttempsExceed,
    SessionNotFound,
    SessionInvalid,
    InvalidUsername,
    InvalidPassword,
    InvalidAccountId,
    InvalidUnknown,
    Unknown,
}

/// The two fields of an error body: `Code` and `Message`, each optional.
#[derive(Debug)]
pub struct DexcomErrorResponse {
    pub code: Option<String>,
    pub message: Option<String>,
}

/// `p` occurs in `t` as a contiguous run of characters.
pub open spec fn has_fragment(t: Seq<char>, p: Seq<char>) -> bool {
    exists|i: int| 0 <= i && i + p.len() <= t.len() && #[trigger] t.subrange(i, i + p.len()) == p
}

/// The rejection named by an `InvalidArgument` code, chosen by the first of
/// `accountName`, `password` and `UUID` that the message contains.
pub open spec fn invalid_argument_error(message: Option<Seq<char>>) -> DexcomError {
    match message {
        None => DexcomError::InvalidUnknown,
        Some(m) => if has_fragment(m, "accountName"@) {
            DexcomError::InvalidUsername
        } else if has_fragment(m, "password"@) {
            DexcomError::InvalidPassword
        } else if has_fragment(m, "UUID"@) {
            DexcomError::InvalidAccountId
        } else {
            DexcomError::InvalidUnknown
        },
    }
}

/// The rejection that a `(Code, Message)` pair stands for.
pub open spec fn error_for(code: Option<Seq<char>>, message: Option<Seq<char>>) -> DexcomError {
    match code {
        None => DexcomError::Unknown,
        Some(c) => if c == "SessionIdNotFound"@ {
            DexcomError::SessionNotFound
        } else if c == "SessionNotValid"@ {
            DexcomError::SessionInvalid
        } else if c == "AccountPasswordInvalid"@ {
            DexcomError::AccountPasswordInvalid
        } else if c == "SSO_AuthenticateMaxAttemptsExceeed"@ {
            DexcomError::AuthenticateMaxAttempsExceed
        } else if c == "InvalidArgument"@ {
            invalid_argument_error(message)
        } else {
            DexcomError::Unknown
        },
    }
}

pub open spec fn opt_view(s: Option<String>) -> Option<Seq<char>> {
    match s {
        Some(t) => Some(t@),
        None => None,
    }
}

impl DexcomErrorResponse {
    pub open spec fn view_code(&self) -> Option<Seq<char>> {
        opt_view(self.code)
    }

    pub open spec fn view_message(&self) -> Option<Seq<char>> {
        opt_view(self.message)
    }
}

/// Whether two strings hold the same characters.
pub fn same_text(a: &str, b: &str) -> (r: bool)
    ensures
        r == (a@ == b@),
{
    let n = a.unicode_len();
    if n != b.unicode_len() {
        return false;
    }
    let mut i: usize = 0;
    while i < n
        invariant
            n == a@.len(),
            n == b@.len(),
            i <= n,
            a@.subrange(0, i as int) == b@.subrange(0, i as int),
        decreases n - i,
    {
        if a.get_char(i) != b.get_char(i) {
            return false;
        }
        assert(a@.subrange(0, i + 1) == a@.subrange(0, i as int).push(a@[i as int]));
        assert(b@.subrange(0, i + 1) == b@.subrange(0, i as int).push(b@[i as int]));
        i = i + 1;
    }
    assert(a@ == a@.subrange(0, n as int));
    assert(b@ == b@.subrange(0, n as int));
    true
}

/// Whether `pattern` occurs in `text`, as `str::contains` decides it.
pub fn contains_text(text: &str, pattern: &str) -> (r: bool)
    ensures
        r == has_fragment(text@, pattern@),
{
    let n = text.unicode_len();
    let m = pattern.unicode_len();
    if m > n {
        return false;
    }
    if m == 0 {
        assert(text@.subrange(0, 0int + pattern@.len()) =~= pattern@);
        return true;
    }
    let mut i: usize = 0;
    while i <= n - m
        invariant
            n == text@.len(),
            m == pattern@.len(),
            1 <= m <= n,
            i <= n - m + 1,
            forall|k: int| 0 <= k < i ==> #[trigger] text@.subrange(k, k + m) != pattern@,
        decreases n - i,
    {
        let mut j: usize = 0;
        let mut same = true;
        while j < m && same
            invariant
                n == text@.len(),
                m == pattern@.len(),
                m <= n,
                i <= n - m,
                j <= m,
                same ==> forall|k: int| 0 <= k < j ==> text@[i + k] == pattern@[k],
                !same ==> text@.subrange(i as int, i + m) != pattern@,
            decreases m - j + if same { 1int } else { 0int },
        {
            if text.get_char(i + j) != pattern.get_char(j) {
                assert(text@.subrange(i as int, i + m)[j as int] != pattern@[j as int]);
                same = false;
            } else {
                j = j + 1;
            }
        }
        if same {
            assert(text@.subrange(i as int, i + m) =~= pattern@);
            return true;
        }
        i = i + 1;
    }
    proof {
        assert forall|k: int| 0 <= k && k + pattern@.len() <= text@.len() implies #[trigger] text@.subrange(
            k,
            k + pattern@.len(),
        ) != pattern@ by {
            assert(k < i);
        }
    }
    false
}

/// The rejection that an error body stands for.
pub fn error_of(code: Option<&str>, message: Option<&str>) -> (r: DexcomError)
    ensures
        r == error_for(
            match code {
                Some(c) => Some(c@),
                None => None,
            },
            match message {
                Some(t) => Some(t@),
                None => None,
            },
        ),
{
    match code {
        None => DexcomError::Unknown,
        Some(code) => {
            if same_text(code, "SessionIdNotFound") {
                DexcomError::SessionNotFound
            } else if same_text(code, "SessionNotValid") {
                DexcomError::SessionInvalid
            } else if same_text(code, "AccountPasswordInvalid") {
                DexcomError::AccountPasswordInvalid
            } else if same_text(code, "SSO_AuthenticateMaxAttemptsExceeed") {
                DexcomError::AuthenticateMaxAttempsExceed
            } else if same_text(code, "InvalidArgument") {
                match message {
                    None => DexcomError::InvalidUnknown,
                    Some(message) => {
                        if contains_text(message, "accountName") {
                            DexcomError::InvalidUsername
                        } else if contains_text(message, "password") {
                            DexcomError::InvalidPassword
                        } else if contains_text(message, "UUID") {
                            DexcomError::InvalidAccountId
                        } else {
                            DexcomError::InvalidUnknown
                        }
                    },
                }
            } else {
                DexcomError::Unknown
            }
        },
    }
}

impl From<DexcomErrorResponse> for DexcomError {
    fn from(val: DexcomErrorResponse) -> (r: DexcomError) {
        let code = match &val.code {
            Some(c) => Some(c.as_str()),
            None => None,
        };
        let message = match &val.message {
            Some(m) => Some(m.as_str()),
            None => None,
        };
        error_of(code, message)
    }
}

impl vstd::std_specs::convert::FromSpecImpl<DexcomErrorResponse> for DexcomError {
    open spec fn obeys_from_spec() -> bool {
        true
    }

    open spec fn from_spec(v: DexcomErrorResponse) -> DexcomError {
        error_for(v.view_code(), v.view_message())
    }
}

/// A JSON document that could not be written or read.
#[derive(Debug)]
pub struct SerdeJsonError(pub serde_json::Error);

impl From<serde_json::Error> for SerdeJsonError {
    fn from(value: serde_json::Error) -> (r: SerdeJsonError) {
        SerdeJsonError(value)
    }
}

impl vstd::std_specs::convert::FromSpecImpl<serde_json::Error> for SerdeJsonError {
    open spec fn obeys_from_spec() -> bool {
        true
    }

    open spec fn from_spec(v: serde_json::Error) -> SerdeJsonError {
        SerdeJsonError(v)
    }
}

/// Why a call of the client failed: the transport failed, the service
/// rejected the request, or a document could not be written or read.
#[derive(Debug)]
pub enum ClientError<E> {
    ConnectionError(E),
    DexcomError(DexcomError),
    JSONError(SerdeJsonError),
}

impl<E> From<DexcomError> for ClientError<E> {
    fn from(value: DexcomError) -> (r: ClientError<E>) {
        ClientError::DexcomError(value)
    }
}

impl<E> vstd::std_specs::convert::FromSpecImpl<DexcomError> for ClientError<E> {
    open spec fn obeys_from_spec() -> bool {
        true
    }

    open spec fn from_spec(v: DexcomError) -> ClientError<E> {
        ClientError::DexcomError(v)
    }
}

impl<E> From<SerdeJsonError> for ClientError<E> {
    fn from(value: SerdeJsonError) -> (r: ClientError<E>) {
        ClientError::JSONError(value)
    }
}

impl<E> vstd::std_specs::convert::FromSpecImpl<SerdeJsonError> for ClientError<E> {
    open spec fn obeys_from_spec() -> bool {
        true
    }

    open spec fn from_spec(v: SerdeJsonError) -> ClientError<E> {
        ClientError::JSONError(v)
    }
}

} // verus!
