//! The JSON API: authentication of requests with a bearer token.
//!
//! A request to the API carries an API key token in the header
//! `Authorization: Bearer <token>`. This module reads that header and decides
//! what the lookup of the token means for the request.
use vstd::prelude::*;
use vstd::slice::slice_subrange;
use crate::error::{commit_record_error, AppError, DbError, DbFailure};
use crate::authentication::token::{is_token_text, is_url_safe_base64_char};
use crate::record::{Record, Timestamp};

verus! {

pub const MISSING_AUTHORIZATION: &'static str = "missing Authorization header (expected: Authorization: Bearer <token>)";
pub const NOT_ASCII: &'static str = "API key token must be valid ASCII";
pub const NOT_BEARER_FORMAT: &'static str = "Authorization header must be in the format 'Bearer <token>'";
pub const NOT_BEARER_SCHEME: &'static str = "Authorization scheme must be 'Bearer'";
pub const EMPTY_TOKEN: &'static str = "Bearer token must not be empty";
pub const EMPTY_ACCESS_KEY: &'static str = "access_key header must not be empty";
pub const UNKNOWN_TOKEN: &'static str = "unknown API key token";
pub const RECORD_NOT_FOUND: &'static str = "No record with the supplied id was found";
pub const RECORD_SAVED: &'static str = "record saved successfully";

/// The query of a request for records: those taken from a moment on, and at
/// most so many of them.
#[derive(Debug, Clone, Copy)]
pub struct RecordFilter {
    pub from: Option<Timestamp>,
    pub limit: Option<u32>,
}

/// The answer to a request for one record: the record, or not found (404).
pub fn found_record(record: Option<Record>) -> (answer: Result<Record, AppError>)
    ensures
        match record {
            Some(r) => (answer matches Ok(a) && a@ == r@),
            None => (answer matches Err(e) && e == AppError::NotFound(RECORD_NOT_FOUND)),
        },
{
    match record {
        Some(record) => Ok(record),
        None => Err(AppError::NotFound(RECORD_NOT_FOUND)),
    }
}

/// A byte that a header value may hold to be read as text: a visible ASCII
/// character, a space or a tab.
pub open spec fn is_visible_ascii(b: u8) -> bool {
    (32 <= b && b < 127) || b == 9
}

pub open spec fn all_visible_ascii(s: Seq<u8>) -> bool {
    forall|i: int| 0 <= i < s.len() ==> is_visible_ascii(#[trigger] s[i])
}

/// Whether `p` is the position of the first space in `s`.
pub open spec fn is_first_space(s: Seq<u8>, p: int) -> bool {
    &&& 0 <= p < s.len()
    &&& s[p] == 32
    &&& forall|k: int| 0 <= k < p ==> #[trigger] s[k] != 32
}

pub open spec fn has_space(s: Seq<u8>) -> bool {
    exists|p: int| is_first_space(s, p)
}

/// The position of the first space in `s` (meaningful when there is one).
pub open spec fn first_space(s: Seq<u8>) -> int {
    choose|p: int| is_first_space(s, p)
}

/// An ASCII byte with upper-case letters turned to lower case.
pub open spec fn ascii_lower(b: u8) -> u8 {
    if 65 <= b && b <= 90 {
        (b + 32) as u8
    } else {
        b
    }
}

/// Equality of byte strings up to the case of ASCII letters.
pub open spec fn eq_ignore_ascii_case(a: Seq<u8>, b: Seq<u8>) -> bool {
    &&& a.len() == b.len()
    &&& forall|i: int| 0 <= i < a.len() ==> ascii_lower(#[trigger] a[i]) == ascii_lower(b[i])
}

/// The bytes of `bearer`.
pub open spec fn bearer() -> Seq<u8> {
    seq![98u8, 101u8, 97u8, 114u8, 101u8, 114u8]
}

/// The white space that trimming removes (that of `char::is_whitespace` among
/// ASCII characters): space, tab, line feed, vertical tab, form feed and
/// carriage return.
pub open spec fn is_white_space(b: u8) -> bool {
    b == 32 || (9 <= b && b <= 13)
}

pub open spec fn trim_start(s: Seq<u8>) -> Seq<u8>
    decreases s.len(),
{
    if s.len() > 0 && is_white_space(s[0]) {
        trim_start(s.drop_first())
    } else {
        s
    }
}

pub open spec fn trim_end(s: Seq<u8>) -> Seq<u8>
    decreases s.len(),
{
    if s.len() > 0 && is_white_space(s.last()) {
        trim_end(s.drop_last())
    } else {
        s
    }
}

/// `s` without leading and trailing white space.
pub open spec fn trim(s: Seq<u8>) -> Seq<u8> {
    trim_end(trim_start(s))
}

/// The scheme of a header value: what precedes the first space.
pub open spec fn scheme_of(s: Seq<u8>) -> Seq<u8> {
    s.subrange(0, first_space(s))
}

/// The token of a header value: what follows the first space, trimmed.
pub open spec fn token_of(s: Seq<u8>) -> Seq<u8> {
    trim(s.subrange(first_space(s) + 1, s.len() as int))
}

/// What a present `Authorization` header value yields: the token, or the error
/// that the request is refused with.
pub open spec fn bearer_outcome(s: Seq<u8>) -> Result<Seq<u8>, AppError> {
    if !all_visible_ascii(s) {
        Err(AppError::BadRequest(NOT_ASCII))
    } else if !has_space(s) {
        Err(AppError::BadRequest(NOT_BEARER_FORMAT))
    } else if !eq_ignore_ascii_case(scheme_of(s), bearer()) {
        Err(AppError::BadRequest(NOT_BEARER_SCHEME))
    } else if token_of(s).len() == 0 {
        Err(AppError::BadRequest(EMPTY_TOKEN))
    } else {
        Ok(token_of(s))
    }
}

/// Whether a parsed token agrees with the expected outcome: the same error, or
/// a token with the expected bytes as its characters.
pub open spec fn token_meets(token: Result<AuthTokenValue, AppError>, outcome: Result<Seq<u8>, AppError>) -> bool {
    match outcome {
        Ok(t) => token matches Ok(v) && v@ == ascii_chars(t),
        Err(e) => token matches Err(f) && f == e,
    }
}

/// ASCII bytes read as characters.
pub open spec fn ascii_chars(s: Seq<u8>) -> Seq<char> {
    s.map_values(|b: u8| b as char)
}

/// Turns bytes into text with `String::from_utf8_lossy` (std); bytes below 128
/// are ASCII characters and stand for themselves.
#[verifier::external_body]
fn ascii_to_string(bytes: &[u8]) -> (text: String)
    requires
        forall|i: int| 0 <= i < bytes@.len() ==> bytes@[i] < 128,
    ensures
        text@ == ascii_chars(bytes@),
{
    String::from_utf8_lossy(bytes).into_owned()
}

proof fn lemma_first_space_is_unique(s: Seq<u8>, p: int)
    requires
        is_first_space(s, p),
    ensures
        has_space(s),
        first_space(s) == p,
{
    let q = first_space(s);
    assert(is_first_space(s, q));
    if q < p {
        assert(s[q] != 32);
    } else if p < q {
        assert(s[p] != 32);
    }
}

/// Whether every byte of `h` is visible ASCII.
fn all_visible(h: &[u8]) -> (visible: bool)
    ensures
        visible == all_visible_ascii(h@),
{
    let len = h.len();
    let mut i: usize = 0;
    while i < len
        invariant
            len == h@.len(),
            i <= len,
            forall|k: int| 0 <= k < i ==> is_visible_ascii(#[trigger] h@[k]),
        decreases len - i,
    {
        let b = h[i];
        if !((32 <= b && b < 127) || b == 9) {
            assert(!is_visible_ascii(h@[i as int]));
            return false;
        }
        i = i + 1;
    }
    true
}

/// The bounds of what remains of `h` from `from` on once white space at both
/// ends is removed.
fn trimmed_range(h: &[u8], from: usize) -> (range: (usize, usize))
    requires
        from <= h@.len(),
    ensures
        from <= range.0 <= range.1 <= h@.len(),
        trim(h@.subrange(from as int, h@.len() as int)) == h@.subrange(range.0 as int, range.1 as int),
{
    let len = h.len();
    let ghost s = h@;
    let ghost rest = s.subrange(from as int, len as int);
    let mut start: usize = from;
    while start < len && (h[start] == 32 || (9 <= h[start] && h[start] <= 13))
        invariant
            len == s.len(),
            h@ == s,
            from <= start <= len,
            rest == s.subrange(from as int, len as int),
            trim_start(rest) == trim_start(s.subrange(start as int, len as int)),
        decreases len - start,
    {
        let ghost sub = s.subrange(start as int, len as int);
        assert(sub.drop_first() =~= s.subrange(start + 1, len as int));
        start = start + 1;
    }
    assert(trim_start(rest) == s.subrange(start as int, len as int));

    let mut end: usize = len;
    while end > start && (h[end - 1] == 32 || (9 <= h[end - 1] && h[end - 1] <= 13))
        invariant
            len == s.len(),
            h@ == s,
            start <= end <= len,
            trim_end(s.subrange(start as int, len as int)) == trim_end(s.subrange(start as int, end as int)),
        decreases end,
    {
        let ghost sub = s.subrange(start as int, end as int);
        assert(sub.drop_last() =~= s.subrange(start as int, end - 1));
        end = end - 1;
    }
    assert(trim_end(s.subrange(start as int, end as int)) == s.subrange(start as int, end as int));
    (start, end)
}

/// The token made of the visible ASCII bytes `h[start..end]`.
fn token_in(h: &[u8], start: usize, end: usize) -> (token: AuthTokenValue)
    requires
        start <= end <= h@.len(),
        all_visible_ascii(h@),
    ensures
        token@ == ascii_chars(h@.subrange(start as int, end as int)),
{
    let token_bytes = slice_subrange(h, start, end);
    assert forall|k: int| 0 <= k < token_bytes@.len() implies token_bytes@[k] < 128 by {
        assert(token_bytes@[k] == h@[start + k]);
        assert(is_visible_ascii(h@[start + k]));
    }
    AuthTokenValue::new(ascii_to_string(token_bytes))
}

/// What a present `access_key` header value yields: the trimmed token, or the
/// error that the request is refused with.
pub open spec fn access_key_outcome(s: Seq<u8>) -> Result<Seq<u8>, AppError> {
    if !all_visible_ascii(s) {
        Err(AppError::BadRequest(NOT_ASCII))
    } else if trim(s).len() == 0 {
        Err(AppError::BadRequest(EMPTY_ACCESS_KEY))
    } else {
        Ok(trim(s))
    }
}

/// What the headers of a request yield: the `Authorization` header decides
/// when it is there; otherwise the `access_key` header; a request with
/// neither is unauthorized.
pub open spec fn request_token_outcome(authorization: Option<Seq<u8>>, access_key: Option<Seq<u8>>) -> Result<
    Seq<u8>,
    AppError,
> {
    match authorization {
        Some(a) => bearer_outcome(a),
        None => match access_key {
            Some(k) => access_key_outcome(k),
            None => Err(AppError::Unauthorized(MISSING_AUTHORIZATION)),
        },
    }
}

/// The value of a bearer token taken from an `Authorization` header.
#[derive(Debug, Clone)]
pub struct AuthTokenValue {
    value: String,
}

impl View for AuthTokenValue {
    type V = Seq<char>;

    closed spec fn view(&self) -> Seq<char> {
        self.value@
    }
}

impl AuthTokenValue {
    pub fn new(token: String) -> (value: Self)
        ensures
            value@ == token@,
    {
        Self { value: token }
    }

    /// The token itself.
    pub fn value(&self) -> (token: &str)
        ensures
            token@ == self@,
    {
        self.value.as_str()
    }

    /// Reads the token of a request from its `Authorization` header (`None`
    /// when the request has none). The header must be visible ASCII text made
    /// of the scheme `Bearer` (in any case), a space, and a token that is not
    /// empty once white space around it is removed.
    pub fn from_authorization_header(header: Option<&[u8]>) -> (token: Result<Self, AppError>)
        ensures
            match header {
                None => token_meets(token, Err(AppError::Unauthorized(MISSING_AUTHORIZATION))),
                Some(h) => token_meets(token, bearer_outcome(h@)),
            },
    {
        let h = match header {
            None => return Err(AppError::Unauthorized(MISSING_AUTHORIZATION)),
            Some(h) => h,
        };
        let len = h.len();
        let ghost s = h@;
        if !all_visible(h) {
            return Err(AppError::BadRequest(NOT_ASCII));
        }

        let mut p: usize = 0;
        while p < len && h[p] != 32
            invariant
                len == s.len(),
                h@ == s,
                p <= len,
                forall|k: int| 0 <= k < p ==> #[trigger] s[k] != 32,
            decreases len - p,
        {
            p = p + 1;
        }
        if p == len {
            assert(!has_space(s)) by {
                if has_space(s) {
                    let q = choose|q: int| is_first_space(s, q);
                    assert(s[q] != 32);
                }
            }
            return Err(AppError::BadRequest(NOT_BEARER_FORMAT));
        }
        proof {
            lemma_first_space_is_unique(s, p as int);
        }

        let expected: [u8; 6] = [98u8, 101u8, 97u8, 114u8, 101u8, 114u8];
        assert(expected@ =~= bearer());
        if p != 6 {
            assert(scheme_of(s).len() != bearer().len());
            return Err(AppError::BadRequest(NOT_BEARER_SCHEME));
        }
        let mut j: usize = 0;
        while j < 6
            invariant
                header == Some(h),
                all_visible_ascii(s),
                has_space(s),
                first_space(s) == 6,
                p == 6,
                len == s.len(),
                h@ == s,
                6 < len,
                expected@ == bearer(),
                j <= 6,
                forall|k: int| 0 <= k < j ==> ascii_lower(#[trigger] s[k]) == ascii_lower(bearer()[k]),
            decreases 6 - j,
        {
            let b = h[j];
            let lower = if 65 <= b && b <= 90 { b + 32 } else { b };
            if lower != expected[j] {
                assert(ascii_lower(s[j as int]) != ascii_lower(bearer()[j as int]));
                assert(scheme_of(s)[j as int] == s[j as int]);
                return Err(AppError::BadRequest(NOT_BEARER_SCHEME));
            }
            j = j + 1;
        }
        assert(eq_ignore_ascii_case(scheme_of(s), bearer())) by {
            assert forall|k: int| 0 <= k < scheme_of(s).len() implies ascii_lower(#[trigger] scheme_of(s)[k])
                == ascii_lower(bearer()[k]) by {
                assert(scheme_of(s)[k] == s[k]);
            }
        }

        let (start, end) = trimmed_range(h, p + 1);
        assert(token_of(s) == s.subrange(start as int, end as int));
        if start == end {
            return Err(AppError::BadRequest(EMPTY_TOKEN));
        }
        Ok(token_in(h, start, end))
    }

    /// Reads an API key token from an `access_key` header: visible ASCII text
    /// that is not empty once white space around it is removed.
    pub fn from_access_key_header(header: &[u8]) -> (token: Result<Self, AppError>)
        ensures
            token_meets(token, access_key_outcome(header@)),
    {
        if !all_visible(header) {
            return Err(AppError::BadRequest(NOT_ASCII));
        }
        let (start, end) = trimmed_range(header, 0);
        assert(header@.subrange(0, header@.len() as int) =~= header@);
        if start == end {
            return Err(AppError::BadRequest(EMPTY_ACCESS_KEY));
        }
        Ok(token_in(header, start, end))
    }

    /// Reads the token of a request from its headers: from `Authorization`
    /// (as `Bearer <token>`) when the request has that header, and otherwise
    /// from `access_key`. A request with neither is unauthorized.
    pub fn from_request_headers(authorization: Option<&[u8]>, access_key: Option<&[u8]>) -> (token: Result<
        Self,
        AppError,
    >)
        ensures
            token_meets(
                token,
                request_token_outcome(
                    match authorization {
                        Some(a) => Some(a@),
                        None => None,
                    },
                    match access_key {
                        Some(k) => Some(k@),
                        None => None,
                    },
                ),
            ),
            authorization matches Some(a) ==> token_meets(token, bearer_outcome(a@)),
            authorization is None ==> match access_key {
                Some(k) => token_meets(token, access_key_outcome(k@)),
                None => token_meets(token, Err(AppError::Unauthorized(MISSING_AUTHORIZATION))),
            },
    {
        match authorization {
            Some(header) => AuthTokenValue::from_authorization_header(Some(header)),
            None => match access_key {
                Some(header) => AuthTokenValue::from_access_key_header(header),
                None => Err(AppError::Unauthorized(MISSING_AUTHORIZATION)),
            },
        }
    }

    /// What the lookup of this token among the stored API keys means for the
    /// request: a known token lets it through, an unknown one makes it
    /// unauthorized, and any other failure of the lookup is a database error.
    pub fn validate(&self, lookup: Result<(), DbError>) -> (verdict: Result<(), AppError>)
        ensures
            match lookup {
                Ok(()) => verdict is Ok,
                Err(e) => if e.failure == DbFailure::RowNotFound {
                    (verdict matches Err(f) && f == AppError::Unauthorized(UNKNOWN_TOKEN))
                } else {
                    (verdict matches Err(f) && f == AppError::SqlxError(e))
                },
            },
    {
        match lookup {
            Ok(()) => Ok(()),
            Err(error) => match error.failure {
                DbFailure::RowNotFound => Err(AppError::Unauthorized(UNKNOWN_TOKEN)),
                _ => Err(AppError::SqlxError(error)),
            },
        }
    }
}

/// A header made of the scheme `Bearer` (in any case), one space and a token
/// of visible ASCII with no white space at either end is accepted, and the
/// token is read back unchanged.
pub proof fn lemma_bearer_header_round_trip(scheme: Seq<u8>, token: Seq<u8>)
    requires
        eq_ignore_ascii_case(scheme, bearer()),
        all_visible_ascii(token),
        token.len() > 0,
        !is_white_space(token[0]),
        !is_white_space(token.last()),
    ensures
        bearer_outcome(scheme + seq![32u8] + token) == Ok::<Seq<u8>, AppError>(token),
{
    let s = scheme + seq![32u8] + token;
    assert forall|k: int| 0 <= k < 6 implies #[trigger] s[k] == scheme[k] && s[k] != 32 && is_visible_ascii(
        s[k],
    ) by {
        assert(ascii_lower(scheme[k]) == ascii_lower(bearer()[k]));
    }
    assert(s[6] == 32);
    assert(is_first_space(s, 6));
    lemma_first_space_is_unique(s, 6);
    assert forall|k: int| 0 <= k < s.len() implies is_visible_ascii(#[trigger] s[k]) by {
        if k > 6 {
            assert(s[k] == token[k - 7]);
        }
    }
    assert(scheme_of(s) =~= scheme);
    assert(s.subrange(7, s.len() as int) =~= token);
    assert(trim_start(token) == token);
    assert(trim_end(token) == token);
}

/// The bytes of ASCII text.
pub open spec fn ascii_bytes(text: Seq<char>) -> Seq<u8> {
    text.map_values(|c: char| c as u8)
}

/// The bytes of `Bearer`.
pub open spec fn bearer_scheme() -> Seq<u8> {
    seq![66u8, 101u8, 97u8, 114u8, 101u8, 114u8]
}

/// The token of an API key, sent as `Authorization: Bearer <token>`, is
/// accepted and read back as exactly that token.
pub proof fn lemma_api_key_token_round_trip(token: Seq<char>)
    requires
        is_token_text(token),
    ensures
        bearer_outcome(bearer_scheme() + seq![32u8] + ascii_bytes(token)) matches Ok(t) && ascii_chars(t) == token,
{
    let bytes = ascii_bytes(token);
    assert forall|i: int| 0 <= i < bytes.len() implies is_visible_ascii(#[trigger] bytes[i]) && !is_white_space(
        bytes[i],
    ) && (bytes[i] as char) == token[i] by {
        assert(is_url_safe_base64_char(token[i]));
    }
    assert(eq_ignore_ascii_case(bearer_scheme(), bearer()));
    assert(bytes[0] == bytes[0]);
    assert(bytes.last() == bytes[bytes.len() - 1]);
    lemma_bearer_header_round_trip(bearer_scheme(), bytes);
    assert(ascii_chars(bytes) =~= token);
}

/// Whenever a request carries an `Authorization` header, that header alone
/// decides what the request yields: its Bearer parsing, whatever the
/// `access_key` header holds and whether there is one at all.
pub proof fn lemma_authorization_header_decides(authorization: Seq<u8>, access_key: Option<Seq<u8>>)
    ensures
        request_token_outcome(Some(authorization), access_key) == bearer_outcome(authorization),
        request_token_outcome(Some(authorization), access_key) == request_token_outcome(Some(authorization), None),
{
}

/// A request that carries a clean token (visible ASCII, not empty, no white
/// space at either end) in an `access_key` header and no `Authorization`
/// header is read as exactly that token.
pub proof fn lemma_access_key_round_trip(token: Seq<u8>)
    requires
        all_visible_ascii(token),
        token.len() > 0,
        !is_white_space(token[0]),
        !is_white_space(token.last()),
    ensures
        request_token_outcome(None, Some(token)) == Ok::<Seq<u8>, AppError>(token),
{
    assert(trim_start(token) == token);
    assert(trim_end(token) == token);
}

/// The token of an API key, sent in an `access_key` header, is read back as
/// exactly that token.
pub proof fn lemma_api_key_token_as_access_key(token: Seq<char>)
    requires
        is_token_text(token),
    ensures
        request_token_outcome(None, Some(ascii_bytes(token))) matches Ok(t) && ascii_chars(t) == token,
{
    let bytes = ascii_bytes(token);
    assert forall|i: int| 0 <= i < bytes.len() implies is_visible_ascii(#[trigger] bytes[i]) && !is_white_space(
        bytes[i],
    ) && (bytes[i] as char) == token[i] by {
        assert(is_url_safe_base64_char(token[i]));
    }
    assert(bytes[0] == bytes[0]);
    assert(bytes.last() == bytes[bytes.len() - 1]);
    lemma_access_key_round_trip(bytes);
    assert(ascii_chars(bytes) =~= token);
}

/// What a request to store a record has learnt so far.
pub enum PutRecordEvent {
    /// The token of the request was checked.
    Validated(Result<(), AppError>),
    /// The record's row was inserted, or the insert failed.
    Committed(Result<(), DbError>),
}

/// The answer to a stored record: 201, a message and the record's identifier.
pub struct RecordSaved {
    pub status: u16,
    pub message: &'static str,
    pub record_id: u128,
}

/// What a request to store a record does next.
pub enum PutRecordAction {
    /// Insert the record (see `repository::record_insert`).
    Commit,
    /// End the request with this answer.
    Answer(Result<RecordSaved, AppError>),
}

/// The next step of storing the record `record_id`: a request whose token
/// is refused ends with that error and stores nothing; an accepted one
/// inserts the record; a stored record is answered with 201, the message
/// `record saved successfully` and its own identifier; a failed insert with
/// the error `from_commit_record_error` gives.
pub fn put_record_step(record_id: u128, event: PutRecordEvent) -> (action: PutRecordAction)
    ensures
        match event {
            PutRecordEvent::Validated(Err(e)) => (action matches PutRecordAction::Answer(Err(f)) && f == e),
            PutRecordEvent::Validated(Ok(())) => action is Commit,
            PutRecordEvent::Committed(Ok(())) => (action matches PutRecordAction::Answer(Ok(saved))
                && saved.status == 201 && saved.message == RECORD_SAVED && saved.record_id == record_id),
            PutRecordEvent::Committed(Err(e)) => (action matches PutRecordAction::Answer(Err(f)) && f
                == commit_record_error(e)),
        },
{
    match event {
        PutRecordEvent::Validated(Err(error)) => PutRecordAction::Answer(Err(error)),
        PutRecordEvent::Validated(Ok(())) => PutRecordAction::Commit,
        PutRecordEvent::Committed(Ok(())) => PutRecordAction::Answer(
            Ok(RecordSaved { status: 201, message: RECORD_SAVED, record_id }),
        ),
        PutRecordEvent::Committed(Err(error)) => PutRecordAction::Answer(Err(AppError::from_commit_record_error(error))),
    }
}

/// What a request for one record has learnt so far.
pub enum GetRecordEvent {
    /// The token of the request was checked.
    Validated(Result<(), AppError>),
    /// The record was looked up (see `repository::next_lookup_action`).
    LookedUp(Result<Option<Record>, DbError>),
}

/// The answer to a record that was found: 200 and the record.
pub struct RecordFound {
    pub status: u16,
    pub record: Record,
}

/// What a request for one record does next.
pub enum GetRecordAction {
    /// Look the record up.
    LookUp,
    /// End the request with this answer.
    Answer(Result<RecordFound, AppError>),
}

/// The next step of a request for one record: a request whose token is
/// refused ends with that error and looks nothing up; an accepted one looks
/// the record up; a found record is answered with 200 and the record; none is
/// not found (404); a failed lookup is a database error.
pub fn get_record_step(event: GetRecordEvent) -> (action: GetRecordAction)
    ensures
        match event {
            GetRecordEvent::Validated(Err(e)) => (action matches GetRecordAction::Answer(Err(f)) && f == e),
            GetRecordEvent::Validated(Ok(())) => action is LookUp,
            GetRecordEvent::LookedUp(Ok(Some(r))) => (action matches GetRecordAction::Answer(Ok(found))
                && found.status == 200 && found.record@ == r@),
            GetRecordEvent::LookedUp(Ok(None)) => (action matches GetRecordAction::Answer(Err(f)) && f
                == AppError::NotFound(RECORD_NOT_FOUND)),
            GetRecordEvent::LookedUp(Err(e)) => (action matches GetRecordAction::Answer(Err(f)) && f
                == AppError::SqlxError(e)),
        },
{
    match event {
        GetRecordEvent::Validated(Err(error)) => GetRecordAction::Answer(Err(error)),
        GetRecordEvent::Validated(Ok(())) => GetRecordAction::LookUp,
        GetRecordEvent::LookedUp(Ok(record)) => match found_record(record) {
            Ok(record) => GetRecordAction::Answer(Ok(RecordFound { status: 200, record })),
            Err(error) => GetRecordAction::Answer(Err(error)),
        },
        GetRecordEvent::LookedUp(Err(error)) => GetRecordAction::Answer(Err(AppError::SqlxError(error))),
    }
}

} // verus!
