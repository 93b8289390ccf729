use vstd::prelude::*;
use vstd::string::*;
use vstd::utf8::encode_utf8;

verus! {

/// Status codes the client knows by name; `NONE` stands for any other.
#[allow(non_camel_case_types)]
#[derive(Clone, Copy, Debug, PartialEq, Eq, Structural)]
pub enum ResponseCode {
    NONE,
    OK,
    CREATED,
    ACCEPTED,
    NOCONTENT,
    MOVEDPERMANENTLY,
    FOUND,
    NOTMODIFIED,
    BADREQUEST,
    UNAUTHORIZED,
    FORBIDDEN,
    NOTFOUND,
    METHODNOTALLOWED,
    REQUESTTIMEOUT,
    INTERNALSERVERERROR,
    NOTIMPLEMENTED,
    BADGATEWAY,
    SERVICEUNAVAILABLE,
    GATEWAYTIMEOUT,
}

/// Numeric value of a named status code (0 for `NONE`).
pub open spec fn code_value(c: ResponseCode) -> u16 {
    match c {
        ResponseCode::NONE => 0,
        ResponseCode::OK => 200,
        ResponseCode::CREATED => 201,
        ResponseCode::ACCEPTED => 202,
        ResponseCode::NOCONTENT => 204,
        ResponseCode::MOVEDPERMANENTLY => 301,
        ResponseCode::FOUND => 302,
        ResponseCode::NOTMODIFIED => 304,
        ResponseCode::BADREQUEST => 400,
        ResponseCode::UNAUTHORIZED => 401,
        ResponseCode::FORBIDDEN => 403,
        ResponseCode::NOTFOUND => 404,
        ResponseCode::METHODNOTALLOWED => 405,
        ResponseCode::REQUESTTIMEOUT => 408,
        ResponseCode::INTERNALSERVERERROR => 500,
        ResponseCode::NOTIMPLEMENTED => 501,
        ResponseCode::BADGATEWAY => 502,
        ResponseCode::SERVICEUNAVAILABLE => 503,
        ResponseCode::GATEWAYTIMEOUT => 504,
    }
}

/// The named code whose value is `n`, or `NONE` when no name has that value.
pub open spec fn code_named(n: u16) -> ResponseCode {
    match n {
        200 => ResponseCode::OK,
        201 => ResponseCode::CREATED,
        202 => ResponseCode::ACCEPTED,
        204 => ResponseCode::NOCONTENT,
        301 => ResponseCode::MOVEDPERMANENTLY,
        302 => ResponseCode::FOUND,
        304 => ResponseCode::NOTMODIFIED,
        400 => ResponseCode::BADREQUEST,
        401 => ResponseCode::UNAUTHORIZED,
        403 => ResponseCode::FORBIDDEN,
        404 => ResponseCode::NOTFOUND,
        405 => ResponseCode::METHODNOTALLOWED,
        408 => ResponseCode::REQUESTTIMEOUT,
        500 => ResponseCode::INTERNALSERVERERROR,
        501 => ResponseCode::NOTIMPLEMENTED,
        502 => ResponseCode::BADGATEWAY,
        503 => ResponseCode::SERVICEUNAVAILABLE,
        504 => ResponseCode::GATEWAYTIMEOUT,
        _ => ResponseCode::NONE,
    }
}

impl ResponseCode {
    /// Numeric value of the code.
    pub fn code(&self) -> (r: u16)
        ensures
            r == code_value(*self),
    {
        match self {
            ResponseCode::NONE => 0,
            ResponseCode::OK => 200,
            ResponseCode::CREATED => 201,
            ResponseCode::ACCEPTED => 202,
            ResponseCode::NOCONTENT => 204,
            ResponseCode::MOVEDPERMANENTLY => 301,
            ResponseCode::FOUND => 302,
            ResponseCode::NOTMODIFIED => 304,
            ResponseCode::BADREQUEST => 400,
            ResponseCode::UNAUTHORIZED => 401,
            ResponseCode::FORBIDDEN => 403,
            ResponseCode::NOTFOUND => 404,
            ResponseCode::METHODNOTALLOWED => 405,
            ResponseCode::REQUESTTIMEOUT => 408,
            ResponseCode::INTERNALSERVERERROR => 500,
            ResponseCode::NOTIMPLEMENTED => 501,
            ResponseCode::BADGATEWAY => 502,
            ResponseCode::SERVICEUNAVAILABLE => 503,
            ResponseCode::GATEWAYTIMEOUT => 504,
        }
    }

    /// The named code for status `n`.
    pub fn from_status(n: u16) -> (r: ResponseCode)
        ensures
            r == code_named(n),
    {
        match n {
            200 => ResponseCode::OK,
            201 => ResponseCode::CREATED,
            202 => ResponseCode::ACCEPTED,
            204 => ResponseCode::NOCONTENT,
            301 => ResponseCode::MOVEDPERMANENTLY,
            302 => ResponseCode::FOUND,
            304 => ResponseCode::NOTMODIFIED,
            400 => ResponseCode::BADREQUEST,
            401 => ResponseCode::UNAUTHORIZED,
            403 => ResponseCode::FORBIDDEN,
            404 => ResponseCode::NOTFOUND,
            405 => ResponseCode::METHODNOTALLOWED,
            408 => ResponseCode::REQUESTTIMEOUT,
            500 => ResponseCode::INTERNALSERVERERROR,
            501 => ResponseCode::NOTIMPLEMENTED,
            502 => ResponseCode::BADGATEWAY,
            503 => ResponseCode::SERVICEUNAVAILABLE,
            504 => ResponseCode::GATEWAYTIMEOUT,
            _ => ResponseCode::NONE,
        }
    }
}

/// Each named code is found again from its value.
pub proof fn lemma_code_round_trip(c: ResponseCode)
    ensures
        code_named(code_value(c)) == c,
{
}

#[derive(Clone, Debug)]
pub struct ResponseCookie {
    pub name: String,
    pub value: String,
    pub expires: String,
    pub max_age: String,
    pub domain: String,
    pub http_only: bool,
    pub secure: bool,
}

/// One response header, as a name and a value.
#[derive(Clone, Debug)]
pub struct ResponseHeader {
    pub name: String,
    pub value: String,
}

/// Snapshot of a completed exchange.
///
/// `time` is the elapsed time in milliseconds, `size` the body size in bytes
/// and `last_executed` the wall-clock time of completion, in milliseconds
/// since the Unix epoch.
#[derive(Clone, Debug)]
pub struct Response {
    pub data: String,
    pub data_format: String,
    pub status_code: u16,
    pub code_status: ResponseCode,
    pub code_text: String,
    pub time: u128,
    pub size: u64,
    pub last_executed: i64,
    pub headers: Vec<ResponseHeader>,
    pub cookies: Vec<ResponseCookie>,
}

/// Body size: the declared content length, or else the byte length of the
/// body's UTF-8 encoding.
pub open spec fn body_size(declared_length: Option<u64>, body: Seq<char>) -> u64 {
    match declared_length {
        Some(n) => n,
        None => encode_utf8(body).len() as usize as u64,
    }
}

/// `r` records a successful exchange with the given parts, whatever its
/// completion time.
pub open spec fn records_exchange(
    r: Response,
    status: u16,
    status_text: Seq<char>,
    headers: Seq<ResponseHeader>,
    body: Seq<char>,
    declared_length: Option<u64>,
    elapsed_ms: u128,
) -> bool {
    &&& r.status_code == status
    &&& r.code_status == code_named(status)
    &&& r.code_text@ == status_text
    &&& r.headers@ == headers
    &&& r.data@ == body
    &&& r.data_format@ == "text"@
    &&& r.size == body_size(declared_length, body)
    &&& r.time == elapsed_ms
    &&& r.cookies@.len() == 0
}

/// `r` records a failed exchange with the given diagnostic, whatever its
/// completion time.
pub open spec fn records_failure(r: Response, message: Seq<char>, elapsed_ms: u128) -> bool {
    &&& r.status_code == 0
    &&& r.code_status == ResponseCode::NONE
    &&& r.code_text@ == "Error"@
    &&& r.headers@.len() == 0
    &&& r.data@ == message
    &&& r.data_format@ == "error"@
    &&& r.size == 0
    &&& r.time == elapsed_ms
    &&& r.cookies@.len() == 0
}

impl Response {
    /// A response built from the parts of a completed exchange, completed at
    /// `timestamp_ms`.
    pub fn from_parts(
        status: u16,
        status_text: String,
        headers: Vec<ResponseHeader>,
        body: String,
        declared_length: Option<u64>,
        elapsed_ms: u128,
        timestamp_ms: i64,
    ) -> (r: Response)
        ensures
            records_exchange(
                r,
                status,
                status_text@,
                headers@,
                body@,
                declared_length,
                elapsed_ms,
            ),
            r.last_executed == timestamp_ms,
    {
        let size = match declared_length {
            Some(n) => n,
            None => body.as_str().len() as u64,
        };
        Response {
            data: body,
            data_format: String::from_str("text"),
            status_code: status,
            code_status: ResponseCode::from_status(status),
            code_text: status_text,
            time: elapsed_ms,
            size,
            last_executed: timestamp_ms,
            headers,
            cookies: Vec::new(),
        }
    }

    /// A diagnostic response for an exchange that failed, completed at
    /// `timestamp_ms`.
    pub fn from_failure(message: String, elapsed_ms: u128, timestamp_ms: i64) -> (r: Response)
        ensures
            records_failure(r, message@, elapsed_ms),
            r.last_executed == timestamp_ms,
    {
        Response {
            data: message,
            data_format: String::from_str("error"),
            status_code: 0,
            code_status: ResponseCode::NONE,
            code_text: String::from_str("Error"),
            time: elapsed_ms,
            size: 0,
            last_executed: timestamp_ms,
            headers: Vec::new(),
            cookies: Vec::new(),
        }
    }
}

} // verus!
