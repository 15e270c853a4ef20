//! The table of named HTTP status codes: the names under which the `http`
//! crate holds its status codes as constants, each with its number.

use crate::text::same_text;
use vstd::prelude::*;

verus! {

/// The number of the status code that is called `name`, for each of the
/// names that the table holds; `None` for every other text.
pub open spec fn status_code_named(name: Seq<char>) -> Option<u16> {
    if name == "CONTINUE"@ {
        Some(100u16)
    } else if name == "SWITCHING_PROTOCOLS"@ {
        Some(101u16)
    } else if name == "PROCESSING"@ {
        Some(102u16)
    } else if name == "EARLY_HINTS"@ {
        Some(103u16)
    } else if name == "OK"@ {
        Some(200u16)
    } else if name == "CREATED"@ {
        Some(201u16)
    } else if name == "ACCEPTED"@ {
        Some(202u16)
    } else if name == "NON_AUTHORITATIVE_INFORMATION"@ {
        Some(203u16)
    } else if name == "NO_CONTENT"@ {
        Some(204u16)
    } else if name == "RESET_CONTENT"@ {
        Some(205u16)
    } else if name == "PARTIAL_CONTENT"@ {
        Some(206u16)
    } else if name == "MULTI_STATUS"@ {
        Some(207u16)
    } else if name == "ALREADY_REPORTED"@ {
        Some(208u16)
    } else if name == "IM_USED"@ {
        Some(226u16)
    } else if name == "MULTIPLE_CHOICES"@ {
        Some(300u16)
    } else if name == "MOVED_PERMANENTLY"@ {
        Some(301u16)
    } else if name == "FOUND"@ {
        Some(302u16)
    } else if name == "SEE_OTHER"@ {
        Some(303u16)
    } else if name == "NOT_MODIFIED"@ {
        Some(304u16)
    } else if name == "USE_PROXY"@ {
        Some(305u16)
    } else if name == "TEMPORARY_REDIRECT"@ {
        Some(307u16)
    } else if name == "PERMANENT_REDIRECT"@ {
        Some(308u16)
    } else if name == "BAD_REQUEST"@ {
        Some(400u16)
    } else if name == "UNAUTHORIZED"@ {
        Some(401u16)
    } else if name == "PAYMENT_REQUIRED"@ {
        Some(402u16)
    } else if name == "FORBIDDEN"@ {
        Some(403u16)
    } else if name == "NOT_FOUND"@ {
        Some(404u16)
    } else if name == "METHOD_NOT_ALLOWED"@ {
        Some(405u16)
    } else if name == "NOT_ACCEPTABLE"@ {
        Some(406u16)
    } else if name == "PROXY_AUTHENTICATION_REQUIRED"@ {
        Some(407u16)
    } else if name == "REQUEST_TIMEOUT"@ {
        Some(408u16)
    } else if name == "CONFLICT"@ {
        Some(409u16)
    } else if name == "GONE"@ {
        Some(410u16)
    } else if name == "LENGTH_REQUIRED"@ {
        Some(411u16)
    } else if name == "PRECONDITION_FAILED"@ {
        Some(412u16)
    } else if name == "PAYLOAD_TOO_LARGE"@ {
        Some(413u16)
    } else if name == "URI_TOO_LONG"@ {
        Some(414u16)
    } else if name == "UNSUPPORTED_MEDIA_TYPE"@ {
        Some(415u16)
    } else if name == "RANGE_NOT_SATISFIABLE"@ {
        Some(416u16)
    } else if name == "EXPECTATION_FAILED"@ {
        Some(417u16)
    } else if name == "IM_A_TEAPOT"@ {
        Some(418u16)
    } else if name == "MISDIRECTED_REQUEST"@ {
        Some(421u16)
    } else if name == "UNPROCESSABLE_ENTITY"@ {
        Some(422u16)
    } else if name == "LOCKED"@ {
        Some(423u16)
    } else if name == "FAILED_DEPENDENCY"@ {
        Some(424u16)
    } else if name == "TOO_EARLY"@ {
        Some(425u16)
    } else if name == "UPGRADE_REQUIRED"@ {
        Some(426u16)
    } else if name == "PRECONDITION_REQUIRED"@ {
        Some(428u16)
    } else if name == "TOO_MANY_REQUESTS"@ {
        Some(429u16)
    } else if name == "REQUEST_HEADER_FIELDS_TOO_LARGE"@ {
        Some(431u16)
    } else if name == "UNAVAILABLE_FOR_LEGAL_REASONS"@ {
        Some(451u16)
    } else if name == "INTERNAL_SERVER_ERROR"@ {
        Some(500u16)
    } else if name == "NOT_IMPLEMENTED"@ {
        Some(501u16)
    } else if name == "BAD_GATEWAY"@ {
        Some(502u16)
    } else if name == "SERVICE_UNAVAILABLE"@ {
        Some(503u16)
    } else if name == "GATEWAY_TIMEOUT"@ {
        Some(504u16)
    } else if name == "HTTP_VERSION_NOT_SUPPORTED"@ {
        Some(505u16)
    } else if name == "VARIANT_ALSO_NEGOTIATES"@ {
        Some(506u16)
    } else if name == "INSUFFICIENT_STORAGE"@ {
        Some(507u16)
    } else if name == "LOOP_DETECTED"@ {
        Some(508u16)
    } else if name == "NOT_EXTENDED"@ {
        Some(510u16)
    } else if name == "NETWORK_AUTHENTICATION_REQUIRED"@ {
        Some(511u16)
    } else {
        None
    }
}

/// Looks `name` up in the table.
pub fn resolve(name: &str) -> (code: Option<u16>)
    ensures
        code == status_code_named(name@),
{
    if same_text(name, "CONTINUE") {
        Some(100)
    } else if same_text(name, "SWITCHING_PROTOCOLS") {
        Some(101)
    } else if same_text(name, "PROCESSING") {
        Some(102)
    } else if same_text(name, "EARLY_HINTS") {
        Some(103)
    } else if same_text(name, "OK") {
        Some(200)
    } else if same_text(name, "CREATED") {
        Some(201)
    } else if same_text(name, "ACCEPTED") {
        Some(202)
    } else if same_text(name, "NON_AUTHORITATIVE_INFORMATION") {
        Some(203)
    } else if same_text(name, "NO_CONTENT") {
        Some(204)
    } else if same_text(name, "RESET_CONTENT") {
        Some(205)
    } else if same_text(name, "PARTIAL_CONTENT") {
        Some(206)
    } else if same_text(name, "MULTI_STATUS") {
        Some(207)
    } else if same_text(name, "ALREADY_REPORTED") {
        Some(208)
    } else if same_text(name, "IM_USED") {
        Some(226)
    } else if same_text(name, "MULTIPLE_CHOICES") {
        Some(300)
    } else if same_text(name, "MOVED_PERMANENTLY") {
        Some(301)
    } else if same_text(name, "FOUND") {
        Some(302)
    } else if same_text(name, "SEE_OTHER") {
        Some(303)
    } else if same_text(name, "NOT_MODIFIED") {
        Some(304)
    } else if same_text(name, "USE_PROXY") {
        Some(305)
    } else if same_text(name, "TEMPORARY_REDIRECT") {
        Some(307)
    } else if same_text(name, "PERMANENT_REDIRECT") {
        Some(308)
    } else if same_text(name, "BAD_REQUEST") {
        Some(400)
    } else if same_text(name, "UNAUTHORIZED") {
        Some(401)
    } else if same_text(name, "PAYMENT_REQUIRED") {
        Some(402)
    } else if same_text(name, "FORBIDDEN") {
        Some(403)
    } else if same_text(name, "NOT_FOUND") {
        Some(404)
    } else if same_text(name, "METHOD_NOT_ALLOWED") {
        Some(405)
    } else if same_text(name, "NOT_ACCEPTABLE") {
        Some(406)
    } else if same_text(name, "PROXY_AUTHENTICATION_REQUIRED") {
        Some(407)
    } else if same_text(name, "REQUEST_TIMEOUT") {
        Some(408)
    } else if same_text(name, "CONFLICT") {
        Some(409)
    } else if same_text(name, "GONE") {
        Some(410)
    } else if same_text(name, "LENGTH_REQUIRED") {
        Some(411)
    } else if same_text(name, "PRECONDITION_FAILED") {
        Some(412)
    } else if same_text(name, "PAYLOAD_TOO_LARGE") {
        Some(413)
    } else if same_text(name, "URI_TOO_LONG") {
        Some(414)
    } else if same_text(name, "UNSUPPORTED_MEDIA_TYPE") {
        Some(415)
    } else if same_text(name, "RANGE_NOT_SATISFIABLE") {
        Some(416)
    } else if same_text(name, "EXPECTATION_FAILED") {
        Some(417)
    } else if same_text(name, "IM_A_TEAPOT") {
        Some(418)
    } else if same_text(name, "MISDIRECTED_REQUEST") {
        Some(421)
    } else if same_text(name, "UNPROCESSABLE_ENTITY") {
        Some(422)
    } else if same_text(name, "LOCKED") {
        Some(423)
    } else if same_text(name, "FAILED_DEPENDENCY") {
        Some(424)
    } else if same_text(name, "TOO_EARLY") {
        Some(425)
    } else if same_text(name, "UPGRADE_REQUIRED") {
        Some(426)
    } else if same_text(name, "PRECONDITION_REQUIRED") {
        Some(428)
    } else if same_text(name, "TOO_MANY_REQUESTS") {
        Some(429)
    } else if same_text(name, "REQUEST_HEADER_FIELDS_TOO_LARGE") {
        Some(431)
    } else if same_text(name, "UNAVAILABLE_FOR_LEGAL_REASONS") {
        Some(451)
    } else if same_text(name, "INTERNAL_SERVER_ERROR") {
        Some(500)
    } else if same_text(name, "NOT_IMPLEMENTED") {
        Some(501)
    } else if same_text(name, "BAD_GATEWAY") {
        Some(502)
    } else if same_text(name, "SERVICE_UNAVAILABLE") {
        Some(503)
    } else if same_text(name, "GATEWAY_TIMEOUT") {
        Some(504)
    } else if same_text(name, "HTTP_VERSION_NOT_SUPPORTED") {
        Some(505)
    } else if same_text(name, "VARIANT_ALSO_NEGOTIATES") {
        Some(506)
    } else if same_text(name, "INSUFFICIENT_STORAGE") {
        Some(507)
    } else if same_text(name, "LOOP_DETECTED") {
        Some(508)
    } else if same_text(name, "NOT_EXTENDED") {
        Some(510)
    } else if same_text(name, "NETWORK_AUTHENTICATION_REQUIRED") {
        Some(511)
    } else {
        None
    }
}

/// A status code of the table, under the name by which a declaration calls it.
#[derive(Clone, Debug, PartialEq, Eq)]
pub struct StatusCode {
    pub name: String,
    pub code: u16,
}

/// What a [`StatusCode`] holds.
pub struct StatusCodeView {
    pub name: Seq<char>,
    pub code: u16,
}

impl DeepView for StatusCode {
    type V = StatusCodeView;

    open spec fn deep_view(&self) -> StatusCodeView {
        StatusCodeView { name: self.name@, code: self.code }
    }
}

impl View for StatusCode {
    type V = StatusCodeView;

    open spec fn view(&self) -> StatusCodeView {
        self.deep_view()
    }
}

impl StatusCodeView {
    /// The table holds the name, with this number.
    pub open spec fn listed(self) -> bool {
        status_code_named(self.name) == Some(self.code)
    }
}

impl StatusCode {
    /// The status code that the table holds under `name`.
    pub fn named(name: &str) -> (status: Option<StatusCode>)
        ensures
            match status {
                Some(s) => s@.name == name@ && status_code_named(name@) == Some(s@.code),
                None => status_code_named(name@) is None,
            },
    {
        match resolve(name) {
            Some(code) => Some(StatusCode { name: name.to_owned(), code }),
            None => None,
        }
    }

    /// A copy of this status code.
    pub fn duplicate(&self) -> (copy: StatusCode)
        ensures
            copy@ == self@,
    {
        StatusCode { name: self.name.clone(), code: self.code }
    }
}

} // verus!
