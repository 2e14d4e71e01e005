//! The message data model: method, status code, header, request, response.
//!
//! Pure value types. The one validating operation is [`StatusCode::new`];
//! everything else accepts its strings as-is (grammar conformance of field
//! content is the caller's responsibility).

use vstd::prelude::*;
use vstd::string::StringExecFns;

verus! {

/// The method of an HTTP request: a case-sensitive token such as `GET`.
/// Any string is accepted; no registry is enforced.
#[derive(Clone, Debug, PartialEq, Eq, PartialOrd, Ord, Hash, Default)]
pub struct Method(pub String);

impl View for Method {
    type V = Seq<char>;

    open spec fn view(&self) -> Seq<char> {
        self.0@
    }
}

impl Method {
    /// The method token as a string slice.
    pub fn as_str(&self) -> (r: &str)
        ensures
            r@ == self@,
    {
        self.0.as_str()
    }
}

impl From<String> for Method {
    fn from(s: String) -> (r: Method) {
        Method(s)
    }
}

impl vstd::std_specs::convert::FromSpecImpl<String> for Method {
    open spec fn obeys_from_spec() -> bool {
        true
    }

    open spec fn from_spec(s: String) -> Method {
        Method(s)
    }
}

/// Whether `code` lies in the status-code range the grammar allows.
pub open spec fn valid_status_code(code: u16) -> bool {
    100 <= code < 600
}

/// The status code of an HTTP response.
///
/// A value built by [`StatusCode::new`] always lies in `[100, 600)`. The
/// `Default` value does not: it is a placeholder for contexts where no code
/// has been chosen yet, and satisfies no range invariant.
#[derive(Clone, Debug, PartialEq, Eq, PartialOrd, Ord, Hash, Default)]
pub struct StatusCode(u16);

impl View for StatusCode {
    type V = u16;

    closed spec fn view(&self) -> u16 {
        self.0
    }
}

impl StatusCode {
    /// What [`StatusCode::new`] returns for a given code.
    pub closed spec fn new_spec(code: u16) -> Option<StatusCode> {
        if valid_status_code(code) {
            Some(StatusCode(code))
        } else {
            None
        }
    }

    /// Construct a `StatusCode`. Succeeds exactly when the code lies in
    /// `[100, 600)`; any other code yields `None`.
    pub fn new(code: u16) -> (r: Option<StatusCode>)
        ensures
            r == Self::new_spec(code),
            r is Some <==> valid_status_code(code),
            r is Some ==> r.unwrap()@ == code,
    {
        if 100 <= code && code < 600 {
            Some(StatusCode(code))
        } else {
            None
        }
    }

    /// The raw integer of this status code. Total: construction already
    /// validated the range, and a placeholder default simply reports its
    /// stored value.
    pub fn code(&self) -> (r: u16)
        ensures
            r == self@,
    {
        self.0
    }

    /// Whether the held value satisfies the range invariant.
    pub open spec fn is_valid(&self) -> bool {
        valid_status_code(self@)
    }

    /// Round trip: rebuilding a successfully constructed status code from
    /// its raw integer — what the `From` conversion returns — yields an
    /// equal value.
    pub proof fn lemma_round_trip(self)
        requires
            self.is_valid(),
        ensures
            Self::new_spec(self@) == Some(self),
            Self::new_spec(<u16 as vstd::std_specs::convert::FromSpec<StatusCode>>::from_spec(self))
                == Some(self),
    {
    }
}

impl From<StatusCode> for u16 {
    fn from(code: StatusCode) -> (r: u16) {
        code.0
    }
}

impl vstd::std_specs::convert::FromSpecImpl<StatusCode> for u16 {
    open spec fn obeys_from_spec() -> bool {
        true
    }

    open spec fn from_spec(code: StatusCode) -> u16 {
        code@
    }
}

/// An HTTP header: an ordered `(name, value)` pair of opaque strings.
/// A message may carry repeated or conflicting names; nothing deduplicates
/// or merges them.
#[derive(Clone, Debug, PartialEq, Eq, PartialOrd, Ord, Hash, Default)]
pub struct Header {
    /// The header's name (`field-name` in the grammar).
    pub name: String,

    /// The header's value (`field-value` in the grammar).
    pub value: String,
}

/// The header as it stands on its own line: `name: value`, no terminator.
pub open spec fn header_text(h: Header) -> Seq<char> {
    h.name@ + ": "@ + h.value@
}

impl Header {
    /// Render the header as `name: value`, with no trailing terminator;
    /// the line terminator is the writer's responsibility.
    pub fn render(&self) -> (r: String)
        ensures
            r@ == header_text(*self),
    {
        let mut s = self.name.clone();
        s.append(": ");
        s.append(self.value.as_str());
        s
    }
}

/// An HTTP request without its body: method, target, and ordered headers.
#[derive(Clone, Debug, PartialEq, Eq, PartialOrd, Ord, Hash, Default)]
pub struct Request {
    /// The request method (`method` in the grammar).
    pub method: Method,

    /// The request target, usually a path (`request-target` in the grammar);
    /// opaque to this library.
    pub request_target: String,

    /// The request headers, in the order they will be written.
    pub headers: Vec<Header>,
}

/// An HTTP response without its body: status code, reason phrase, and
/// ordered headers.
#[derive(Clone, Debug, PartialEq, Eq, PartialOrd, Ord, Hash, Default)]
pub struct Response {
    /// The status code (`status-code` in the grammar).
    pub status_code: StatusCode,

    /// A textual description of the status code (`reason-phrase` in the
    /// grammar); opaque to this library.
    pub reason_phrase: String,

    /// The response headers, in the order they will be written.
    pub headers: Vec<Header>,
}

} // verus!
