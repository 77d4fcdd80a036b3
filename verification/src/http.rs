//! The HTTP relay: which outbound call a request description asks for, and
//! how what came back is normalized.
//!
//! The relay is stateless and makes no network call itself. [`http_request`]
//! turns a description into a [`PreparedRequest`] or refuses it; the caller
//! sends that request and hands what it got to [`http_response`]. There are no
//! retries, no timeout of the relay's own and no redirect policy: those are the
//! sending client's.

use vstd::prelude::*;

verus! {

/// The methods the relay lets through.
#[derive(Clone, Copy, Debug, PartialEq, Eq, Structural)]
pub enum HttpMethod {
    Get,
    Post,
    Put,
    Delete,
    Patch,
    Head,
}

/// A request as the caller describes it.
#[derive(Debug, PartialEq, Eq)]
pub struct HttpRequestParams {
    pub url: String,
    /// Matched without regard to case; `None` means `GET`.
    pub method: Option<String>,
    /// Applied in order; a name may occur more than once.
    pub headers: Option<Vec<(String, String)>>,
    pub body: Option<String>,
}

/// The outbound call that a description asks for.
#[derive(Debug, PartialEq, Eq)]
pub struct PreparedRequest {
    pub method: HttpMethod,
    pub url: String,
    /// Empty where the description had none.
    pub headers: Vec<(String, String)>,
    /// `None` where the description had none: no body is attached then.
    pub body: Option<String>,
}

/// A response header as it was received: the value is raw bytes.
#[derive(Debug, PartialEq, Eq)]
pub struct ReceivedHeader {
    pub name: String,
    pub value: Vec<u8>,
}

/// What came back from a call that was carried through.
#[derive(Debug, PartialEq, Eq)]
pub struct ReceivedResponse {
    pub status: u16,
    /// In the order of receipt, as far as the client keeps it.
    pub headers: Vec<ReceivedHeader>,
    /// The body, already decoded as text by the client.
    pub body: String,
}

/// The normalized response handed to the caller.
#[derive(Debug, PartialEq, Eq)]
pub struct HttpResponse {
    pub status: u16,
    pub headers: Vec<(String, String)>,
    pub body: String,
}

/// A request description as values.
pub struct RequestModel {
    pub url: Seq<char>,
    pub method: Option<Seq<char>>,
    pub headers: Option<Seq<(Seq<char>, Seq<char>)>>,
    pub body: Option<Seq<char>>,
}

/// A prepared request as values.
pub struct PreparedModel {
    pub method: HttpMethod,
    pub url: Seq<char>,
    pub headers: Seq<(Seq<char>, Seq<char>)>,
    pub body: Option<Seq<char>>,
}

/// A received response as values.
pub struct ReceivedModel {
    pub status: u16,
    pub headers: Seq<(Seq<char>, Seq<u8>)>,
    pub body: Seq<char>,
}

/// A normalized response as values.
pub struct ResponseModel {
    pub status: u16,
    pub headers: Seq<(Seq<char>, Seq<char>)>,
    pub body: Seq<char>,
}

impl View for HttpRequestParams {
    type V = RequestModel;

    open spec fn view(&self) -> RequestModel {
        RequestModel {
            url: self.url@,
            method: self.method.deep_view(),
            headers: self.headers.deep_view(),
            body: self.body.deep_view(),
        }
    }
}

impl View for PreparedRequest {
    type V = PreparedModel;

    open spec fn view(&self) -> PreparedModel {
        PreparedModel {
            method: self.method,
            url: self.url@,
            headers: self.headers.deep_view(),
            body: self.body.deep_view(),
        }
    }
}

impl View for ReceivedHeader {
    type V = (Seq<char>, Seq<u8>);

    open spec fn view(&self) -> (Seq<char>, Seq<u8>) {
        (self.name@, self.value@)
    }
}

impl View for ReceivedResponse {
    type V = ReceivedModel;

    open spec fn view(&self) -> ReceivedModel {
        ReceivedModel {
            status: self.status,
            headers: self.headers@.map_values(|h: ReceivedHeader| h@),
            body: self.body@,
        }
    }
}

impl View for HttpResponse {
    type V = ResponseModel;

    open spec fn view(&self) -> ResponseModel {
        ResponseModel {
            status: self.status,
            headers: self.headers.deep_view(),
            body: self.body@,
        }
    }
}

/// The upper-case form of a text, as `str::to_uppercase` computes it.
pub uninterp spec fn uppercase_of(text: Seq<char>) -> Seq<char>;

/// `str::to_uppercase`: the result is a function of the text alone, named
/// [`uppercase_of`]. Nothing else is claimed of it.
pub assume_specification[ str::to_uppercase ](text: &str) -> (upper: String)
    ensures
        upper@ == uppercase_of(text@),
;

/// The method that an upper-cased name stands for, if the relay lets it through.
pub open spec fn method_named(upper: Seq<char>) -> Option<HttpMethod> {
    if upper == "GET"@ {
        Some(HttpMethod::Get)
    } else if upper == "POST"@ {
        Some(HttpMethod::Post)
    } else if upper == "PUT"@ {
        Some(HttpMethod::Put)
    } else if upper == "DELETE"@ {
        Some(HttpMethod::Delete)
    } else if upper == "PATCH"@ {
        Some(HttpMethod::Patch)
    } else if upper == "HEAD"@ {
        Some(HttpMethod::Head)
    } else {
        None
    }
}

/// The text of the refusal of a method, which names its upper-cased form.
pub open spec fn unsupported_method_text(upper: Seq<char>) -> Seq<char> {
    "Unsupported HTTP method: "@ + upper
}

/// The method a description asks for: `GET` where it names none, else what
/// the upper-cased name stands for; the refusal where it stands for nothing.
pub open spec fn requested_method(method: Option<Seq<char>>) -> Result<HttpMethod, Seq<char>> {
    match method {
        None => Ok(HttpMethod::Get),
        Some(name) => match method_named(uppercase_of(name)) {
            Some(m) => Ok(m),
            None => Err(unsupported_method_text(uppercase_of(name))),
        },
    }
}

/// The outbound call a description asks for, or the refusal of its method.
/// URL, headers and body pass through as they are.
pub open spec fn planned(request: RequestModel) -> Result<PreparedModel, Seq<char>> {
    match requested_method(request.method) {
        Ok(method) => Ok(
            PreparedModel {
                method,
                url: request.url,
                headers: match request.headers {
                    Some(headers) => headers,
                    None => Seq::empty(),
                },
                body: request.body,
            },
        ),
        Err(refusal) => Err(refusal),
    }
}

/// Matches an upper-cased method name against the allow-list.
pub fn method_from_upper(upper: &str) -> (method: Option<HttpMethod>)
    ensures
        method == method_named(upper@),
{
    let name = String::from_str(upper);
    if name == String::from_str("GET") {
        Some(HttpMethod::Get)
    } else if name == String::from_str("POST") {
        Some(HttpMethod::Post)
    } else if name == String::from_str("PUT") {
        Some(HttpMethod::Put)
    } else if name == String::from_str("DELETE") {
        Some(HttpMethod::Delete)
    } else if name == String::from_str("PATCH") {
        Some(HttpMethod::Patch)
    } else if name == String::from_str("HEAD") {
        Some(HttpMethod::Head)
    } else {
        None
    }
}

/// The method that an upper-cased name stands for, or the refusal that
/// names it.
pub fn method_or_refusal(upper: &str) -> (decided: Result<HttpMethod, String>)
    ensures
        match method_named(upper@) {
            Some(m) => decided == Ok::<HttpMethod, String>(m),
            None => decided is Err && decided->Err_0@ == unsupported_method_text(upper@),
        },
{
    match method_from_upper(upper) {
        Some(m) => Ok(m),
        None => Err(String::from_str("Unsupported HTTP method: ").concat(upper)),
    }
}

/// Decides the method of a request: `GET` by default, else the allow-listed
/// method whose name the given one is, case aside; any other name is refused
/// with a text that names its upper-cased form.
pub fn resolve_method(method: &Option<String>) -> (decided: Result<HttpMethod, String>)
    ensures
        match requested_method(method.deep_view()) {
            Ok(m) => decided == Ok::<HttpMethod, String>(m),
            Err(refusal) => decided is Err && decided->Err_0@ == refusal,
        },
{
    match method {
        None => Ok(HttpMethod::Get),
        Some(name) => {
            let upper = name.as_str().to_uppercase();
            method_or_refusal(upper.as_str())
        },
    }
}

/// Turns a request description into the outbound call it asks for.
///
/// A method outside the allow-list is refused here, before anything is sent.
/// Headers keep their order and their duplicates; a missing body stays
/// missing.
pub fn http_request(params: HttpRequestParams) -> (prepared: Result<PreparedRequest, String>)
    ensures
        match planned(params@) {
            Ok(plan) => prepared is Ok && prepared->Ok_0@ == plan,
            Err(refusal) => prepared is Err && prepared->Err_0@ == refusal,
        },
{
    match resolve_method(&params.method) {
        Ok(method) => {
            let headers = match params.headers {
                Some(headers) => headers,
                None => {
                    let none: Vec<(String, String)> = Vec::new();
                    assert(none.deep_view() =~= Seq::empty());
                    none
                },
            };
            Ok(PreparedRequest { method, url: params.url, headers, body: params.body })
        },
        Err(refusal) => Err(refusal),
    }
}

/// Whether a byte is a visible ASCII character or a tab.
pub open spec fn is_visible_ascii(byte: u8) -> bool {
    32 <= byte < 127 || byte == 9
}

/// Whether every byte of a header value is visible ASCII.
pub open spec fn all_visible(bytes: Seq<u8>) -> bool {
    forall|i: int| 0 <= i < bytes.len() ==> is_visible_ascii(#[trigger] bytes[i])
}

/// The characters that ASCII bytes stand for.
pub open spec fn ascii_text(bytes: Seq<u8>) -> Seq<char> {
    Seq::new(bytes.len(), |i: int| bytes[i] as char)
}

/// The text of a received header value: the value itself where it is visible
/// ASCII throughout, and the empty text where it is not.
pub open spec fn header_text_of(value: Seq<u8>) -> Seq<char> {
    if all_visible(value) {
        ascii_text(value)
    } else {
        Seq::empty()
    }
}

/// The normalized form of a received response: status and body as they are,
/// each header under its name and in its place, its value as text.
pub open spec fn normalized(received: ReceivedModel) -> ResponseModel {
    ResponseModel {
        status: received.status,
        headers: Seq::new(
            received.headers.len(),
            |i: int| (received.headers[i].0, header_text_of(received.headers[i].1)),
        ),
        body: received.body,
    }
}

/// Reads a header value as text through
/// `reqwest::header::HeaderValue::from_bytes` and `HeaderValue::to_str`.
///
/// `from_bytes` takes every byte from 32 up but 127, and the tab; `to_str`
/// then yields the bytes as text where each is below 127 or a tab, and fails
/// otherwise. So there is a text exactly where all bytes are visible ASCII,
/// and it holds those bytes as characters.
#[verifier::external_body]
fn visible_text(bytes: &Vec<u8>) -> (text: Option<String>)
    ensures
        text is Some <==> all_visible(bytes@),
        text is Some ==> text->Some_0@ == ascii_text(bytes@),
{
    match reqwest::header::HeaderValue::from_bytes(bytes.as_slice()) {
        Ok(value) => match value.to_str() {
            Ok(text) => Some(text.to_string()),
            Err(_) => None,
        },
        Err(_) => None,
    }
}

/// The text of a received header value; empty where the value is no text.
pub fn header_text(value: &Vec<u8>) -> (text: String)
    ensures
        text@ == header_text_of(value@),
{
    match visible_text(value) {
        Some(text) => text,
        None => String::new(),
    }
}

/// Normalizes the outcome of a call that was sent.
///
/// A transport failure comes back as it is, with the cause as text. A
/// response that arrived is never turned into a failure: a header value that
/// is no text becomes the empty text, and everything else is kept.
pub fn http_response(outcome: Result<ReceivedResponse, String>) -> (response: Result<
    HttpResponse,
    String,
>)
    ensures
        match outcome {
            Ok(received) => response is Ok && response->Ok_0@ == normalized(received@),
            Err(cause) => response is Err && response->Err_0@ == cause@,
        },
{
    match outcome {
        Ok(received) => {
            let mut headers: Vec<(String, String)> = Vec::new();
            let mut i: usize = 0;
            while i < received.headers.len()
                invariant
                    i <= received.headers.len(),
                    headers.len() == i,
                    forall|j: int|
                        0 <= j < i ==> (#[trigger] headers[j]).0@ == received.headers[j].name@
                            && headers[j].1@ == header_text_of(received.headers[j].value@),
                decreases received.headers.len() - i,
            {
                let header = &received.headers[i];
                headers.push((header.name.clone(), header_text(&header.value)));
                i += 1;
            }
            assert(headers.deep_view() =~= normalized(received@).headers);
            Ok(HttpResponse { status: received.status, headers, body: received.body })
        },
        Err(cause) => Err(cause),
    }
}

/// The method of a request is matched without regard to case: two
/// descriptions that differ in nothing but the method, named in both by texts
/// with the same upper-case form, ask for the same call or are refused with
/// the same text.
pub proof fn lemma_method_ignores_case(one: RequestModel, other: RequestModel)
    requires
        one.url == other.url,
        one.headers == other.headers,
        one.body == other.body,
        one.method is Some,
        other.method is Some,
        uppercase_of(one.method->Some_0) == uppercase_of(other.method->Some_0),
    ensures
        planned(one) == planned(other),
{
}

/// A description whose method is not on the allow-list asks for no call:
/// it is refused, and the refusal names the method in upper case.
pub proof fn lemma_unlisted_method_is_refused(request: RequestModel)
    requires
        request.method is Some,
        method_named(uppercase_of(request.method->Some_0)) is None,
    ensures
        planned(request) == Err::<PreparedModel, Seq<char>>(
            unsupported_method_text(uppercase_of(request.method->Some_0)),
        ),
{
}

} // verus!
