//! What the adapters have in common: what a request is made of, and how an
//! answer is judged.

use vstd::prelude::*;
use vstd::string::StringExecFns;
use crate::error::{Error, ErrorView};

verus! {

/// Whether a status code tells of success: 200 to 299.
pub open spec fn is_success(status: u16) -> bool {
    200 <= status <= 299
}

/// What an answer comes to, given the status, the body as text, and what
/// reading the body gave. A status outside 200 to 299 is a failure that
/// carries status and body, whatever the body holds; a body that could not
/// be read is a failure that carries the reader's words and the body.
pub open spec fn judged<T>(status: u16, body: Seq<char>, parsed: Result<T, String>) -> Result<
    T,
    ErrorView,
> {
    if !is_success(status) {
        Err(ErrorView::Http { status, body })
    } else {
        match parsed {
            Ok(value) => Ok(value),
            Err(failure) => Err(ErrorView::Schema { failure: failure@, body }),
        }
    }
}

/// Judges an answer: see `judged`.
pub fn judge<T>(status: u16, body: String, parsed: Result<T, String>) -> (outcome: Result<T, Error>)
    ensures
        match outcome {
            Ok(value) => judged(status, body@, parsed) == Ok::<T, ErrorView>(value),
            Err(e) => judged(status, body@, parsed) == Err::<T, ErrorView>(e@),
        },
{
    if status < 200 || status > 299 {
        return Err(Error::Http { status, body });
    }
    match parsed {
        Ok(value) => Ok(value),
        Err(failure) => Err(Error::Schema { failure, body }),
    }
}

/// How a request is made.
#[derive(Debug, Clone, Copy, PartialEq, Eq, Structural)]
pub enum Method {
    Get,
    Post,
}

/// A name and a value: a header, a parameter of the query, or a text field
/// of a form.
#[derive(Debug, PartialEq, Eq)]
pub struct Pair {
    pub name: String,
    pub value: String,
}

/// What a `Pair` holds, as mathematical values.
pub struct PairView {
    pub name: Seq<char>,
    pub value: Seq<char>,
}

impl View for Pair {
    type V = PairView;

    open spec fn view(&self) -> PairView {
        PairView { name: self.name@, value: self.value@ }
    }
}

/// The views of a run of pairs.
pub open spec fn pair_views(pairs: Seq<Pair>) -> Seq<PairView> {
    Seq::new(pairs.len(), |i: int| pairs[i]@)
}

/// A member of a JSON object.
#[allow(inconsistent_fields)]
#[derive(Debug, PartialEq, Eq)]
pub enum JsonMember {
    Text { name: String, value: String },
    Flag { name: String, value: bool },
}

/// What a `JsonMember` holds, as mathematical values.
#[allow(inconsistent_fields)]
pub enum JsonMemberView {
    Text { name: Seq<char>, value: Seq<char> },
    Flag { name: Seq<char>, value: bool },
}

impl View for JsonMember {
    type V = JsonMemberView;

    open spec fn view(&self) -> JsonMemberView {
        match self {
            JsonMember::Text { name, value } => JsonMemberView::Text { name: name@, value: value@ },
            JsonMember::Flag { name, value } => JsonMemberView::Flag { name: name@, value: *value },
        }
    }
}

/// The views of a run of members.
pub open spec fn member_views(members: Seq<JsonMember>) -> Seq<JsonMemberView> {
    Seq::new(members.len(), |i: int| members[i]@)
}

/// What a request carries.
#[derive(Debug, PartialEq, Eq)]
pub enum Payload {
    /// Nothing.
    Empty,
    /// The bytes as they are.
    Raw { bytes: Vec<u8> },
    /// A multipart form with one file and some text fields.
    Form { file_field: String, file_name: String, mime: String, bytes: Vec<u8>, fields: Vec<Pair> },
    /// A JSON object with these members, in this order.
    Json { members: Vec<JsonMember> },
}

/// What a `Payload` holds, as mathematical values.
pub enum PayloadView {
    Empty,
    Raw { bytes: Seq<u8> },
    Form {
        file_field: Seq<char>,
        file_name: Seq<char>,
        mime: Seq<char>,
        bytes: Seq<u8>,
        fields: Seq<PairView>,
    },
    Json { members: Seq<JsonMemberView> },
}

impl View for Payload {
    type V = PayloadView;

    open spec fn view(&self) -> PayloadView {
        match self {
            Payload::Empty => PayloadView::Empty,
            Payload::Raw { bytes } => PayloadView::Raw { bytes: bytes@ },
            Payload::Form { file_field, file_name, mime, bytes, fields } => PayloadView::Form {
                file_field: file_field@,
                file_name: file_name@,
                mime: mime@,
                bytes: bytes@,
                fields: pair_views(fields@),
            },
            Payload::Json { members } => PayloadView::Json { members: member_views(members@) },
        }
    }
}

/// A request to a provider.
#[derive(Debug, PartialEq, Eq)]
pub struct Request {
    pub method: Method,
    pub url: String,
    pub query: Vec<Pair>,
    pub headers: Vec<Pair>,
    pub payload: Payload,
}

/// What a `Request` holds, as mathematical values.
pub struct RequestView {
    pub method: Method,
    pub url: Seq<char>,
    pub query: Seq<PairView>,
    pub headers: Seq<PairView>,
    pub payload: PayloadView,
}

impl View for Request {
    type V = RequestView;

    open spec fn view(&self) -> RequestView {
        RequestView {
            method: self.method,
            url: self.url@,
            query: pair_views(self.query@),
            headers: pair_views(self.headers@),
            payload: self.payload@,
        }
    }
}

/// The pair of a name and a value.
pub open spec fn pair_of(name: Seq<char>, value: Seq<char>) -> PairView {
    PairView { name, value }
}

/// The pair of a name and a value.
pub fn pair(name: &str, value: String) -> (p: Pair)
    ensures
        p@ == pair_of(name@, value@),
{
    Pair { name: String::from_str(name), value }
}

/// No pairs.
pub fn no_pairs() -> (pairs: Vec<Pair>)
    ensures
        pair_views(pairs@) == Seq::<PairView>::empty(),
{
    let pairs: Vec<Pair> = Vec::new();
    assert(pair_views(pairs@) =~= Seq::<PairView>::empty());
    pairs
}

/// The pairs with one more at the end.
pub fn with_pair(pairs: Vec<Pair>, name: &str, value: String) -> (more: Vec<Pair>)
    ensures
        pair_views(more@) == pair_views(pairs@).push(pair_of(name@, value@)),
{
    let mut more = pairs;
    more.push(pair(name, value));
    assert(pair_views(more@) =~= pair_views(pairs@).push(pair_of(name@, value@)));
    more
}

/// The members with one more at the end.
pub fn with_member(members: Vec<JsonMember>, member: JsonMember) -> (more: Vec<JsonMember>)
    ensures
        member_views(more@) == member_views(members@).push(member@),
{
    let mut more = members;
    more.push(member);
    assert(member_views(more@) =~= member_views(members@).push(member@));
    more
}

/// The name of the WAV file inside a form.
pub const WAV_FILE_NAME: &'static str = "audio.wav";

/// The type of a WAV file.
pub const WAV_MIME: &'static str = "audio/wav";

} // verus!
