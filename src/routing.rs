//! Which requests are served, what a failed request turns into, and the
//! cross-origin policy that the server applies in front of the route.

use vstd::prelude::*;
use crate::question::{
    Question, QuestionView, decimal_value, first_question, first_question_view, parses_as_u64,
    unsigned_digits,
};

verus! {

/// The request methods of HTTP; `Other` stands for any extension method.
#[derive(PartialEq, Eq, Structural, Clone, Copy, Debug)]
pub enum Method {
    Get,
    Head,
    Post,
    Put,
    Delete,
    Connect,
    Options,
    Trace,
    Patch,
    Other,
}

/// Why a request was not answered with a question.
#[derive(Debug)]
pub enum Failure {
    /// The cross-origin policy refused the request; the text says how.
    CorsForbidden(String),
    /// The question's identifier is not a non-negative integer.
    InvalidId,
    /// No route takes the request.
    NotFound,
}

/// A plain-text answer: a status code and its body.
#[derive(Debug)]
pub struct Reply {
    pub status: u16,
    pub body: String,
}

pub const FORBIDDEN: u16 = 403;

pub const NOT_FOUND: u16 = 404;

pub const UNPROCESSABLE_ENTITY: u16 = 422;

/// The status that answers a failure.
pub open spec fn failure_status(f: Failure) -> u16 {
    match f {
        Failure::CorsForbidden(_) => FORBIDDEN,
        Failure::InvalidId => UNPROCESSABLE_ENTITY,
        Failure::NotFound => NOT_FOUND,
    }
}

/// The body that answers a failure.
pub open spec fn failure_body(f: Failure) -> Seq<char> {
    match f {
        Failure::CorsForbidden(why) => why@,
        Failure::InvalidId => "No valid ID given"@,
        Failure::NotFound => "Route not found"@,
    }
}

/// Maps a failure to its status and plain-text body.
pub fn return_error(f: Failure) -> (r: Reply)
    ensures
        r.status == failure_status(f),
        r.body@ == failure_body(f),
{
    match f {
        Failure::CorsForbidden(why) => Reply { status: FORBIDDEN, body: why },
        Failure::InvalidId => Reply {
            status: UNPROCESSABLE_ENTITY,
            body: "No valid ID given".to_owned(),
        },
        Failure::NotFound => Reply { status: NOT_FOUND, body: "Route not found".to_owned() },
    }
}

/// Lets a question out only where its identifier is a non-negative integer.
pub fn check_question(q: Question) -> (r: Result<Question, Failure>)
    ensures
        parses_as_u64(q.id.0@) ==> r == Ok::<Question, Failure>(q),
        !parses_as_u64(q.id.0@) ==> r matches Err(Failure::InvalidId),
{
    match q.id.number() {
        Some(_) => Ok(q),
        None => Err(Failure::InvalidId),
    }
}

/// The answer of the one route: the fixed question, built afresh.
pub fn get_questions() -> (r: Result<Question, Failure>)
    ensures
        r matches Ok(q) && q@ == first_question_view(),
{
    let q = first_question();
    proof {
        reveal_strlit("1");
        assert(decimal_value(unsigned_digits(q.id.0@)) == 1) by {
            assert(unsigned_digits(q.id.0@) =~= seq!['1']);
            assert(seq!['1'].drop_last() =~= Seq::<char>::empty());
            assert(decimal_value(Seq::<char>::empty()) == 0);
            assert(seq!['1'].last() == '1');
            assert(decimal_value(seq!['1']) == 1);
        }
    }
    check_question(q)
}

/// Whether the text holds exactly the same characters as the other.
fn same_text(a: &str, b: &str) -> (r: bool)
    ensures
        r == (a@ == b@),
{
    let n = a.unicode_len();
    if n != b.unicode_len() {
        return false;
    }
    let mut i: usize = 0;
    while i < n
        invariant
            n == a@.len(),
            n == b@.len(),
            i <= n,
            a@.subrange(0, i as int) == b@.subrange(0, i as int),
        decreases n - i,
    {
        if a.get_char(i) != b.get_char(i) {
            return false;
        }
        assert(a@.subrange(0, i + 1) =~= a@.subrange(0, i as int).push(a@[i as int]));
        assert(b@.subrange(0, i + 1) =~= b@.subrange(0, i as int).push(b@[i as int]));
        i = i + 1;
    }
    assert(a@ =~= a@.subrange(0, n as int));
    assert(b@ =~= b@.subrange(0, n as int));
    true
}

/// Whether a request is the one that the service answers: `GET /questions`,
/// with nothing after the path.
pub open spec fn serves_questions(method: Method, path: Seq<char>) -> bool {
    method == Method::Get && path == "/questions"@
}

/// Routes a request by method and path: `GET /questions` gets the fixed
/// question, everything else is not found.
pub fn route(method: Method, path: &str) -> (r: Result<Question, Failure>)
    ensures
        serves_questions(method, path@) ==> (r matches Ok(q) && q@ == first_question_view()),
        !serves_questions(method, path@) ==> r matches Err(Failure::NotFound),
{
    if method == Method::Get && same_text(path, "/questions") {
        get_questions()
    } else {
        Err(Failure::NotFound)
    }
}

/// What the server sends: the question as a JSON document, or plain text.
#[derive(Debug)]
pub enum Response {
    Json(Question),
    Text(Reply),
}

/// A response, as plain values.
pub enum ResponseView {
    Json(QuestionView),
    Text(u16, Seq<char>),
}

impl View for Response {
    type V = ResponseView;

    open spec fn view(&self) -> ResponseView {
        match self {
            Response::Json(q) => ResponseView::Json(q@),
            Response::Text(t) => ResponseView::Text(t.status, t.body@),
        }
    }
}

/// The response that a handler's outcome turns into.
pub open spec fn outcome_view(r: Result<Question, Failure>) -> ResponseView {
    match r {
        Ok(q) => ResponseView::Json(q@),
        Err(f) => ResponseView::Text(failure_status(f), failure_body(f)),
    }
}

/// Turns a handler's outcome into a response: a question goes out as JSON, a
/// failure as its status and text.
pub fn answer(r: Result<Question, Failure>) -> (resp: Response)
    ensures
        resp@ == outcome_view(r),
{
    match r {
        Ok(q) => Response::Json(q),
        Err(f) => Response::Text(return_error(f)),
    }
}

/// The response to a question handed to the handler: the question itself
/// where its identifier is a non-negative integer, else `422` with
/// `No valid ID given`.
pub open spec fn question_response_view(q: QuestionView) -> ResponseView {
    if parses_as_u64(q.id) {
        ResponseView::Json(q)
    } else {
        ResponseView::Text(UNPROCESSABLE_ENTITY, "No valid ID given"@)
    }
}

/// Checks a question and answers with it, or with the failure it gives.
pub fn handle_question(q: Question) -> (resp: Response)
    ensures
        resp@ == question_response_view(q@),
{
    answer(check_question(q))
}

/// The response to a request, by method and path.
pub open spec fn response_view(method: Method, path: Seq<char>) -> ResponseView {
    if serves_questions(method, path) {
        ResponseView::Json(first_question_view())
    } else {
        ResponseView::Text(NOT_FOUND, "Route not found"@)
    }
}

/// Answers a request that the cross-origin policy let through. The response
/// depends on the method and path alone: no state is kept between requests.
pub fn respond(method: Method, path: &str) -> (resp: Response)
    ensures
        resp@ == response_view(method, path@),
{
    answer(route(method, path))
}

/// Every `GET /questions` gets the same response, the fixed question: the
/// response is a function of the method and path alone, so repeating the
/// request repeats the answer.
pub proof fn lemma_questions_response_fixed(path: Seq<char>)
    requires
        path == "/questions"@,
    ensures
        response_view(Method::Get, path) == ResponseView::Json(first_question_view()),
{
}

/// The cross-origin policy: which origins, request headers and methods a
/// cross-origin request may use.
#[derive(Debug)]
pub struct CorsPolicy {
    pub any_origin: bool,
    pub allowed_headers: Vec<String>,
    pub allowed_methods: Vec<Method>,
}

/// The methods that cross-origin requests may use.
pub open spec fn cors_methods() -> Seq<Method> {
    seq![Method::Put, Method::Get, Method::Post, Method::Delete, Method::Options]
}

/// The request headers that cross-origin requests may carry.
pub open spec fn cors_headers() -> Seq<Seq<char>> {
    seq!["content-type"@]
}

/// The policy that the server applies to every request: any origin, the
/// `content-type` header, and the methods PUT, GET, POST, DELETE, OPTIONS.
pub fn cors_policy() -> (p: CorsPolicy)
    ensures
        p.any_origin,
        p.allowed_headers@.map_values(|h: String| h@) == cors_headers(),
        p.allowed_methods@ == cors_methods(),
{
    let allowed_headers = vec!["content-type".to_owned()];
    let allowed_methods = vec![Method::Put, Method::Get, Method::Post, Method::Delete, Method::Options];
    assert(allowed_headers@.map_values(|h: String| h@) =~= cors_headers());
    assert(allowed_methods@ =~= cors_methods());
    CorsPolicy { any_origin: true, allowed_headers, allowed_methods }
}

} // verus!
