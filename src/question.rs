//! The question record, its identifier, and the identifier's numeric check.

use vstd::prelude::*;

verus! {

/// A decimal digit, `0` to `9`.
pub open spec fn is_decimal_digit(c: char) -> bool {
    '0' <= c && c <= '9'
}

/// The number that a string of decimal digits denotes, most significant first.
pub open spec fn decimal_value(d: Seq<char>) -> nat
    decreases d.len(),
{
    if d.len() == 0 {
        0
    } else {
        decimal_value(d.drop_last()) * 10 + ((d.last() as u32) - ('0' as u32)) as nat
    }
}

/// The text without its one optional leading `+`.
pub open spec fn unsigned_digits(s: Seq<char>) -> Seq<char> {
    if s.len() > 0 && s[0] == '+' {
        s.drop_first()
    } else {
        s
    }
}

/// Whether the text is an unsigned decimal integer that fits in 64 bits:
/// an optional `+`, then one or more digits and nothing else.
pub open spec fn parses_as_u64(s: Seq<char>) -> bool {
    let d = unsigned_digits(s);
    &&& d.len() > 0
    &&& forall|i: int| 0 <= i < d.len() ==> is_decimal_digit(#[trigger] d[i])
    &&& decimal_value(d) <= u64::MAX
}

/// Relies on `str::parse::<u64>` (`u64::from_str`): an optional `+` followed by
/// decimal digits only is accepted when its value fits, and the value is returned;
/// any other text, the empty text included, is an error.
#[verifier::external_body]
fn parse_u64(s: &str) -> (r: Option<u64>)
    ensures
        r is Some <==> parses_as_u64(s@),
        r matches Some(n) ==> n as nat == decimal_value(unsigned_digits(s@)),
{
    s.parse::<u64>().ok()
}

/// The identifier of a question. It is held as text and is meant to be a
/// non-negative integer; that is checked when a response is built.
#[derive(Debug)]
pub struct QuestionId(pub String);

impl QuestionId {
    /// The identifier's numeric value, or `None` where its text is no
    /// unsigned 64-bit decimal integer.
    pub fn number(&self) -> (r: Option<u64>)
        ensures
            r is Some <==> parses_as_u64(self.0@),
            r matches Some(n) ==> n as nat == decimal_value(unsigned_digits(self.0@)),
    {
        parse_u64(self.0.as_str())
    }
}

impl From<&str> for QuestionId {
    fn from(value: &str) -> (r: QuestionId)
        ensures
            r.0@ == value@,
    {
        QuestionId(value.to_owned())
    }
}

// Two `String`s with the same characters need not be the same value to the
// verifier, so `from` is described by its own `ensures` above instead.
impl vstd::std_specs::convert::FromSpecImpl<&str> for QuestionId {
    open spec fn obeys_from_spec() -> bool {
        false
    }

    open spec fn from_spec(v: &str) -> QuestionId {
        arbitrary()
    }
}

/// What a question holds, as plain sequences.
pub struct QuestionView {
    pub id: Seq<char>,
    pub title: Seq<char>,
    pub content: Seq<char>,
    pub tags: Option<Seq<Seq<char>>>,
}

/// A question: identifier, title, body text and optional tags in order.
#[derive(Debug)]
pub struct Question {
    pub id: QuestionId,
    pub title: String,
    pub content: String,
    pub tags: Option<Vec<String>>,
}

/// The text of each tag, in order.
pub open spec fn tags_view(tags: Option<Vec<String>>) -> Option<Seq<Seq<char>>> {
    match tags {
        Some(v) => Some(v@.map_values(|t: String| t@)),
        None => None,
    }
}

impl View for Question {
    type V = QuestionView;

    open spec fn view(&self) -> QuestionView {
        QuestionView {
            id: self.id.0@,
            title: self.title@,
            content: self.content@,
            tags: tags_view(self.tags),
        }
    }
}

impl Question {
    pub fn new(id: QuestionId, title: String, content: String, tags: Option<Vec<String>>) -> (r:
        Question)
        ensures
            r.id == id,
            r.title == title,
            r.content == content,
            r.tags == tags,
    {
        Question { id, title, content, tags }
    }
}

/// The one question that the service hands out.
pub open spec fn first_question_view() -> QuestionView {
    QuestionView {
        id: "1"@,
        title: "First Question"@,
        content: "Content of the first question"@,
        tags: Some(seq!["rust"@, "programming"@]),
    }
}

/// Builds, afresh on each call, the one question that the service hands out.
pub fn first_question() -> (q: Question)
    ensures
        q@ == first_question_view(),
{
    let tags = vec!["rust".to_owned(), "programming".to_owned()];
    let q = Question::new(
        QuestionId::from("1"),
        "First Question".to_owned(),
        "Content of the first question".to_owned(),
        Some(tags),
    );
    assert(tags_view(q.tags) =~= first_question_view().tags);
    q
}

} // verus!
