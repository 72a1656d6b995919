//! What the relay answers: a status, whether the answer is labelled as JSON, and
//! a body that is either plain text or a JSON object of text members.

use vstd::prelude::*;
use vstd::string::*;

verus! {

/// HTTP status of an answer that went well.
pub const OK: u16 = 200;

/// HTTP status of every failure but an unknown route.
pub const BAD_REQUEST: u16 = 400;

/// HTTP status of an unknown route.
pub const NOT_FOUND: u16 = 404;

/// The body of a reply before it is written out.
#[derive(Debug, Clone, PartialEq, Eq)]
pub enum Content {
    /// Text, sent as it stands.
    Text(String),
    /// A JSON object; each member is a name and a text value.
    Object(Vec<(String, String)>),
}

/// What a `Content` stands for.
pub enum ContentView {
    Text(Seq<char>),
    Object(Seq<(Seq<char>, Seq<char>)>),
}

/// One answer of the relay.
#[derive(Debug, Clone, PartialEq, Eq)]
pub struct Reply {
    /// The HTTP status.
    pub status: u16,
    /// Whether the answer carries the header `Content-Type: application/json`.
    pub labelled_json: bool,
    /// The body.
    pub content: Content,
}

/// What a `Reply` stands for.
pub struct ReplyView {
    pub status: u16,
    pub labelled_json: bool,
    pub content: ContentView,
}

impl View for Content {
    type V = ContentView;

    open spec fn view(&self) -> ContentView {
        match self {
            Content::Text(text) => ContentView::Text(text@),
            Content::Object(members) => ContentView::Object(members.deep_view()),
        }
    }
}

impl View for Reply {
    type V = ReplyView;

    open spec fn view(&self) -> ReplyView {
        ReplyView {
            status: self.status,
            labelled_json: self.labelled_json,
            content: self.content@,
        }
    }
}

/// The compact JSON text of the object that has `members`, each value a JSON
/// string, as `serde_json` writes it.
pub uninterp spec fn json_object_text(members: Seq<(Seq<char>, Seq<char>)>) -> Seq<char>;

/// Builds a `serde_json::Map` by `insert`, member after member, and writes the
/// `serde_json::Value::Object` of it with `to_string`. Trusted: the text depends
/// on the members alone.
#[verifier::external_body]
fn write_object(members: &Vec<(String, String)>) -> (text: String)
    ensures
        text@ == json_object_text(members.deep_view()),
{
    let mut object = serde_json::Map::new();
    for (name, value) in members.iter() {
        object.insert(name.clone(), serde_json::Value::String(value.clone()));
    }
    serde_json::Value::Object(object).to_string()
}

impl ContentView {
    /// The body as it goes out.
    pub open spec fn text(self) -> Seq<char> {
        match self {
            ContentView::Text(text) => text,
            ContentView::Object(members) => json_object_text(members),
        }
    }
}

impl ReplyView {
    /// A reply of plain text.
    pub open spec fn plain(status: u16, text: Seq<char>) -> ReplyView {
        ReplyView { status, labelled_json: false, content: ContentView::Text(text) }
    }

    /// A reply whose body is a JSON object.
    pub open spec fn object(
        status: u16,
        labelled_json: bool,
        members: Seq<(Seq<char>, Seq<char>)>,
    ) -> ReplyView {
        ReplyView { status, labelled_json, content: ContentView::Object(members) }
    }

    /// The acknowledgement `{status: success}`.
    pub open spec fn acknowledgement() -> ReplyView {
        ReplyView::object(OK, false, seq![("status"@, "success"@)])
    }

    /// The failure report `{error: label}`.
    pub open spec fn failure(labelled_json: bool, label: Seq<char>) -> ReplyView {
        ReplyView::object(BAD_REQUEST, labelled_json, seq![("error"@, label)])
    }

    /// The failure report `{error: label, details: details}`, labelled as JSON.
    pub open spec fn detailed_failure(label: Seq<char>, details: Seq<char>) -> ReplyView {
        ReplyView::object(BAD_REQUEST, true, seq![("error"@, label), ("details"@, details)])
    }
}

/// The member `name: value`.
fn member(name: &str, value: &str) -> (pair: (String, String))
    ensures
        pair.deep_view() == (name@, value@),
{
    (String::from_str(name), String::from_str(value))
}

impl Reply {
    /// A reply of plain text.
    pub fn plain(status: u16, text: String) -> (reply: Reply)
        ensures
            reply@ == ReplyView::plain(status, text@),
    {
        Reply { status, labelled_json: false, content: Content::Text(text) }
    }

    /// The failure report `{error: label}`.
    pub fn failure(labelled_json: bool, label: &str) -> (reply: Reply)
        ensures
            reply@ == ReplyView::failure(labelled_json, label@),
    {
        let mut members: Vec<(String, String)> = Vec::new();
        members.push(member("error", label));
        assert(members.deep_view() =~= seq![("error"@, label@)]);
        Reply { status: BAD_REQUEST, labelled_json, content: Content::Object(members) }
    }

    /// The failure report `{error: label, details: details}`, labelled as JSON.
    pub fn detailed_failure(label: &str, details: &str) -> (reply: Reply)
        ensures
            reply@ == ReplyView::detailed_failure(label@, details@),
    {
        let mut members: Vec<(String, String)> = Vec::new();
        members.push(member("error", label));
        members.push(member("details", details));
        assert(members.deep_view() =~= seq![("error"@, label@), ("details"@, details@)]);
        Reply { status: BAD_REQUEST, labelled_json: true, content: Content::Object(members) }
    }

    /// The acknowledgement `{status: success}`.
    pub fn acknowledgement() -> (reply: Reply)
        ensures
            reply@ == ReplyView::acknowledgement(),
    {
        let mut members: Vec<(String, String)> = Vec::new();
        members.push(member("status", "success"));
        assert(members.deep_view() =~= seq![("status"@, "success"@)]);
        Reply { status: OK, labelled_json: false, content: Content::Object(members) }
    }

    /// The body as it goes out: text as it stands, an object as compact JSON.
    pub fn body(&self) -> (text: String)
        ensures
            text@ == self@.content.text(),
    {
        match &self.content {
            Content::Text(text) => text.clone(),
            Content::Object(members) => write_object(members),
        }
    }
}

} // verus!
