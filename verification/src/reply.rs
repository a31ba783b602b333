//! Reading the text out of the model service's answer, which is a JSON
//! document. The document is parsed and walked by `serde_json`.

use crate::client::{Failure, CONTENT_MEMBER, MESSAGE_MEMBER};
use vstd::prelude::*;
use vstd::string::*;

verus! {

/// `serde_json::Value`, a JSON value; nothing of its inside is seen here.
#[verifier::external_type_specification]
#[verifier::external_body]
pub struct ExValue(serde_json::Value);

/// `serde_json::Error`, why bytes are no JSON document.
#[verifier::external_type_specification]
#[verifier::external_body]
pub struct ExJsonError(serde_json::Error);

/// The texts that a JSON value holds: each path of member names that leads
/// from the value through objects to a string, with that string. A value that
/// is itself a string holds it at the empty path.
pub uninterp spec fn texts_in(value: serde_json::Value) -> Map<Seq<Seq<char>>, Seq<char>>;

/// The texts of the JSON document that `body` writes, where it writes one.
pub uninterp spec fn document_texts(body: Seq<u8>) -> Option<Map<Seq<Seq<char>>, Seq<char>>>;

/// The path to the text of an answer.
pub open spec fn content_path() -> Seq<Seq<char>> {
    seq![MESSAGE_MEMBER@, CONTENT_MEMBER@]
}

/// The text of an answer whose texts are `texts`: the one at the content
/// path, or the empty text where none is there.
pub open spec fn content_in(texts: Map<Seq<Seq<char>>, Seq<char>>) -> Seq<char> {
    if texts.contains_key(content_path()) {
        texts[content_path()]
    } else {
        Seq::empty()
    }
}

/// What reading the answer `body` gives: its text, or that it cannot be
/// decoded.
pub open spec fn reply_of(body: Seq<u8>) -> Result<Seq<char>, Failure> {
    match document_texts(body) {
        Some(texts) => Ok(content_in(texts)),
        None => Err(Failure::Undecodable),
    }
}

/// `serde_json::from_slice` for a `Value`: the bytes either write one JSON
/// document, whose texts are then those of the value returned, or they write
/// none and an error is returned. Which of the two depends on the bytes alone.
#[verifier::external_body]
fn parse_document(body: &[u8]) -> (r: Result<serde_json::Value, serde_json::Error>)
    ensures
        match r {
            Ok(document) => document_texts(body@) == Some(texts_in(document)),
            Err(_) => document_texts(body@) is None,
        },
{
    serde_json::from_slice::<serde_json::Value>(body)
}

/// Indexing a `serde_json::Value` by a member name: the member of that name
/// where the value is an object that has one, the null value otherwise. So
/// the texts of the result are those that the value holds below that name.
#[verifier::external_body]
fn member<'a>(value: &'a serde_json::Value, name: &str) -> (r: &'a serde_json::Value)
    ensures
        forall|path: Seq<Seq<char>>|
            texts_in(*r).contains_key(path) == #[trigger] texts_in(*value).contains_key(
                seq![name@] + path,
            ),
        forall|path: Seq<Seq<char>>|
            texts_in(*r).contains_key(path) ==> texts_in(*r)[path] == #[trigger] texts_in(
                *value,
            )[seq![name@] + path],
{
    &value[name]
}

/// `serde_json::Value::as_str`: the string where the value is one, which is
/// then its text at the empty path; nothing where it is anything else.
#[verifier::external_body]
fn text_of<'a>(value: &'a serde_json::Value) -> (r: Option<&'a str>)
    ensures
        match r {
            Some(text) => texts_in(*value).contains_key(Seq::empty()) && texts_in(*value)[Seq::empty()]
                == text@,
            None => !texts_in(*value).contains_key(Seq::empty()),
        },
{
    value.as_str()
}

/// The text of the answer `document`; the empty text where the document has
/// no message with a content that is a string.
pub fn content_of(document: &serde_json::Value) -> (text: String)
    ensures
        text@ == content_in(texts_in(*document)),
{
    let message = member(document, MESSAGE_MEMBER);
    let content = member(message, CONTENT_MEMBER);
    proof {
        let inner: Seq<Seq<char>> = seq![CONTENT_MEMBER@];
        assert(seq![MESSAGE_MEMBER@] + inner =~= content_path());
        assert(seq![CONTENT_MEMBER@] + Seq::<Seq<char>>::empty() =~= inner);
        assert(texts_in(*content).contains_key(Seq::empty()) == texts_in(*message).contains_key(
            seq![CONTENT_MEMBER@] + Seq::<Seq<char>>::empty(),
        ));
        assert(texts_in(*message).contains_key(inner) == texts_in(*document).contains_key(
            seq![MESSAGE_MEMBER@] + inner,
        ));
    }
    match text_of(content) {
        Some(text) => String::from_str(text),
        None => String::new(),
    }
}

/// Reads the answer `body`: its text where the bytes are a JSON document,
/// `Failure::Undecodable` where they are none.
pub fn read_reply(body: &[u8]) -> (r: Result<String, Failure>)
    ensures
        match r {
            Ok(text) => reply_of(body@) == Ok::<Seq<char>, Failure>(text@),
            Err(failure) => reply_of(body@) == Err::<Seq<char>, Failure>(failure),
        },
{
    match parse_document(body) {
        Ok(document) => Ok(content_of(&document)),
        Err(_) => Err(Failure::Undecodable),
    }
}

} // verus!
