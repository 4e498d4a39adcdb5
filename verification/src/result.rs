//! The result wrapper: an identifier, a status code and a payload, together
//! with the serializable-payload capability every payload type must satisfy.

use crate::decimal::dec_of;
use crate::decimal::u64_to_string;
use vstd::prelude::*;
use vstd::string::StringExecFns;

verus! {

/// The serializable-payload capability: a payload renders itself as text and
/// as JSON, each a read-only view of internally held text.
pub trait RawResult {
    /// The text rendering, as a sequence of characters.
    spec fn text_view(&self) -> Seq<char>;

    /// The JSON rendering, as a sequence of characters.
    spec fn json_view(&self) -> Seq<char>;

    /// Renders the payload as text.
    fn to_str(&self) -> (r: &str)
        ensures
            r@ == self.text_view(),
    ;

    /// Renders the payload as JSON.
    fn to_json(&self) -> (r: &str)
        ensures
            r@ == self.json_view(),
    ;
}

/// The canonical pipe-delimited rendering of a result: decimal id, decimal
/// code and the payload's text, joined by literal `|` characters, with no
/// trailing delimiter.
pub open spec fn render(id: u64, code: u8, text: Seq<char>) -> Seq<char> {
    dec_of(id as nat) + seq!['|'] + dec_of(code as nat) + seq!['|'] + text
}

/// The outcome of processing a task: the originating task's id, a status code
/// (200 is the convention for success; any value is legal), and a payload.
/// All three fields are immutable once constructed.
pub struct TaskResult<T: RawResult> {
    id: u64,
    code: u8,
    result: T,
}

impl<T: RawResult> TaskResult<T> {
    /// The identifier held by this result.
    pub closed spec fn spec_id(&self) -> u64 {
        self.id
    }

    /// The status code held by this result.
    pub closed spec fn spec_code(&self) -> u8 {
        self.code
    }

    /// The payload held by this result.
    pub closed spec fn spec_result(&self) -> T {
        self.result
    }

    /// Constructs a result, taking ownership of the payload: the stored
    /// payload is this value, independent of any state outside the result.
    pub fn new(id: u64, code: u8, result: T) -> (r: Self)
        ensures
            r.spec_id() == id,
            r.spec_code() == code,
            r.spec_result() == result,
    {
        TaskResult { id, code, result }
    }

    /// Read-only access to the identifier.
    pub fn get_id(&self) -> (r: &u64)
        ensures
            *r == self.spec_id(),
    {
        &self.id
    }

    /// Read-only access to the status code.
    pub fn get_code(&self) -> (r: &u8)
        ensures
            *r == self.spec_code(),
    {
        &self.code
    }

    /// Read-only access to the payload.
    pub fn get_result(&self) -> (r: &T)
        ensures
            *r == self.spec_result(),
    {
        &self.result
    }

    /// Produces the canonical textual representation
    /// `"<id>|<code>|<payload text>"`.
    pub fn result_to_str(&self) -> (r: String)
        ensures
            r@ == render(self.spec_id(), self.spec_code(), self.spec_result().text_view()),
    {
        let mut s = u64_to_string(self.id);
        s.append("|");
        let code_str = u64_to_string(self.code as u64);
        s.append(code_str.as_str());
        s.append("|");
        s.append(self.result.to_str());
        proof {
            reveal_strlit("|");
            assert("|"@ =~= seq!['|']);
            assert(s@ =~= render(self.spec_id(), self.spec_code(), self.spec_result().text_view()));
        }
        s
    }
}

/// The payload that carries no data: both renders yield the empty string.
/// Used as the default payload for bare success signaling.
pub struct EmptyResult {}

impl EmptyResult {
    /// Constructs the empty payload.
    pub fn new() -> (r: Self)
        ensures
            r.text_view() == Seq::<char>::empty(),
            r.json_view() == Seq::<char>::empty(),
    {
        EmptyResult {  }
    }
}

impl RawResult for EmptyResult {
    open spec fn text_view(&self) -> Seq<char> {
        Seq::empty()
    }

    open spec fn json_view(&self) -> Seq<char> {
        Seq::empty()
    }

    fn to_str(&self) -> (r: &str) {
        let r = "";
        proof {
            reveal_strlit("");
            assert(r@ =~= Seq::<char>::empty());
        }
        r
    }

    fn to_json(&self) -> (r: &str) {
        let r = "";
        proof {
            reveal_strlit("");
            assert(r@ =~= Seq::<char>::empty());
        }
        r
    }
}

/// A payload carrying a single text message (an error message, say): both
/// renders return the stored message verbatim.
pub struct MessagePayload {
    msg: String,
}

impl MessagePayload {
    /// Constructs a payload owning the given message.
    pub fn new(msg: String) -> (r: Self)
        ensures
            r.text_view() == msg@,
            r.json_view() == msg@,
    {
        MessagePayload { msg }
    }
}

impl RawResult for MessagePayload {
    closed spec fn text_view(&self) -> Seq<char> {
        self.msg@
    }

    closed spec fn json_view(&self) -> Seq<char> {
        self.msg@
    }

    fn to_str(&self) -> (r: &str) {
        self.msg.as_str()
    }

    fn to_json(&self) -> (r: &str) {
        self.msg.as_str()
    }
}

/// Convenience constructor: a success result (code 200) with the empty
/// payload.
pub fn succeed(id: u64) -> (r: TaskResult<EmptyResult>)
    ensures
        r.spec_id() == id,
        r.spec_code() == 200,
        r.spec_result().text_view() == Seq::<char>::empty(),
        r.spec_result().json_view() == Seq::<char>::empty(),
{
    TaskResult::new(id, 200, EmptyResult::new())
}

/// Convenience constructor: a success result (code 200) with the given
/// payload.
pub fn succeed_with_result<T: RawResult>(id: u64, result: T) -> (r: TaskResult<T>)
    ensures
        r.spec_id() == id,
        r.spec_code() == 200,
        r.spec_result() == result,
{
    TaskResult::new(id, 200, result)
}

/// Law: a bare success result renders as the decimal id followed by "|200|"
/// (the empty payload contributes empty text), for any id.
pub proof fn lemma_succeed_render(id: u64)
    ensures
        render(id, 200, Seq::<char>::empty()) == dec_of(id as nat) + "|200|"@,
{
    lemma_succeed_with_result_render(id, Seq::<char>::empty());
    assert(dec_of(id as nat) + "|200|"@ + Seq::<char>::empty() =~= dec_of(id as nat) + "|200|"@);
}

/// Law: a success result renders as the decimal id, then "|200|", then the
/// payload's text, for any id and any payload text.
pub proof fn lemma_succeed_with_result_render(id: u64, text: Seq<char>)
    ensures
        render(id, 200, text) == dec_of(id as nat) + "|200|"@ + text,
{
    reveal_strlit("|200|");
    assert(dec_of(2) =~= seq!['2']);
    assert(dec_of(20) =~= seq!['2', '0']);
    assert(dec_of(200) =~= seq!['2', '0', '0']);
    assert(render(id, 200, text) =~= dec_of(id as nat) + "|200|"@ + text);
}

} // verus!
