//! The trigger command and its decoding from one line of client input.
use vstd::prelude::*;

use crate::json::{
    not_a_string_message,
    object_from_text,
    parse_object,
    shape_of,
    string_of,
    JsonShape,
};

verus! {

/// A request to run tests, with optional hints on where.
#[derive(Debug)]
pub struct Trigger {
    pub filename: Option<String>,
    pub line: Option<String>,
}

/// The mathematical value of a `Trigger`.
pub struct TriggerView {
    pub filename: Option<Seq<char>>,
    pub line: Option<Seq<char>>,
}

pub open spec fn opt_view(o: Option<String>) -> Option<Seq<char>> {
    match o {
        Some(s) => Some(s@),
        None => None,
    }
}

impl View for Trigger {
    type V = TriggerView;

    open spec fn view(&self) -> TriggerView {
        TriggerView { filename: opt_view(self.filename), line: opt_view(self.line) }
    }
}

fn opt_eq(a: &Option<String>, b: &Option<String>) -> (r: bool)
    ensures
        r == (opt_view(*a) == opt_view(*b)),
{
    match (a, b) {
        (Some(x), Some(y)) => *x == *y,
        (None, None) => true,
        _ => false,
    }
}

impl PartialEq for Trigger {
    /// Two triggers are equal when both hints are: a present hint never
    /// equals an absent one.
    fn eq(&self, other: &Trigger) -> (r: bool)
        ensures
            r == (self@ == other@),
    {
        opt_eq(&self.filename, &other.filename) && opt_eq(&self.line, &other.line)
    }
}

impl vstd::std_specs::cmp::PartialEqSpecImpl for Trigger {
    open spec fn obeys_eq_spec() -> bool {
        true
    }

    open spec fn eq_spec(&self, other: &Trigger) -> bool {
        self@ == other@
    }
}

/// A line that could not be decoded: a short title that quotes it, and a
/// detail that holds the parser's diagnostic.
#[derive(Debug)]
pub struct DecodeError {
    pub title: String,
    pub detail: String,
}

impl DecodeError {
    pub fn new(title: String, detail: String) -> (r: DecodeError)
        ensures
            r.title@ == title@,
            r.detail@ == detail@,
    {
        DecodeError { title, detail }
    }
}

impl PartialEq for DecodeError {
    fn eq(&self, other: &DecodeError) -> (r: bool)
        ensures
            r == (self.title@ == other.title@ && self.detail@ == other.detail@),
    {
        self.title == other.title && self.detail == other.detail
    }
}

impl vstd::std_specs::cmp::PartialEqSpecImpl for DecodeError {
    open spec fn obeys_eq_spec() -> bool {
        true
    }

    open spec fn eq_spec(&self, other: &DecodeError) -> bool {
        self.title@ == other.title@ && self.detail@ == other.detail@
    }
}

pub open spec fn filename_key() -> Seq<char> {
    seq!['f', 'i', 'l', 'e', 'n', 'a', 'm', 'e']
}

pub open spec fn line_key() -> Seq<char> {
    seq!['l', 'i', 'n', 'e']
}

pub open spec fn title_prefix() -> Seq<char> {
    "cannot parse command received from client: "@
}

pub open spec fn detail_prefix() -> Seq<char> {
    "Error message from JSON parser: "@
}

pub open spec fn client_hint() -> Seq<char> {
    "\nThis is a problem with your Tertestrial client."@
}

/// The title of the error for `line`.
pub open spec fn error_title(line: Seq<char>) -> Seq<char> {
    title_prefix() + line
}

/// The detail of an error whose parser diagnostic is `diagnostic`.
pub open spec fn error_detail(diagnostic: Seq<char>) -> Seq<char> {
    detail_prefix() + diagnostic + client_hint()
}

/// The hint under `key` in an object's members: absent, a string, or the
/// diagnostic for a member that is not a string.
pub open spec fn member_text(members: Map<Seq<char>, serde_json::Value>, key: Seq<char>) -> Result<
    Option<Seq<char>>,
    Seq<char>,
> {
    if !members.contains_key(key) {
        Ok(None)
    } else {
        match shape_of(members[key]) {
            JsonShape::Text(s) => Ok(Some(s)),
            _ => Err(not_a_string_message(members[key])),
        }
    }
}

/// The trigger that an object's members describe, or the diagnostic of the
/// first recognized member that is not a string. Other members are ignored.
pub open spec fn trigger_of_members(members: Map<Seq<char>, serde_json::Value>) -> Result<
    TriggerView,
    Seq<char>,
> {
    match member_text(members, filename_key()) {
        Err(d) => Err(d),
        Ok(filename) => match member_text(members, line_key()) {
            Err(d) => Err(d),
            Ok(line) => Ok(TriggerView { filename, line }),
        },
    }
}

/// What a line decodes to: a trigger, or the diagnostic that explains why
/// it is none.
pub open spec fn decoded(line: Seq<char>) -> Result<TriggerView, Seq<char>> {
    match object_from_text(line) {
        Err(d) => Err(d),
        Ok(members) => trigger_of_members(members),
    }
}

/// Holds when `members` hold `hint` under `key`: no member when there is no
/// hint, and a JSON string with the hint's text when there is one.
pub open spec fn holds_hint(
    members: Map<Seq<char>, serde_json::Value>,
    key: Seq<char>,
    hint: Option<Seq<char>>,
) -> bool {
    match hint {
        None => !members.contains_key(key),
        Some(s) => members.contains_key(key) && shape_of(members[key]) == JsonShape::Text(s),
    }
}

/// Holds when `members` are those of the JSON encoding of `t`: only the
/// recognized keys, each with its hint as a string.
pub open spec fn encodes(members: Map<Seq<char>, serde_json::Value>, t: TriggerView) -> bool {
    &&& forall|k: Seq<char>| #[trigger]
        members.contains_key(k) ==> k == filename_key() || k == line_key()
    &&& holds_hint(members, filename_key(), t.filename)
    &&& holds_hint(members, line_key(), t.line)
}

/// Decoding is lossless: a line that holds the JSON encoding of a trigger
/// decodes to that same trigger.
pub proof fn lemma_decode_lossless(text: Seq<char>, t: TriggerView)
    requires
        object_from_text(text) is Ok,
        encodes(object_from_text(text)->Ok_0, t),
    ensures
        decoded(text) == Ok::<TriggerView, Seq<char>>(t),
{
}

/// A recognized hint given as a JSON number, or as any other value that is
/// not a string, makes the line fail to decode: it is never coerced.
pub proof fn lemma_non_string_hint_rejected(text: Seq<char>, key: Seq<char>)
    requires
        object_from_text(text) is Ok,
        key == filename_key() || key == line_key(),
        object_from_text(text)->Ok_0.contains_key(key),
        !(shape_of(object_from_text(text)->Ok_0[key]) is Text),
    ensures
        decoded(text) is Err,
{
}

/// Builds the error reported for `line`, given the parser's diagnostic.
pub fn decode_error(line: &str, diagnostic: &str) -> (r: DecodeError)
    ensures
        r.title@ == error_title(line@),
        r.detail@ == error_detail(diagnostic@),
{
    let mut title = String::from_str("cannot parse command received from client: ");
    title.append(line);
    let mut detail = String::from_str("Error message from JSON parser: ");
    detail.append(diagnostic);
    detail.append("\nThis is a problem with your Tertestrial client.");
    DecodeError::new(title, detail)
}

/// Reads the hint behind `pointer`, the `/` that introduces a member's key
/// followed by that key.
fn read_member(object: &serde_json::Value, pointer: &str) -> (r: Result<Option<String>, String>)
    requires
        shape_of(*object) is Object,
        pointer@.len() >= 1,
        pointer@[0] == '/',
        !pointer@.drop_first().contains('/'),
        !pointer@.drop_first().contains('~'),
    ensures
        match r {
            Ok(o) => member_text(shape_of(*object)->Object_0, pointer@.drop_first()) == Ok::<
                Option<Seq<char>>,
                Seq<char>,
            >(opt_view(o)),
            Err(d) => member_text(shape_of(*object)->Object_0, pointer@.drop_first()) == Err::<
                Option<Seq<char>>,
                Seq<char>,
            >(d@),
        },
{
    assert(pointer@ == seq!['/'] + pointer@.drop_first());
    match object.pointer(pointer) {
        None => Ok(None),
        Some(member) => match string_of(member) {
            Ok(s) => Ok(Some(s)),
            Err(d) => Err(d),
        },
    }
}

/// Builds the trigger that a parsed JSON object describes, or returns the
/// diagnostic for a recognized member that is not a string.
pub fn trigger_from_object(object: &serde_json::Value) -> (r: Result<Trigger, String>)
    requires
        shape_of(*object) is Object,
    ensures
        match trigger_of_members(shape_of(*object)->Object_0) {
            Ok(t) => r is Ok && r->Ok_0@ == t,
            Err(d) => r is Err && r->Err_0@ == d,
        },
{
    proof {
        reveal_strlit("/filename");
        reveal_strlit("/line");
        assert("/filename"@.drop_first() =~= filename_key());
        assert("/line"@.drop_first() =~= line_key());
    }
    let filename = match read_member(object, "/filename") {
        Ok(o) => o,
        Err(d) => return Err(d),
    };
    let line = match read_member(object, "/line") {
        Ok(o) => o,
        Err(d) => return Err(d),
    };
    Ok(Trigger { filename, line })
}

/// Decodes one line of client input into a trigger, or into an error that
/// quotes the line and carries the parser's diagnostic.
pub fn from_line(line: &String) -> (r: Result<Trigger, DecodeError>)
    ensures
        match decoded(line@) {
            Ok(t) => r is Ok && r->Ok_0@ == t,
            Err(d) => r is Err && r->Err_0.title@ == error_title(line@) && r->Err_0.detail@
                == error_detail(d),
        },
{
    let parsed = match parse_object(line.as_str()) {
        Ok(object) => trigger_from_object(&object),
        Err(d) => Err(d),
    };
    match parsed {
        Ok(t) => Ok(t),
        Err(d) => Err(decode_error(line.as_str(), d.as_str())),
    }
}

} // verus!
