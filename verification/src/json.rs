use vstd::prelude::*;

verus! {

/// A JSON document in memory, `serde_json::Value`. Nothing of it is visible
/// here: it is made and rendered through the functions of this file.
#[verifier::external_type_specification]
#[verifier::external_body]
pub struct ExJsonValue(serde_json::Value);

/// A parsing failure, `serde_json::Error`, as opaque as the document.
#[verifier::external_type_specification]
#[verifier::external_body]
pub struct ExJsonError(serde_json::Error);

/// What is read of one member of a JSON document in memory.
pub enum JsonMemberView {
    Null,
    Text(Seq<char>),
    Other,
}

/// The cause of a JSON parsing failure, as the parser classifies it.
#[derive(Debug, Clone, Copy, PartialEq, Eq, Structural)]
pub enum JsonErrorClass {
    Io,
    Syntax,
    Data,
    Eof,
}

/// What is read of a parsing failure.
pub struct JsonFaultView {
    pub class: JsonErrorClass,
    pub text: Seq<char>,
}

/// One member of an object as it stands in the text: its name, with the
/// escapes resolved, and the text of its value, untouched.
pub struct RawMemberView {
    pub name: Seq<char>,
    pub raw: Seq<char>,
}

/// The class of a parsing failure.
pub uninterp spec fn json_error_class(error: serde_json::Error) -> JsonErrorClass;

/// The message of a parsing failure.
pub uninterp spec fn json_error_text(error: serde_json::Error) -> Seq<char>;

/// What is read of a given failure.
pub open spec fn fault_view(error: serde_json::Error) -> JsonFaultView {
    JsonFaultView { class: json_error_class(error), text: json_error_text(error) }
}

/// What the parser makes of a text that is read as one object whose members
/// are not looked into: the members, sorted by name, each name once (of
/// members that share a name the last one stands), or the failure.
pub uninterp spec fn json_raw_members(text: Seq<char>) -> Result<Seq<RawMemberView>, JsonFaultView>;

/// What the parser makes of a text that is read as a string or `null`.
pub uninterp spec fn json_optional_text(raw: Seq<char>) -> Result<Option<Seq<char>>, JsonFaultView>;

/// The mathematical value of a list of members.
pub open spec fn members_view(members: Seq<(String, String)>) -> Seq<RawMemberView> {
    members.map_values(|member: (String, String)| RawMemberView { name: member.0@, raw: member.1@ })
}

/// What is read of the result of parsing an object.
pub open spec fn members_outcome(result: Result<Vec<(String, String)>, serde_json::Error>) -> Result<
    Seq<RawMemberView>,
    JsonFaultView,
> {
    match result {
        Ok(members) => Ok(members_view(members@)),
        Err(error) => Err(fault_view(error)),
    }
}

/// What is read of the result of parsing a string or `null`.
pub open spec fn optional_outcome(result: Result<Option<String>, serde_json::Error>) -> Result<
    Option<Seq<char>>,
    JsonFaultView,
> {
    match result {
        Ok(Some(text)) => Ok(Some(text@)),
        Ok(None) => Ok(None),
        Err(error) => Err(fault_view(error)),
    }
}

/// The text of the value that stands under `name`, from position `from` on.
pub open spec fn raw_member_from(members: Seq<RawMemberView>, name: Seq<char>, from: int) -> Option<
    Seq<char>,
>
    decreases members.len() - from,
{
    if from < 0 || from >= members.len() {
        None
    } else if members[from].name == name {
        Some(members[from].raw)
    } else {
        raw_member_from(members, name, from + 1)
    }
}

/// The text of the value that stands under `name`, if a member bears it.
pub open spec fn raw_member(members: Seq<RawMemberView>, name: Seq<char>) -> Option<Seq<char>> {
    raw_member_from(members, name, 0)
}

/// Calls `serde_json::from_str` for a map from `String` to
/// `Box<serde_json::value::RawValue>`, and hands the map out as a list of
/// names and value texts. The parser checks the object's own syntax and each
/// name, and passes over each value without looking into it. The contract
/// claims that the outcome is a function of the text alone.
#[verifier::external_body]
pub(crate) fn parse_members(text: &str) -> (result: Result<Vec<(String, String)>, serde_json::Error>)
    ensures
        members_outcome(result) == json_raw_members(text@),
{
    match serde_json::from_str::<
        std::collections::BTreeMap<String, Box<serde_json::value::RawValue>>,
    >(text) {
        Ok(members) => Ok(
            members.into_iter().map(|(name, raw)| (name, raw.get().to_owned())).collect(),
        ),
        Err(error) => Err(error),
    }
}

/// Calls `serde_json::from_str` for an `Option<String>`: `null` gives none,
/// a JSON string gives its text with the escapes resolved, anything else is
/// a failure. The contract claims that the outcome is a function of the text
/// alone.
#[verifier::external_body]
pub(crate) fn parse_optional_text(raw: &str) -> (result: Result<Option<String>, serde_json::Error>)
    ensures
        optional_outcome(result) == json_optional_text(raw@),
{
    serde_json::from_str::<Option<String>>(raw)
}

/// Calls `serde_json::Error::classify` and tells its four categories apart.
/// The contract gives the category its name.
#[verifier::external_body]
pub(crate) fn error_class(error: &serde_json::Error) -> (result: JsonErrorClass)
    ensures
        result == json_error_class(*error),
{
    match error.classify() {
        serde_json::error::Category::Io => JsonErrorClass::Io,
        serde_json::error::Category::Syntax => JsonErrorClass::Syntax,
        serde_json::error::Category::Data => JsonErrorClass::Data,
        serde_json::error::Category::Eof => JsonErrorClass::Eof,
    }
}

/// Renders a `serde_json::Error` through its `Display`. The contract gives
/// the message its name.
#[verifier::external_body]
pub(crate) fn error_text(error: &serde_json::Error) -> (result: String)
    ensures
        result@ == json_error_text(*error),
{
    format!("{}", error)
}

/// Whether a JSON document in memory is an object.
pub uninterp spec fn json_is_object(doc: serde_json::Value) -> bool;

/// The members of a JSON document in memory that is an object, by name;
/// empty for any other document.
pub uninterp spec fn json_members(doc: serde_json::Value) -> Map<Seq<char>, JsonMemberView>;

/// Whether every member of an object is a JSON string.
pub open spec fn all_text(members: Map<Seq<char>, JsonMemberView>) -> bool {
    forall|key: Seq<char>| members.dom().contains(key) ==> #[trigger] members[key] is Text
}

/// The members of an object that holds one string under one name.
pub open spec fn single_text(key: Seq<char>, text: Seq<char>) -> Map<Seq<char>, JsonMemberView> {
    Map::<Seq<char>, JsonMemberView>::empty().insert(key, JsonMemberView::Text(text))
}

/// The compact JSON text of an object whose members are all strings.
pub uninterp spec fn json_rendering(members: Map<Seq<char>, JsonMemberView>) -> Seq<char>;

/// Whether the members read from a text are those of an object of strings:
/// a member stands in the text under each name of the object and under no
/// other, and the text of its value reads as the object's string.
pub open spec fn reads_as(
    outcome: Result<Seq<RawMemberView>, JsonFaultView>,
    members: Map<Seq<char>, JsonMemberView>,
) -> bool {
    outcome matches Ok(found) && forall|name: Seq<char>|
        match #[trigger] raw_member(found, name) {
            Some(raw) => members.dom().contains(name) && json_optional_text(raw) == Ok::<
                Option<Seq<char>>,
                JsonFaultView,
            >(Some(members[name]->Text_0)),
            None => !members.dom().contains(name),
        }
}

/// Calls `serde_json::Value::from_iter` on one pair of a name and a string.
/// The contract claims that the result is an object with that one member.
#[verifier::external_body]
pub(crate) fn object_of(key: &str, text: &str) -> (result: serde_json::Value)
    ensures
        json_is_object(result),
        json_members(result) == single_text(key@, text@),
{
    serde_json::Value::from_iter([(key, text)])
}

/// Calls `serde_json::to_string` on an object whose members are all strings.
/// Writing such a value into memory has no way to fail, so the `Result` is
/// unwrapped here. The contract claims that the text is a function of the
/// members alone (they are kept sorted by name), and that the parser reads
/// the same members back from the text.
#[verifier::external_body]
pub(crate) fn render(doc: &serde_json::Value) -> (result: String)
    requires
        json_is_object(*doc),
        all_text(json_members(*doc)),
    ensures
        result@ == json_rendering(json_members(*doc)),
        reads_as(json_raw_members(result@), json_members(*doc)),
{
    serde_json::to_string(doc).expect("Could not make json string")
}

} // verus!
