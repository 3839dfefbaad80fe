use crate::base64_text::{base64_decoding, base64_encoding, decode, encode};
use crate::discriminator::{UnmaskedChunk, UnmaskedChunkView};
use crate::json::{
    error_class, error_text, json_optional_text, json_raw_members, json_rendering, members_view,
    object_of, parse_members, parse_optional_text, raw_member, raw_member_from, reads_as, render,
    single_text, JsonErrorClass, JsonFaultView, JsonMemberView, RawMemberView,
};
use crate::logger::{log_line, Logger};
use crate::masquerader::{
    mask_outcome, unmask_outcome, PulseCloakueradeError, PulseCloakueradeErrorView,
    XYZPROTECT_PulseCloakuerader,
};
use crate::text::optional_text;
use vstd::prelude::*;
use vstd::slice::slice_to_vec;
use vstd::string::*;
use vstd::utf8::{
    decode_utf8, decode_utf8_encode_utf8, encode_utf8, encode_utf8_decode_utf8,
    encode_utf8_valid_utf8, valid_utf8,
};

verus! {

/// The two payload members that an envelope may carry, as they were found.
#[derive(Debug)]
pub struct JsonUnmaskStructure {
    pub body_text: Option<String>,
    pub body_data: Option<String>,
}

/// The mathematical value of a [`JsonUnmaskStructure`].
pub struct JsonUnmaskStructureView {
    pub body_text: Option<Seq<char>>,
    pub body_data: Option<Seq<char>>,
}

impl View for JsonUnmaskStructure {
    type V = JsonUnmaskStructureView;

    open spec fn view(&self) -> JsonUnmaskStructureView {
        JsonUnmaskStructureView {
            body_text: optional_text(self.body_text),
            body_data: optional_text(self.body_data),
        }
    }
}

/// The mathematical value of a text or the error in its place.
pub open spec fn text_outcome(result: Result<String, PulseCloakueradeError>) -> Result<
    Seq<char>,
    PulseCloakueradeErrorView,
> {
    match result {
        Ok(text) => Ok(text@),
        Err(e) => Err(e@),
    }
}

/// The mathematical value of the payload members or the error in their place.
pub open spec fn structure_outcome(
    result: Result<JsonUnmaskStructure, PulseCloakueradeError>,
) -> Result<JsonUnmaskStructureView, PulseCloakueradeErrorView> {
    match result {
        Ok(structure) => Ok(structure@),
        Err(e) => Err(e@),
    }
}

/// The text that octets encode, or the error for octets that encode none.
pub open spec fn text_of_data(data: Seq<u8>) -> Result<Seq<char>, PulseCloakueradeErrorView> {
    if valid_utf8(data) {
        Ok(decode_utf8(data))
    } else {
        Err(PulseCloakueradeErrorView::LowLevel("Data is not a UTF-8 string"@))
    }
}

/// The error that stands for a parsing failure of the given class.
pub open spec fn parse_failure_of(class: JsonErrorClass, detail: Seq<char>) -> PulseCloakueradeErrorView {
    PulseCloakueradeErrorView::MidLevel(
        match class {
            JsonErrorClass::Syntax => "Data is not JSON"@,
            JsonErrorClass::Data => "JSON does not match schema"@,
            JsonErrorClass::Eof => "JSON was truncated"@,
            JsonErrorClass::Io => "Unexpected JSON parsing error: "@ + detail,
        },
    )
}

/// The error that reports a given parsing failure.
pub open spec fn failure_of(fault: JsonFaultView) -> PulseCloakueradeErrorView {
    parse_failure_of(fault.class, fault.text)
}

/// The mathematical value of an optional text or the error in its place.
pub open spec fn optional_text_outcome(result: Result<Option<String>, PulseCloakueradeError>) -> Result<
    Option<Seq<char>>,
    PulseCloakueradeErrorView,
> {
    match result {
        Ok(text) => Ok(optional_text(text)),
        Err(e) => Err(e@),
    }
}

/// The optional string that stands under a member name: none where no member
/// bears the name or where its value is `null`, the string where its value is
/// one, and the parser's failure for a value of another kind.
pub open spec fn member_text_of(members: Seq<RawMemberView>, name: Seq<char>) -> Result<
    Option<Seq<char>>,
    PulseCloakueradeErrorView,
> {
    match raw_member(members, name) {
        None => Ok(None),
        Some(raw) => match json_optional_text(raw) {
            Ok(text) => Ok(text),
            Err(fault) => Err(failure_of(fault)),
        },
    }
}

/// The payload members among the members of an object. Members of other
/// names are not looked at.
pub open spec fn structure_of_members(members: Seq<RawMemberView>) -> Result<
    JsonUnmaskStructureView,
    PulseCloakueradeErrorView,
> {
    match member_text_of(members, "bodyText"@) {
        Err(e) => Err(e),
        Ok(body_text) => match member_text_of(members, "bodyData"@) {
            Err(e) => Err(e),
            Ok(body_data) => Ok(JsonUnmaskStructureView { body_text, body_data }),
        },
    }
}

/// The payload members that a text holds when read as one JSON object.
pub open spec fn structure_of_text(text: Seq<char>) -> Result<
    JsonUnmaskStructureView,
    PulseCloakueradeErrorView,
> {
    match json_raw_members(text) {
        Ok(members) => structure_of_members(members),
        Err(fault) => Err(failure_of(fault)),
    }
}

/// The error for a `bodyData` that is no base64.
pub open spec fn undecodable(raw: Seq<char>) -> PulseCloakueradeErrorView {
    PulseCloakueradeErrorView::HighLevel("Can't decode Base64: '"@ + raw + "'"@)
}

/// The payload that the members carry: exactly one of them must be there.
pub open spec fn payload_of(structure: JsonUnmaskStructureView) -> Result<
    Seq<u8>,
    PulseCloakueradeErrorView,
> {
    match (structure.body_text, structure.body_data) {
        (Some(text), None) => Ok(encode_utf8(text)),
        (None, Some(raw)) => match base64_decoding(raw) {
            Some(data) => Ok(data),
            None => Err(undecodable(raw)),
        },
        (Some(_), Some(_)) => Err(
            PulseCloakueradeErrorView::HighLevel(
                "Found both bodyText and bodyData; can't choose"@,
            ),
        ),
        (None, None) => Err(
            PulseCloakueradeErrorView::HighLevel("Found neither bodyText nor bodyData; need one"@),
        ),
    }
}

/// What unmasking makes of a frame: the text it encodes, read as JSON, gives
/// the payload members, and they give the payload.
pub open spec fn json_unmasked(data: Seq<u8>) -> Result<
    UnmaskedChunkView,
    PulseCloakueradeErrorView,
> {
    match text_of_data(data) {
        Err(e) => Err(e),
        Ok(text) => match structure_of_text(text) {
            Err(e) => Err(e),
            Ok(structure) => match payload_of(structure) {
                Err(e) => Err(e),
                Ok(payload) => Ok(
                    UnmaskedChunkView { chunk: payload, last_chunk: true, sequenced: false },
                ),
            },
        },
    }
}

/// The one member of the envelope that carries a payload: `bodyText` with the
/// text itself for valid UTF-8, `bodyData` with the base64 text otherwise.
pub open spec fn envelope_of(data: Seq<u8>) -> Map<Seq<char>, JsonMemberView> {
    if valid_utf8(data) {
        single_text("bodyText"@, decode_utf8(data))
    } else {
        single_text("bodyData"@, base64_encoding(data))
    }
}

/// The wire form of a payload: its envelope as JSON text, in UTF-8.
pub open spec fn json_masked(data: Seq<u8>) -> Seq<u8> {
    encode_utf8(json_rendering(envelope_of(data)))
}

/// This masquerader never declines a frame: whatever it cannot unmask it
/// reports as an error of one of the three levels.
pub proof fn lemma_json_never_declines(data: Seq<u8>)
    ensures
        json_unmasked(data) matches Err(e) ==> !e.is_refusal(),
{
}

/// Members of other names are ignored: two objects with the same payload
/// members give the same, whatever else they hold.
pub proof fn lemma_other_members_are_ignored(first: Seq<RawMemberView>, second: Seq<RawMemberView>)
    requires
        raw_member(first, "bodyText"@) == raw_member(second, "bodyText"@),
        raw_member(first, "bodyData"@) == raw_member(second, "bodyData"@),
    ensures
        structure_of_members(first) == structure_of_members(second),
{
}

/// Whether a frame is read as the given members, and the text of one of
/// their values as the given string.
pub open spec fn frame_reads_as(
    data: Seq<u8>,
    members: Seq<RawMemberView>,
    raw: Seq<char>,
    text: Seq<char>,
) -> bool {
    &&& valid_utf8(data)
    &&& json_raw_members(decode_utf8(data)) == Ok::<Seq<RawMemberView>, JsonFaultView>(members)
    &&& json_optional_text(raw) == Ok::<Option<Seq<char>>, JsonFaultView>(Some(text))
}

/// The chunk that the JSON masquerader makes of a payload.
pub open spec fn json_chunk(payload: Seq<u8>) -> Result<
    UnmaskedChunkView,
    PulseCloakueradeErrorView,
> {
    Ok(UnmaskedChunkView { chunk: payload, last_chunk: true, sequenced: false })
}

/// A frame that is one object with a string under `bodyText` and nothing
/// under `bodyData` is unmasked to that string's octets, whatever its other
/// members hold.
pub proof fn lemma_body_text_alone_is_the_payload(
    data: Seq<u8>,
    members: Seq<RawMemberView>,
    raw: Seq<char>,
    text: Seq<char>,
)
    requires
        raw_member(members, "bodyText"@) == Some(raw),
        raw_member(members, "bodyData"@) is None,
    ensures
        frame_reads_as(data, members, raw, text) ==> json_unmasked(data) == json_chunk(
            encode_utf8(text),
        ),
{
}

/// A frame that is one object with a string under `bodyData` and nothing
/// under `bodyText` is unmasked to what that string stands for in base64,
/// whatever its other members hold.
pub proof fn lemma_body_data_alone_is_the_payload(
    data: Seq<u8>,
    members: Seq<RawMemberView>,
    raw: Seq<char>,
    text: Seq<char>,
    octets: Seq<u8>,
)
    requires
        raw_member(members, "bodyData"@) == Some(raw),
        raw_member(members, "bodyText"@) is None,
    ensures
        (frame_reads_as(data, members, raw, text) && base64_decoding(text) == Some(octets))
            ==> json_unmasked(data) == json_chunk(octets),
{
}

/// The two member names differ, so an envelope with one does not hold the other.
pub proof fn member_names_differ()
    ensures
        "bodyText"@ != "bodyData"@,
{
    reveal_strlit("bodyText");
    reveal_strlit("bodyData");
    assert("bodyData"@[4] == 'D');
}

/// The masquerader that wraps a payload in a JSON object: as text under
/// `bodyText` when the payload is valid UTF-8, as base64 under `bodyData`
/// when it is not.
///
/// It never declines a frame: whatever is not its envelope is reported as an
/// error, so every other format's frames draw a warning when this masquerader
/// stands before theirs.
///
/// On the way in it reads the frame as one JSON object and looks at the two
/// payload members only: what stands under other names is passed over
/// unread. Of members that share a name the last one counts.
///
/// It writes no log itself: `unmask_and_report` hands out the line by which a
/// failure is reported, for whoever owns the sink.
#[derive(Debug)]
pub struct JsonXYZPROTECT_PulseCloakuerader {
    pub logger: Logger,
}

impl XYZPROTECT_PulseCloakuerader for JsonXYZPROTECT_PulseCloakuerader {
    open spec fn unmasked(&self, item: Seq<u8>) -> Result<
        UnmaskedChunkView,
        PulseCloakueradeErrorView,
    > {
        json_unmasked(item)
    }

    open spec fn masked(&self, data: Seq<u8>) -> Result<Seq<u8>, PulseCloakueradeErrorView> {
        Ok(json_masked(data))
    }

    fn try_unmask(&self, item: &[u8]) -> (result: Result<UnmaskedChunk, PulseCloakueradeError>)
        ensures
            result matches Err(e) ==> !e@.is_refusal(),
    {
        self.unmask(item)
    }

    fn mask(&self, data: &[u8]) -> (result: Result<Vec<u8>, PulseCloakueradeError>)
        ensures
            result matches Ok(wire) && valid_utf8(wire@) && reads_as(
                json_raw_members(decode_utf8(wire@)),
                envelope_of(data@),
            ),
    {
        let json_string = match String::from_utf8(slice_to_vec(data)) {
            Ok(string) => Self::make_text_structure(string),
            Err(_) => Self::make_binary_structure(data),
        };
        let wire = json_string.as_str().as_bytes_vec();
        proof {
            let text = json_string@;
            encode_utf8_valid_utf8(text);
            encode_utf8_decode_utf8(text);
            member_names_differ();
            let found = json_raw_members(text)->Ok_0;
            assert(raw_member(found, "bodyText"@) is Some <==> valid_utf8(data@));
            assert(raw_member(found, "bodyData"@) is Some <==> !valid_utf8(data@));
            if valid_utf8(data@) {
                decode_utf8_encode_utf8(data@);
            }
        }
        Ok(wire)
    }
}

impl Default for JsonXYZPROTECT_PulseCloakuerader {
    /// The same as `new`.
    fn default() -> (result: Self)
        ensures
            result.logger.name@ == "JsonMasquerader"@,
    {
        Self::new()
    }
}

impl JsonXYZPROTECT_PulseCloakuerader {
    /// A JSON masquerader that reports under the name `JsonMasquerader`.
    pub fn new() -> (result: JsonXYZPROTECT_PulseCloakuerader)
        ensures
            result.logger.name@ == "JsonMasquerader"@,
    {
        JsonXYZPROTECT_PulseCloakuerader { logger: Logger::new("JsonMasquerader") }
    }

    /// The line by which this masquerader reports an error.
    pub fn error_line(&self, error: &PulseCloakueradeError) -> (result: String)
        ensures
            result@ == log_line("ERROR"@, self.logger.name@, error@.rendering()),
    {
        let message = error.to_string();
        self.logger.error_line(message.as_str())
    }

    /// Recovers the payload from one frame, and composes the line that
    /// reports the failure where there is one.
    pub fn unmask_and_report(&self, data: &[u8]) -> (result: (
        Result<UnmaskedChunk, PulseCloakueradeError>,
        Option<String>,
    ))
        ensures
            unmask_outcome(result.0) == json_unmasked(data@),
            match result.0 {
                Ok(_) => result.1 is None,
                Err(e) => optional_text(result.1) == Some(
                    log_line("ERROR"@, self.logger.name@, e@.rendering()),
                ),
            },
    {
        match self.unmask(data) {
            Ok(chunk) => (Ok(chunk), None),
            Err(err) => {
                let line = self.error_line(&err);
                (Err(err), Some(line))
            },
        }
    }

    /// Recovers the payload from one frame.
    pub fn unmask(&self, data: &[u8]) -> (result: Result<UnmaskedChunk, PulseCloakueradeError>)
        ensures
            unmask_outcome(result) == json_unmasked(data@),
    {
        let json_string = match Self::string_from_data(data) {
            Ok(s) => s,
            Err(e) => {
                return Err(e);
            },
        };
        let structure = match Self::structure_from_string(json_string) {
            Ok(s) => s,
            Err(e) => {
                return Err(e);
            },
        };
        let data_vector = match Self::data_vector_from_structure(&structure) {
            Ok(v) => v,
            Err(e) => {
                return Err(e);
            },
        };
        Ok(UnmaskedChunk::new(data_vector, true, false))
    }

    /// The envelope that carries `string` as text.
    pub fn make_text_structure(string: String) -> (result: String)
        ensures
            result@ == json_rendering(single_text("bodyText"@, string@)),
            reads_as(json_raw_members(result@), single_text("bodyText"@, string@)),
    {
        let structure = object_of("bodyText", string.as_str());
        render(&structure)
    }

    /// The envelope that carries `data` as base64.
    pub fn make_binary_structure(data: &[u8]) -> (result: String)
        ensures
            result@ == json_rendering(single_text("bodyData"@, base64_encoding(data@))),
            reads_as(
                json_raw_members(result@),
                single_text("bodyData"@, base64_encoding(data@)),
            ),
            base64_decoding(base64_encoding(data@)) == Some(data@),
    {
        let base64 = encode(data);
        let structure = object_of("bodyData", base64.as_str());
        render(&structure)
    }

    /// Reads the frame as UTF-8 text.
    pub fn string_from_data(data: &[u8]) -> (result: Result<String, PulseCloakueradeError>)
        ensures
            text_outcome(result) == text_of_data(data@),
    {
        match String::from_utf8(slice_to_vec(data)) {
            Ok(json_string) => Ok(json_string),
            Err(_) => Err(
                PulseCloakueradeError::LowLevelDataError(
                    String::from_str("Data is not a UTF-8 string"),
                ),
            ),
        }
    }

    /// The error that reports a parsing failure of the given class; `detail`
    /// is the parser's own message, quoted only for a class that has no
    /// message of its own.
    pub fn parse_failure(class: JsonErrorClass, detail: &str) -> (result: PulseCloakueradeError)
        ensures
            result@ == parse_failure_of(class, detail@),
    {
        PulseCloakueradeError::MidLevelDataError(
            match class {
                JsonErrorClass::Syntax => String::from_str("Data is not JSON"),
                JsonErrorClass::Data => String::from_str("JSON does not match schema"),
                JsonErrorClass::Eof => String::from_str("JSON was truncated"),
                JsonErrorClass::Io => String::from_str("Unexpected JSON parsing error: ").concat(
                    detail,
                ),
            },
        )
    }

    /// The error that reports a failure of the parser.
    fn failure(error: &serde_json::Error) -> (result: PulseCloakueradeError)
        ensures
            result@ == failure_of(crate::json::fault_view(*error)),
    {
        let detail = error_text(error);
        Self::parse_failure(error_class(error), detail.as_str())
    }

    /// The text of the value that stands under `name`, if a member bears it.
    pub fn raw_member_of<'a>(members: &'a Vec<(String, String)>, name: &str) -> (result: Option<
        &'a String,
    >)
        ensures
            match result {
                Some(raw) => raw_member(members_view(members@), name@) == Some(raw@),
                None => raw_member(members_view(members@), name@) is None,
            },
    {
        let wanted = String::from_str(name);
        let mut i: usize = 0;
        while i < members.len()
            invariant
                i <= members@.len(),
                wanted@ == name@,
                raw_member(members_view(members@), name@) == raw_member_from(
                    members_view(members@),
                    name@,
                    i as int,
                ),
            decreases members@.len() - i,
        {
            if members[i].0 == wanted {
                return Some(&members[i].1);
            }
            i = i + 1;
        }
        None
    }

    /// The optional string that stands under a member name.
    pub fn member_text(members: &Vec<(String, String)>, name: &str) -> (result: Result<
        Option<String>,
        PulseCloakueradeError,
    >)
        ensures
            optional_text_outcome(result) == member_text_of(members_view(members@), name@),
    {
        match Self::raw_member_of(members, name) {
            None => Ok(None),
            Some(raw) => match parse_optional_text(raw.as_str()) {
                Ok(text) => Ok(text),
                Err(e) => Err(Self::failure(&e)),
            },
        }
    }

    /// Picks the payload members out of the members of an object: `bodyText`
    /// first, then `bodyData`. Members of other names are not looked at.
    pub fn structure_from_members(members: &Vec<(String, String)>) -> (result: Result<
        JsonUnmaskStructure,
        PulseCloakueradeError,
    >)
        ensures
            structure_outcome(result) == structure_of_members(members_view(members@)),
    {
        let body_text = match Self::member_text(members, "bodyText") {
            Ok(text) => text,
            Err(e) => {
                return Err(e);
            },
        };
        let body_data = match Self::member_text(members, "bodyData") {
            Ok(text) => text,
            Err(e) => {
                return Err(e);
            },
        };
        Ok(JsonUnmaskStructure { body_text, body_data })
    }

    /// Reads the text as one JSON object and picks out the payload members.
    pub fn structure_from_string(json_string: String) -> (result: Result<
        JsonUnmaskStructure,
        PulseCloakueradeError,
    >)
        ensures
            structure_outcome(result) == structure_of_text(json_string@),
    {
        match parse_members(json_string.as_str()) {
            Ok(members) => Self::structure_from_members(&members),
            Err(e) => Err(Self::failure(&e)),
        }
    }

    /// The error that reports a `bodyData` that is no base64.
    pub fn undecodable_base64(raw: &str) -> (result: PulseCloakueradeError)
        ensures
            result@ == undecodable(raw@),
    {
        PulseCloakueradeError::HighLevelDataError(
            String::from_str("Can't decode Base64: '").concat(raw).concat("'"),
        )
    }

    /// The payload that the members carry.
    pub fn data_vector_from_structure(structure: &JsonUnmaskStructure) -> (result: Result<
        Vec<u8>,
        PulseCloakueradeError,
    >)
        ensures
            mask_outcome(result) == payload_of(structure@),
    {
        match (&structure.body_text, &structure.body_data) {
            (Some(text), None) => Ok(text.as_str().as_bytes_vec()),
            (None, Some(data)) => match decode(data.as_str()) {
                Ok(vec) => Ok(vec),
                Err(_) => Err(Self::undecodable_base64(data.as_str())),
            },
            (Some(_), Some(_)) => Err(
                PulseCloakueradeError::HighLevelDataError(
                    String::from_str("Found both bodyText and bodyData; can't choose"),
                ),
            ),
            (None, None) => Err(
                PulseCloakueradeError::HighLevelDataError(
                    String::from_str("Found neither bodyText nor bodyData; need one"),
                ),
            ),
        }
    }
}

} // verus!
