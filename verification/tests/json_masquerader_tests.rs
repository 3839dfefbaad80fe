use pulsecloak_node::discriminator::UnmaskedChunk;
use pulsecloak_node::json::JsonErrorClass;
use pulsecloak_node::json_masquerader::{JsonUnmaskStructure, JsonXYZPROTECT_PulseCloakuerader};
use pulsecloak_node::masquerader::{PulseCloakueradeError, XYZPROTECT_PulseCloakuerader};

fn verify_error(data: &[u8], msg_suffix: &str) {
    let subject = JsonXYZPROTECT_PulseCloakuerader::new();

    let result = subject.try_unmask(data);

    assert!(result.is_err(), "{:?}", result);
    let line = subject.error_line(&result.unwrap_err());
    assert!(line.contains(msg_suffix), "{}", line);
}

#[test]
#[allow(non_snake_case)]
fn json_XYZPROTECT_XYZPROTECT_pulsecloakuerader_can_mask_and_unmask_bodytext() {
    let subject = JsonXYZPROTECT_PulseCloakuerader::new();
    let data = subject
        .mask(String::from("Fourscore and seven years ago").as_bytes())
        .unwrap();

    let unmasked_chunk = subject.try_unmask(&data[..]).unwrap();

    assert_eq!(
        String::from_utf8(unmasked_chunk.chunk).unwrap(),
        "Fourscore and seven years ago"
    );
}

#[test]
#[allow(non_snake_case)]
fn json_XYZPROTECT_XYZPROTECT_pulsecloakuerader_can_unmask_annoying_bodytext() {
    let subject = JsonXYZPROTECT_PulseCloakuerader::new();
    let data = "{\"component\": \"NBHD\", \"bodyText\": \"\\\\}\\\"{'\"}".as_ref();

    let result = subject.try_unmask(data);

    assert_eq!(
        result,
        Ok(UnmaskedChunk::new(
            Vec::from("\\}\"{'".as_bytes()),
            true,
            false
        ))
    )
}

#[test]
#[allow(non_snake_case)]
fn json_XYZPROTECT_XYZPROTECT_pulsecloakuerader_can_mask_and_unmask_bodydata() {
    let subject = JsonXYZPROTECT_PulseCloakuerader::new();
    let data = subject.mask(&[0x7B, 0xC0, 0x7D, 0xC1]).unwrap();

    let unmasked_chunk = subject.try_unmask(&data[..]).unwrap();

    assert_eq!(unmasked_chunk.chunk, vec!(0x7B, 0xC0, 0x7D, 0xC1));
}

#[test]
#[allow(non_snake_case)]
fn json_XYZPROTECT_XYZPROTECT_pulsecloakuerader_can_mask_utf8_text() {
    let text = "Fourscore and seven years ago";
    let data = text.as_bytes();
    let subject = JsonXYZPROTECT_PulseCloakuerader::new();

    let result = subject.mask(data).unwrap();

    let actual_json = &String::from_utf8(result).unwrap()[..];
    let actual_structure: serde_json::Value = serde_json::from_str(actual_json).unwrap();
    assert_eq!(
        actual_structure["bodyText"],
        serde_json::Value::String(String::from("Fourscore and seven years ago"))
    );
    assert_eq!(actual_structure.as_object().unwrap().len(), 1);
}

#[test]
#[allow(non_snake_case)]
fn json_XYZPROTECT_XYZPROTECT_pulsecloakuerader_can_mask_non_utf8_binary_data() {
    let data: &[u8] = &[0x7B, 0xC0, 0x7D, 0xC1];
    let subject = JsonXYZPROTECT_PulseCloakuerader::new();

    let result = subject.mask(data).unwrap();

    let actual_json = &String::from_utf8(result).unwrap()[..];
    let actual_structure: serde_json::Value = serde_json::from_str(actual_json).unwrap();
    assert_eq!(
        actual_structure["bodyData"],
        serde_json::Value::String(String::from("e8B9wQ=="))
    );
    assert_eq!(actual_structure.as_object().unwrap().len(), 1);
}

#[test]
#[allow(non_snake_case)]
fn json_XYZPROTECT_XYZPROTECT_pulsecloakuerader_handles_json_that_terminates_prematurely() {
    let subject = JsonXYZPROTECT_PulseCloakuerader::new();

    let result = subject
        .unmask("{\"component\": \"NBHD\", ".as_ref())
        .err()
        .unwrap();

    assert_eq!(
        result,
        PulseCloakueradeError::MidLevelDataError(String::from("JSON was truncated"))
    );
}

#[test]
#[allow(non_snake_case)]
fn json_XYZPROTECT_XYZPROTECT_pulsecloakuerader_handles_non_utf8_json() {
    verify_error(
        &[0x7B, 0xC0, 0x7D, 0xC1],
        "JsonMasquerader: Low-level data error: Data is not a UTF-8 string",
    );
}

#[test]
#[allow(non_snake_case)]
fn json_XYZPROTECT_XYZPROTECT_pulsecloakuerader_rejects_data_that_looks_like_json_but_isnt() {
    verify_error(
        "{ goobly ][ whop }".as_ref(),
        "JsonMasquerader: Mid-level data error: Data is not JSON",
    );
}

#[test]
#[allow(non_snake_case)]
fn json_XYZPROTECT_XYZPROTECT_pulsecloakuerader_handles_bad_base64() {
    verify_error(
        "{\"bodyData\": \"()[]\"}".as_ref(),
        "JsonMasquerader: High-level data error: Can't decode Base64: '()[]'",
    );
}

#[test]
#[allow(non_snake_case)]
fn json_XYZPROTECT_XYZPROTECT_pulsecloakuerader_handles_both_body_text_and_body_data() {
    verify_error(
        "{\"bodyData\": \"QUJDRA==\", \"bodyText\": \"blah\"}".as_ref(),
        "JsonMasquerader: High-level data error: Found both bodyText and bodyData; can't choose",
    );
}

#[test]
#[allow(non_snake_case)]
fn json_XYZPROTECT_XYZPROTECT_pulsecloakuerader_handles_neither_body_text_nor_body_data() {
    verify_error(
        "{}".as_ref(),
        "Found neither bodyText nor bodyData; need one",
    );
}

#[test]
fn text_payload_is_masked_as_the_exact_body_text_envelope() {
    let subject = JsonXYZPROTECT_PulseCloakuerader::new();

    let wire = subject.mask(b"Fourscore and seven years ago").unwrap();

    assert_eq!(
        String::from_utf8(wire).unwrap(),
        "{\"bodyText\":\"Fourscore and seven years ago\"}"
    );
}

#[test]
fn binary_payload_is_masked_as_the_exact_body_data_envelope() {
    let subject = JsonXYZPROTECT_PulseCloakuerader::new();

    let wire = subject.mask(&[0x7B, 0xC0, 0x7D, 0xC1]).unwrap();

    assert_eq!(String::from_utf8(wire).unwrap(), "{\"bodyData\":\"e8B9wQ==\"}");
}

#[test]
fn text_with_quotes_backslashes_and_controls_is_escaped_and_comes_back() {
    let subject = JsonXYZPROTECT_PulseCloakuerader::new();
    let payload = "\\}\"{'\n\t\u{1}é€".as_bytes();

    let wire = subject.mask(payload).unwrap();

    assert_eq!(
        String::from_utf8(wire.clone()).unwrap(),
        "{\"bodyText\":\"\\\\}\\\"{'\\n\\t\\u0001é€\"}"
    );
    assert_eq!(
        subject.try_unmask(&wire),
        Ok(UnmaskedChunk::new(payload.to_vec(), true, false))
    );
}

#[test]
fn empty_payload_is_text_and_comes_back_empty() {
    let subject = JsonXYZPROTECT_PulseCloakuerader::new();

    let wire = subject.mask(&[]).unwrap();

    assert_eq!(String::from_utf8(wire.clone()).unwrap(), "{\"bodyText\":\"\"}");
    assert_eq!(
        subject.try_unmask(&wire),
        Ok(UnmaskedChunk::new(vec![], true, false))
    );
}

#[test]
fn every_single_octet_survives_the_round_trip() {
    let subject = JsonXYZPROTECT_PulseCloakuerader::new();
    let mut octet: u8 = 0;
    loop {
        let payload = vec![octet, 0x41, octet];
        let wire = subject.mask(&payload).unwrap();
        let parsed: serde_json::Value =
            serde_json::from_str(std::str::from_utf8(&wire).unwrap()).unwrap();
        let members = parsed.as_object().unwrap();
        assert_eq!(members.len(), 1);
        assert_eq!(members.contains_key("bodyText"), octet < 0x80);
        assert_eq!(members.contains_key("bodyData"), octet >= 0x80);
        assert_eq!(subject.try_unmask(&wire).unwrap().chunk, payload);
        if octet == 255 {
            break;
        }
        octet += 1;
    }
}

#[test]
fn unmasked_json_chunks_are_last_and_unsequenced() {
    let subject = JsonXYZPROTECT_PulseCloakuerader::new();

    let chunk = subject.try_unmask(b"{\"bodyText\":\"x\"}").unwrap();

    assert!(chunk.last_chunk);
    assert!(!chunk.sequenced);
}

#[test]
fn body_data_is_decoded_from_base64() {
    let subject = JsonXYZPROTECT_PulseCloakuerader::new();

    let result = subject.try_unmask(b"{\"bodyData\":\"QUJDRA==\"}");

    assert_eq!(result, Ok(UnmaskedChunk::new(b"ABCD".to_vec(), true, false)));
}

#[test]
fn bad_base64_is_a_high_level_error_that_quotes_the_text() {
    let subject = JsonXYZPROTECT_PulseCloakuerader::new();

    assert_eq!(
        subject.try_unmask(b"{\"bodyData\":\"()[]\"}"),
        Err(PulseCloakueradeError::HighLevelDataError(String::from(
            "Can't decode Base64: '()[]'"
        )))
    );
    assert_eq!(
        JsonXYZPROTECT_PulseCloakuerader::undecodable_base64("()[]"),
        PulseCloakueradeError::HighLevelDataError(String::from("Can't decode Base64: '()[]'"))
    );
}

#[test]
fn missing_and_doubled_payload_members_are_high_level_errors() {
    let subject = JsonXYZPROTECT_PulseCloakuerader::new();

    assert_eq!(
        subject.try_unmask(b"{}"),
        Err(PulseCloakueradeError::HighLevelDataError(String::from(
            "Found neither bodyText nor bodyData; need one"
        )))
    );
    assert_eq!(
        subject.try_unmask(b"{\"bodyData\":\"QUJDRA==\",\"bodyText\":\"blah\"}"),
        Err(PulseCloakueradeError::HighLevelDataError(String::from(
            "Found both bodyText and bodyData; can't choose"
        )))
    );
}

#[test]
fn truncated_json_is_a_mid_level_error() {
    let subject = JsonXYZPROTECT_PulseCloakuerader::new();

    assert_eq!(
        subject.try_unmask(b"{\"component\":\"NBHD\", "),
        Err(PulseCloakueradeError::MidLevelDataError(String::from(
            "JSON was truncated"
        )))
    );
}

#[test]
fn malformed_json_is_a_mid_level_error() {
    let subject = JsonXYZPROTECT_PulseCloakuerader::new();

    assert_eq!(
        subject.try_unmask(b"{ goobly ][ whop }"),
        Err(PulseCloakueradeError::MidLevelDataError(String::from(
            "Data is not JSON"
        )))
    );
}

#[test]
fn non_utf8_frame_is_a_low_level_error() {
    let subject = JsonXYZPROTECT_PulseCloakuerader::new();

    assert_eq!(
        subject.try_unmask(&[0x7B, 0xC0, 0x7D, 0xC1]),
        Err(PulseCloakueradeError::LowLevelDataError(String::from(
            "Data is not a UTF-8 string"
        )))
    );
    assert_eq!(
        JsonXYZPROTECT_PulseCloakuerader::string_from_data(&[0x7B, 0xC0, 0x7D, 0xC1]),
        Err(PulseCloakueradeError::LowLevelDataError(String::from(
            "Data is not a UTF-8 string"
        )))
    );
    assert_eq!(
        JsonXYZPROTECT_PulseCloakuerader::string_from_data("héllo".as_bytes()),
        Ok(String::from("héllo"))
    );
}

#[test]
fn documents_of_the_wrong_shape_do_not_match_the_schema() {
    let subject = JsonXYZPROTECT_PulseCloakuerader::new();
    let mismatch = Err(PulseCloakueradeError::MidLevelDataError(String::from(
        "JSON does not match schema",
    )));

    assert_eq!(subject.try_unmask(b"null"), mismatch);
    assert_eq!(subject.try_unmask(b"\"bodyText\""), mismatch);
    assert_eq!(subject.try_unmask(b"17"), mismatch);
    assert_eq!(subject.try_unmask(b"[\"bodyText\",\"x\"]"), mismatch);
    assert_eq!(subject.try_unmask(b"{\"bodyText\":17}"), mismatch);
    assert_eq!(subject.try_unmask(b"{\"bodyData\":[\"QUJDRA==\"]}"), mismatch);
    assert_eq!(
        subject.try_unmask(b"{\"bodyText\":\"x\",\"bodyData\":true}"),
        mismatch
    );
}

#[test]
fn a_null_member_counts_as_absent() {
    let subject = JsonXYZPROTECT_PulseCloakuerader::new();

    assert_eq!(
        subject.try_unmask(b"{\"bodyText\":\"x\",\"bodyData\":null}"),
        Ok(UnmaskedChunk::new(b"x".to_vec(), true, false))
    );
    assert_eq!(
        subject.try_unmask(b"{\"bodyText\":null,\"bodyData\":null}"),
        Err(PulseCloakueradeError::HighLevelDataError(String::from(
            "Found neither bodyText nor bodyData; need one"
        )))
    );
}

#[test]
fn members_of_other_names_are_ignored_whatever_they_hold() {
    let subject = JsonXYZPROTECT_PulseCloakuerader::new();

    assert_eq!(
        subject.try_unmask(b"{\"component\":{\"a\":[1,2,null]},\"bodyData\":\"QUJDRA==\",\"n\":1.5}"),
        Ok(UnmaskedChunk::new(b"ABCD".to_vec(), true, false))
    );
}

#[test]
fn parse_failures_are_named_by_their_class() {
    assert_eq!(
        JsonXYZPROTECT_PulseCloakuerader::parse_failure(JsonErrorClass::Syntax, "detail"),
        PulseCloakueradeError::MidLevelDataError(String::from("Data is not JSON"))
    );
    assert_eq!(
        JsonXYZPROTECT_PulseCloakuerader::parse_failure(JsonErrorClass::Data, "detail"),
        PulseCloakueradeError::MidLevelDataError(String::from("JSON does not match schema"))
    );
    assert_eq!(
        JsonXYZPROTECT_PulseCloakuerader::parse_failure(JsonErrorClass::Eof, "detail"),
        PulseCloakueradeError::MidLevelDataError(String::from("JSON was truncated"))
    );
    assert_eq!(
        JsonXYZPROTECT_PulseCloakuerader::parse_failure(JsonErrorClass::Io, "detail"),
        PulseCloakueradeError::MidLevelDataError(String::from(
            "Unexpected JSON parsing error: detail"
        ))
    );
}

fn members_of(result: Result<JsonUnmaskStructure, PulseCloakueradeError>) -> Result<(Option<String>, Option<String>), PulseCloakueradeError> {
    result.map(|structure| (structure.body_text, structure.body_data))
}

fn raw_members(pairs: &[(&str, &str)]) -> Vec<(String, String)> {
    pairs
        .iter()
        .map(|(name, raw)| (name.to_string(), raw.to_string()))
        .collect()
}

#[test]
fn structure_from_members_reads_the_two_payload_members_only() {
    let mismatch = Err(PulseCloakueradeError::MidLevelDataError(String::from(
        "JSON does not match schema",
    )));

    assert_eq!(
        members_of(JsonXYZPROTECT_PulseCloakuerader::structure_from_members(
            &raw_members(&[("bodyText", "\"t\""), ("component", "1e999")])
        )),
        Ok((Some(String::from("t")), None))
    );
    assert_eq!(
        members_of(JsonXYZPROTECT_PulseCloakuerader::structure_from_members(
            &raw_members(&[("bodyData", "\"d\""), ("bodyText", "null")])
        )),
        Ok((None, Some(String::from("d"))))
    );
    assert_eq!(
        members_of(JsonXYZPROTECT_PulseCloakuerader::structure_from_members(
            &raw_members(&[("other", "not even json")])
        )),
        Ok((None, None))
    );
    assert_eq!(
        members_of(JsonXYZPROTECT_PulseCloakuerader::structure_from_members(
            &raw_members(&[("bodyData", "\"d\""), ("bodyText", "17")])
        )),
        mismatch
    );
    assert_eq!(
        members_of(JsonXYZPROTECT_PulseCloakuerader::structure_from_members(
            &raw_members(&[("bodyData", "[\"d\"]"), ("bodyText", "\"t\"")])
        )),
        mismatch
    );
    assert_eq!(
        members_of(JsonXYZPROTECT_PulseCloakuerader::structure_from_members(
            &raw_members(&[("bodyText", "\"\\ud800\"")])
        )),
        Err(PulseCloakueradeError::MidLevelDataError(String::from(
            "Data is not JSON"
        )))
    );
}

#[test]
fn raw_member_of_finds_a_member_by_its_name() {
    let members = raw_members(&[("a", "1"), ("bodyText", "\"x\""), ("c", "null")]);

    assert_eq!(
        JsonXYZPROTECT_PulseCloakuerader::raw_member_of(&members, "bodyText"),
        Some(&String::from("\"x\""))
    );
    assert_eq!(
        JsonXYZPROTECT_PulseCloakuerader::raw_member_of(&members, "c"),
        Some(&String::from("null"))
    );
    assert_eq!(
        JsonXYZPROTECT_PulseCloakuerader::raw_member_of(&members, "bodyData"),
        None
    );
    assert_eq!(
        JsonXYZPROTECT_PulseCloakuerader::raw_member_of(&Vec::new(), "a"),
        None
    );
}

#[test]
fn member_text_reads_a_string_or_null_and_nothing_else() {
    let members = raw_members(&[
        ("escaped", "\"a\\u0041\\n\""),
        ("nothing", "null"),
        ("number", "5"),
    ]);

    assert_eq!(
        JsonXYZPROTECT_PulseCloakuerader::member_text(&members, "escaped"),
        Ok(Some(String::from("aA\n")))
    );
    assert_eq!(
        JsonXYZPROTECT_PulseCloakuerader::member_text(&members, "nothing"),
        Ok(None)
    );
    assert_eq!(
        JsonXYZPROTECT_PulseCloakuerader::member_text(&members, "absent"),
        Ok(None)
    );
    assert_eq!(
        JsonXYZPROTECT_PulseCloakuerader::member_text(&members, "number"),
        Err(PulseCloakueradeError::MidLevelDataError(String::from(
            "JSON does not match schema"
        )))
    );
}

#[test]
fn an_extra_member_with_a_number_out_of_range_is_ignored() {
    let subject = JsonXYZPROTECT_PulseCloakuerader::new();

    assert_eq!(
        subject.try_unmask(b"{\"component\":1e999,\"bodyText\":\"hi\"}"),
        Ok(UnmaskedChunk::new(b"hi".to_vec(), true, false))
    );
}

#[test]
fn an_extra_member_with_a_lone_surrogate_is_ignored() {
    let subject = JsonXYZPROTECT_PulseCloakuerader::new();

    assert_eq!(
        subject.try_unmask(b"{\"component\":\"\\ud800\",\"bodyText\":\"hi\"}"),
        Ok(UnmaskedChunk::new(b"hi".to_vec(), true, false))
    );
}

#[test]
fn an_extra_member_nested_deeper_than_the_parser_descends_is_ignored() {
    let subject = JsonXYZPROTECT_PulseCloakuerader::new();
    let mut frame = String::from("{\"component\":");
    frame.push_str(&"[".repeat(200));
    frame.push_str(&"]".repeat(200));
    frame.push_str(",\"bodyData\":\"QUJDRA==\"}");

    assert_eq!(
        subject.try_unmask(frame.as_bytes()),
        Ok(UnmaskedChunk::new(b"ABCD".to_vec(), true, false))
    );
}

#[test]
fn the_payload_does_not_depend_on_the_other_members_or_their_order() {
    let subject = JsonXYZPROTECT_PulseCloakuerader::new();
    let bare = subject.try_unmask(b"{\"bodyText\":\"hi\"}");

    assert_eq!(bare, Ok(UnmaskedChunk::new(b"hi".to_vec(), true, false)));
    assert_eq!(
        subject.try_unmask(b" { \"z\" : [1, {\"bodyText\":\"no\"}] , \"bodyText\" : \"hi\" , \"a\" : null } "),
        bare
    );
    assert_eq!(
        subject.try_unmask(b"{\"a\":true,\"b\":-0.5e-3,\"c\":{},\"bodyText\":\"hi\",\"d\":\"\"}"),
        bare
    );
}

#[test]
fn a_payload_member_that_stands_twice_counts_with_its_last_value() {
    let subject = JsonXYZPROTECT_PulseCloakuerader::new();

    assert_eq!(
        subject.try_unmask(b"{\"bodyText\":\"a\",\"bodyText\":\"b\"}"),
        Ok(UnmaskedChunk::new(b"b".to_vec(), true, false))
    );
}

#[test]
fn a_truncated_object_is_reported_as_truncated_whatever_it_held() {
    let subject = JsonXYZPROTECT_PulseCloakuerader::new();

    assert_eq!(
        subject.try_unmask(b"{\"bodyText\":5,"),
        Err(PulseCloakueradeError::MidLevelDataError(String::from(
            "JSON was truncated"
        )))
    );
}

#[test]
fn a_failing_unmask_comes_with_its_log_line_and_a_successful_one_with_none() {
    let subject = JsonXYZPROTECT_PulseCloakuerader::new();

    assert_eq!(
        subject.unmask_and_report(b"{\"bodyText\":\"hi\"}"),
        (Ok(UnmaskedChunk::new(b"hi".to_vec(), true, false)), None)
    );
    assert_eq!(
        subject.unmask_and_report(b"{}"),
        (
            Err(PulseCloakueradeError::HighLevelDataError(String::from(
                "Found neither bodyText nor bodyData; need one"
            ))),
            Some(String::from(
                "ERROR: JsonMasquerader: High-level data error: Found neither bodyText nor bodyData; need one"
            ))
        )
    );
}

#[test]
fn structure_from_string_picks_out_the_two_members() {
    assert_eq!(
        members_of(JsonXYZPROTECT_PulseCloakuerader::structure_from_string(
            String::from("{\"bodyData\":\"QUJDRA==\",\"bodyText\":\"blah\",\"x\":1}")
        )),
        Ok((Some(String::from("blah")), Some(String::from("QUJDRA=="))))
    );
    assert_eq!(
        members_of(JsonXYZPROTECT_PulseCloakuerader::structure_from_string(
            String::from("{\"bodyText\":\"a\\u0041\"}")
        )),
        Ok((Some(String::from("aA")), None))
    );
}

#[test]
fn data_vector_from_structure_covers_the_four_cases() {
    let both = JsonUnmaskStructure {
        body_text: Some(String::from("blah")),
        body_data: Some(String::from("QUJDRA==")),
    };
    let text = JsonUnmaskStructure {
        body_text: Some(String::from("blah")),
        body_data: None,
    };
    let data = JsonUnmaskStructure {
        body_text: None,
        body_data: Some(String::from("QUJDRA==")),
    };
    let neither = JsonUnmaskStructure {
        body_text: None,
        body_data: None,
    };

    assert_eq!(
        JsonXYZPROTECT_PulseCloakuerader::data_vector_from_structure(&both),
        Err(PulseCloakueradeError::HighLevelDataError(String::from(
            "Found both bodyText and bodyData; can't choose"
        )))
    );
    assert_eq!(
        JsonXYZPROTECT_PulseCloakuerader::data_vector_from_structure(&text),
        Ok(b"blah".to_vec())
    );
    assert_eq!(
        JsonXYZPROTECT_PulseCloakuerader::data_vector_from_structure(&data),
        Ok(b"ABCD".to_vec())
    );
    assert_eq!(
        JsonXYZPROTECT_PulseCloakuerader::data_vector_from_structure(&neither),
        Err(PulseCloakueradeError::HighLevelDataError(String::from(
            "Found neither bodyText nor bodyData; need one"
        )))
    );
}

#[test]
fn envelopes_are_made_with_one_member_each() {
    assert_eq!(
        JsonXYZPROTECT_PulseCloakuerader::make_text_structure(String::from("a\"b")),
        "{\"bodyText\":\"a\\\"b\"}"
    );
    assert_eq!(
        JsonXYZPROTECT_PulseCloakuerader::make_binary_structure(b"ABCD"),
        "{\"bodyData\":\"QUJDRA==\"}"
    );
    assert_eq!(
        JsonXYZPROTECT_PulseCloakuerader::make_binary_structure(&[]),
        "{\"bodyData\":\"\"}"
    );
}

#[test]
fn the_default_masquerader_logs_under_its_name() {
    let subject = JsonXYZPROTECT_PulseCloakuerader::default();

    let line = subject.error_line(&PulseCloakueradeError::MidLevelDataError(String::from(
        "Data is not JSON",
    )));

    assert_eq!(line, "ERROR: JsonMasquerader: Mid-level data error: Data is not JSON");
}

#[test]
fn extra_members_on_the_wire_are_ignored() {
    let subject = JsonXYZPROTECT_PulseCloakuerader::new();
    let wire = "{\"component\":\"NBHD\",\"bodyText\":\"\\\\}\\\"{'\"}";
    assert_eq!(wire.len(), 41);

    let result = subject.try_unmask(wire.as_bytes());

    let payload = "\\}\"{'";
    assert_eq!(payload.len(), 5);
    assert_eq!(
        result,
        Ok(UnmaskedChunk::new(payload.as_bytes().to_vec(), true, false))
    );
}
