use pulsecloak_node::discriminator::UnmaskedChunk;
use pulsecloak_node::masquerader::XYZPROTECT_PulseCloakuerader;
use pulsecloak_node::null_masquerader::NullXYZPROTECT_PulseCloakuerader;

#[test]
fn try_unmask_returns_input_data_with_specified_clandestine_flag() {
    let data = "booga".as_bytes();
    let subject = NullXYZPROTECT_PulseCloakuerader::new();

    let result = subject.try_unmask(data).unwrap();

    assert_eq!(result, UnmaskedChunk::new(Vec::from(data), true, true));
}

#[test]
fn try_unmask_marks_chunk_as_needing_sequencing() {
    let data = "booga".as_bytes();
    let subject = NullXYZPROTECT_PulseCloakuerader::new();

    let result = subject.try_unmask(data).unwrap();

    assert!(result.sequenced);
}

#[test]
fn mask_returns_input_data() {
    let data = "booga".as_bytes();
    let subject = NullXYZPROTECT_PulseCloakuerader::new();

    let result = subject.mask(data).unwrap();

    assert_eq!(result, Vec::from(data));
}

#[test]
fn null_round_trip_gives_the_payload_back_with_both_flags_set() {
    let subject = NullXYZPROTECT_PulseCloakuerader::new();

    let wire = subject.mask(b"booga").unwrap();
    let chunk = subject.try_unmask(&wire).unwrap();

    assert_eq!(wire, b"booga".to_vec());
    assert_eq!(chunk, UnmaskedChunk::new(b"booga".to_vec(), true, true));
}

#[test]
fn null_masquerader_passes_empty_and_binary_payloads_through() {
    let subject = NullXYZPROTECT_PulseCloakuerader::new();

    assert_eq!(subject.mask(&[]).unwrap(), Vec::<u8>::new());
    assert_eq!(
        subject.try_unmask(&[]).unwrap(),
        UnmaskedChunk::new(vec![], true, true)
    );
    let binary: Vec<u8> = vec![0x00, 0xFF, 0x7B, 0xC0];
    let wire = subject.mask(&binary).unwrap();
    assert_eq!(wire, binary);
    assert_eq!(subject.try_unmask(&wire).unwrap().chunk, binary);
}
