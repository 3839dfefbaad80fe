use pulsecloak_node::masquerader::PulseCloakueradeError;

#[test]
#[allow(non_snake_case)]
fn XYZPROTECT_pulsecloakuerade_errors_are_displayable() {
    assert_eq!(
        &PulseCloakueradeError::LowLevelDataError(String::from("blah")).to_string(),
        "Low-level data error: blah"
    );
    assert_eq!(
        &PulseCloakueradeError::MidLevelDataError(String::from("blah")).to_string(),
        "Mid-level data error: blah"
    );
    assert_eq!(
        &PulseCloakueradeError::HighLevelDataError(String::from("blah")).to_string(),
        "High-level data error: blah"
    );
    assert_eq!(
        &PulseCloakueradeError::NotThisXYZPROTECT_PulseCloakuerader.to_string(),
        "Data not for this masquerader"
    );
}

#[test]
fn errors_with_an_empty_reason_render_the_bare_prefix() {
    assert_eq!(
        PulseCloakueradeError::LowLevelDataError(String::new()).to_string(),
        "Low-level data error: "
    );
    assert_eq!(
        PulseCloakueradeError::MidLevelDataError(String::new()).to_string(),
        "Mid-level data error: "
    );
    assert_eq!(
        PulseCloakueradeError::HighLevelDataError(String::new()).to_string(),
        "High-level data error: "
    );
}

#[test]
fn errors_compare_by_variant_and_reason() {
    assert_eq!(
        PulseCloakueradeError::MidLevelDataError(String::from("a")),
        PulseCloakueradeError::MidLevelDataError(String::from("a"))
    );
    assert_ne!(
        PulseCloakueradeError::MidLevelDataError(String::from("a")),
        PulseCloakueradeError::HighLevelDataError(String::from("a"))
    );
    assert_ne!(
        PulseCloakueradeError::LowLevelDataError(String::from("a")),
        PulseCloakueradeError::LowLevelDataError(String::from("b"))
    );
}
