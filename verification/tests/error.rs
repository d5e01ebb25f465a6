use neviraide_core::error::HostError;
use neviraide_core::error::NeviraideError;
use neviraide_core::error::NeviraideResult;

#[test]
fn an_api_failure_becomes_an_oxi_error() {
    assert_eq!(
        NeviraideError::from(HostError::Api("Other(\"boom\")".to_string())),
        NeviraideError::OxiApiError("API error: Other(\"boom\")".to_string())
    );
}

#[test]
fn a_failure_of_the_core_becomes_a_neovim_error() {
    assert_eq!(
        NeviraideError::from(HostError::Nvim("Exception(\"E121\")".to_string())),
        NeviraideError::NeovimApiError("Neovim error: Exception(\"E121\")".to_string())
    );
}

#[test]
fn a_conversion_failure_becomes_an_oxi_error() {
    assert_eq!(
        NeviraideError::from(HostError::ObjectConversion("Other(\"x\")".to_string())),
        NeviraideError::OxiApiError("Object conversion error: Other(\"x\")".to_string())
    );
}

#[test]
fn a_serialization_failure_becomes_an_oxi_error() {
    assert_eq!(
        NeviraideError::from(HostError::Serialize("s".to_string())),
        NeviraideError::OxiApiError("Serialization error: s".to_string())
    );
}

#[test]
fn a_deserialization_failure_becomes_an_oxi_error() {
    assert_eq!(
        NeviraideError::from(HostError::Deserialize("d".to_string())),
        NeviraideError::OxiApiError("Deserialization error: d".to_string())
    );
}

#[test]
fn a_failure_of_the_event_loop_becomes_an_oxi_error() {
    assert_eq!(
        NeviraideError::from(HostError::Libuv("TimerStart".to_string())),
        NeviraideError::OxiApiError("Libuv error: TimerStart".to_string())
    );
}

#[test]
fn any_other_failure_becomes_an_oxi_error() {
    assert_eq!(
        NeviraideError::from(HostError::Other("Lua(PopEmptyStack)".to_string())),
        NeviraideError::OxiApiError("Unknown OxiError: Lua(PopEmptyStack)".to_string())
    );
}

#[test]
fn an_empty_rendering_leaves_the_kind() {
    assert_eq!(
        NeviraideError::from(HostError::Api(String::new())),
        NeviraideError::OxiApiError("API error: ".to_string())
    );
}

#[test]
fn a_refused_write_becomes_an_oxi_error() {
    assert_eq!(
        NeviraideError::set_var_failed(&"Other(\"locked\")".to_string()),
        NeviraideError::OxiApiError("Failed to set var: Other(\"locked\")".to_string())
    );
}

#[test]
fn message_of_unknown() {
    assert_eq!(NeviraideError::Unknown.message(), "Unknown error occurred");
}

#[test]
fn message_of_a_neovim_error() {
    assert_eq!(
        NeviraideError::NeovimApiError("Neovim error: x".to_string()).message(),
        "Neovim API error occurred: Neovim error: x"
    );
}

#[test]
fn message_of_an_oxi_error() {
    assert_eq!(
        NeviraideError::OxiApiError("Failed to set var: x".to_string()).message(),
        "Oxi API error occurred: Failed to set var: x"
    );
}

#[test]
fn a_result_carries_the_error() {
    let result: NeviraideResult<()> = Err(NeviraideError::Unknown);
    assert_eq!(result, Err(NeviraideError::Unknown));
    let fine: NeviraideResult<u8> = Ok(1);
    assert_eq!(fine, Ok(1));
}
