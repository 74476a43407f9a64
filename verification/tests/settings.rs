use weather_agent::settings;

#[test]
fn environment_variable_names() {
    assert_eq!(settings::maps_api_key_var(), "MAPS_API_KEY");
    assert_eq!(settings::project_id_var(), "PROJECT_ID");
}

#[test]
fn tool_provider_wiring() {
    assert_eq!(settings::api_key_header_name(), "X-Goog-Api-Key");
    assert_eq!(settings::tool_provider_uri(), "https://mapstools.googleapis.com/mcp");
}

#[test]
fn agent_wiring() {
    assert_eq!(settings::model_name(), "gemini-2.5-flash");
    assert!(settings::agent_preamble().starts_with("Use the weather tool"));
}

#[test]
fn server_wiring() {
    assert_eq!(settings::chat_route(), "/chat");
    assert_eq!(settings::bind_address(), "0.0.0.0:8080");
}
