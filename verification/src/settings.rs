use vstd::prelude::*;

verus! {

/// Name of the environment variable holding the tool-provider API key.
pub fn maps_api_key_var() -> (r: &'static str)
    ensures
        r@ == "MAPS_API_KEY"@,
{
    "MAPS_API_KEY"
}

/// Name of the environment variable holding the telemetry project identifier.
pub fn project_id_var() -> (r: &'static str)
    ensures
        r@ == "PROJECT_ID"@,
{
    "PROJECT_ID"
}

/// Name of the HTTP header that carries the tool-provider API key.
pub fn api_key_header_name() -> (r: &'static str)
    ensures
        r@ == "X-Goog-Api-Key"@,
{
    "X-Goog-Api-Key"
}

/// Address of the remote tool provider's streaming HTTP endpoint.
pub fn tool_provider_uri() -> (r: &'static str)
    ensures
        r@ == "https://mapstools.googleapis.com/mcp"@,
{
    "https://mapstools.googleapis.com/mcp"
}

/// Name of the hosted model the agent is built on.
pub fn model_name() -> (r: &'static str)
    ensures
        r@ == "gemini-2.5-flash"@,
{
    "gemini-2.5-flash"
}

/// System preamble given to the agent at construction time.
pub fn agent_preamble() -> (r: &'static str)
    ensures
        r@
            == "Use the weather tool to get a summary of current weather conditions in a city to provide the image with up to date information."@,
{
    "Use the weather tool to get a summary of current weather conditions in a city to provide the image with up to date information."
}

/// Route on which the chat endpoint is served.
pub fn chat_route() -> (r: &'static str)
    ensures
        r@ == "/chat"@,
{
    "/chat"
}

/// Address and fixed port the server listens on, all interfaces.
pub fn bind_address() -> (r: &'static str)
    ensures
        r@ == "0.0.0.0:8080"@,
{
    "0.0.0.0:8080"
}

} // verus!
