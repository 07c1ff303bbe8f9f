//! JSON-RPC error codes: the protocol range, the application range, and a
//! short description of each code the plugin host uses.

use vstd::prelude::*;

verus! {

/// Invalid JSON was received.
pub const PARSE_ERROR: i32 = -32700;

/// The JSON sent is not a valid request object.
pub const INVALID_REQUEST: i32 = -32600;

/// The method does not exist or is not available.
pub const METHOD_NOT_FOUND: i32 = -32601;

/// Invalid method parameters.
pub const INVALID_PARAMS: i32 = -32602;

/// Internal JSON-RPC error.
pub const INTERNAL_ERROR: i32 = -32603;

/// The requested plugin is not loaded.
pub const PLUGIN_NOT_FOUND: i32 = -32000;

/// The plugin exists but is not ready.
pub const PLUGIN_NOT_READY: i32 = -32001;

/// The plugin could not be loaded.
pub const PLUGIN_LOAD_FAILED: i32 = -32002;

/// The plugin was loaded but its initialisation failed.
pub const PLUGIN_INITIALIZE_FAILED: i32 = -32003;

/// The plugin's shutdown failed.
pub const PLUGIN_SHUTDOWN_FAILED: i32 = -32004;

/// The plugin is already loaded.
pub const PLUGIN_ALREADY_LOADED: i32 = -32005;

/// The plugin does not implement the expected contract.
pub const CONTRACT_MISMATCH: i32 = -32010;

/// The named contract type does not exist.
pub const CONTRACT_NOT_FOUND: i32 = -32011;

/// The plugin manifest does not conform to its schema.
pub const MANIFEST_INVALID: i32 = -32012;

/// The plugin folder holds no manifest.
pub const MANIFEST_MISSING: i32 = -32013;

/// The swap failed and the plugin that was in place was restored.
pub const HOTSWAP_FAILED: i32 = -32020;

/// The swap and the rollback both failed.
pub const HOTSWAP_ROLLBACK_FAILED: i32 = -32021;

/// The plugin discovery scan failed.
pub const DISCOVERY_FAILED: i32 = -32030;

/// The plugin health check did not respond.
pub const HEALTH_CHECK_TIMEOUT: i32 = -32040;

/// System resources are exhausted.
pub const RESOURCE_EXHAUSTED: i32 = -32050;

/// A required package is not installed.
pub const DEPENDENCY_MISSING: i32 = -32051;

/// A required model file is not available.
pub const MODEL_NOT_FOUND: i32 = -32052;

/// The code lies in the range that JSON-RPC reserves for the protocol.
pub open spec fn standard_error(code: i32) -> bool {
    -32700 <= code <= -32600
}

/// The code lies in the range left to the application.
pub open spec fn server_error(code: i32) -> bool {
    -32099 <= code <= -32000
}

/// A failure with this code may go away on a later attempt.
pub open spec fn recoverable(code: i32) -> bool {
    code == PLUGIN_NOT_READY || code == HEALTH_CHECK_TIMEOUT || code == RESOURCE_EXHAUSTED
}

/// The short description of an error code; `Unknown error` for a code that
/// the plugin host does not use.
pub open spec fn description_text(code: i32) -> Seq<char> {
    if code == PARSE_ERROR {
        "Parse error"@
    } else if code == INVALID_REQUEST {
        "Invalid Request"@
    } else if code == METHOD_NOT_FOUND {
        "Method not found"@
    } else if code == INVALID_PARAMS {
        "Invalid params"@
    } else if code == INTERNAL_ERROR {
        "Internal error"@
    } else if code == PLUGIN_NOT_FOUND {
        "Plugin not found"@
    } else if code == PLUGIN_NOT_READY {
        "Plugin not ready"@
    } else if code == PLUGIN_LOAD_FAILED {
        "Plugin load failed"@
    } else if code == PLUGIN_INITIALIZE_FAILED {
        "Plugin initialization failed"@
    } else if code == PLUGIN_SHUTDOWN_FAILED {
        "Plugin shutdown failed"@
    } else if code == PLUGIN_ALREADY_LOADED {
        "Plugin already loaded"@
    } else if code == CONTRACT_MISMATCH {
        "Contract mismatch"@
    } else if code == CONTRACT_NOT_FOUND {
        "Contract not found"@
    } else if code == MANIFEST_INVALID {
        "Invalid manifest"@
    } else if code == MANIFEST_MISSING {
        "Manifest missing"@
    } else if code == HOTSWAP_FAILED {
        "Hot-swap failed"@
    } else if code == HOTSWAP_ROLLBACK_FAILED {
        "Hot-swap rollback failed"@
    } else if code == DISCOVERY_FAILED {
        "Discovery failed"@
    } else if code == HEALTH_CHECK_TIMEOUT {
        "Health check timeout"@
    } else if code == RESOURCE_EXHAUSTED {
        "Resource exhausted"@
    } else if code == DEPENDENCY_MISSING {
        "Dependency missing"@
    } else if code == MODEL_NOT_FOUND {
        "Model not found"@
    } else {
        "Unknown error"@
    }
}

/// Whether the code is a protocol-level JSON-RPC error.
pub fn is_standard_error(code: i32) -> (r: bool)
    ensures
        r == standard_error(code),
{
    -32700 <= code && code <= -32600
}

/// Whether the code is an application-defined error.
pub fn is_server_error(code: i32) -> (r: bool)
    ensures
        r == server_error(code),
{
    -32099 <= code && code <= -32000
}

/// Whether the code is flagged as recoverable.
pub fn is_recoverable(code: i32) -> (r: bool)
    ensures
        r == recoverable(code),
{
    code == PLUGIN_NOT_READY || code == HEALTH_CHECK_TIMEOUT || code == RESOURCE_EXHAUSTED
}

/// The short description of an error code.
pub fn description(code: i32) -> (s: &'static str)
    ensures
        s@ == description_text(code),
{
    if code == PARSE_ERROR {
        "Parse error"
    } else if code == INVALID_REQUEST {
        "Invalid Request"
    } else if code == METHOD_NOT_FOUND {
        "Method not found"
    } else if code == INVALID_PARAMS {
        "Invalid params"
    } else if code == INTERNAL_ERROR {
        "Internal error"
    } else if code == PLUGIN_NOT_FOUND {
        "Plugin not found"
    } else if code == PLUGIN_NOT_READY {
        "Plugin not ready"
    } else if code == PLUGIN_LOAD_FAILED {
        "Plugin load failed"
    } else if code == PLUGIN_INITIALIZE_FAILED {
        "Plugin initialization failed"
    } else if code == PLUGIN_SHUTDOWN_FAILED {
        "Plugin shutdown failed"
    } else if code == PLUGIN_ALREADY_LOADED {
        "Plugin already loaded"
    } else if code == CONTRACT_MISMATCH {
        "Contract mismatch"
    } else if code == CONTRACT_NOT_FOUND {
        "Contract not found"
    } else if code == MANIFEST_INVALID {
        "Invalid manifest"
    } else if code == MANIFEST_MISSING {
        "Manifest missing"
    } else if code == HOTSWAP_FAILED {
        "Hot-swap failed"
    } else if code == HOTSWAP_ROLLBACK_FAILED {
        "Hot-swap rollback failed"
    } else if code == DISCOVERY_FAILED {
        "Discovery failed"
    } else if code == HEALTH_CHECK_TIMEOUT {
        "Health check timeout"
    } else if code == RESOURCE_EXHAUSTED {
        "Resource exhausted"
    } else if code == DEPENDENCY_MISSING {
        "Dependency missing"
    } else if code == MODEL_NOT_FOUND {
        "Model not found"
    } else {
        "Unknown error"
    }
}

} // verus!
