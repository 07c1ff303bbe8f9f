use plugin_ipc::commands::compiler::CompileResult;
use plugin_ipc::commands::env_file::{parse_env_content, render_env_content, EnvVars};
use plugin_ipc::commands::secrets::{
    active_key_value, add_key, configured_services, delete_key, env_write_error, get_active_id,
    key_not_found, mask_key, parse_api_keys, set_active_key, update_key, ApiKeyInternal,
};

#[test]
fn test_mask_key_normal() {
    assert_eq!(mask_key("AIzaSyABCDEFGHIJKLMNOP"), "AIz***NOP");
}

#[test]
fn test_mask_key_short() {
    assert_eq!(mask_key("abc"), "***");
    assert_eq!(mask_key("abcdef"), "******");
}

#[test]
fn test_mask_key_7_chars() {
    assert_eq!(mask_key("abcdefg"), "abc***efg");
}

#[test]
fn mask_key_of_nothing_is_empty() {
    assert_eq!(mask_key(""), "");
}

#[test]
fn mask_key_counts_bytes_of_a_short_key() {
    assert_eq!(mask_key("\u{e9}\u{e9}"), "****");
}

#[test]
fn entry_shows_the_key_masked() {
    let key = ApiKeyInternal {
        id: "id-1".to_string(),
        service: "gemini".to_string(),
        name: "Production".to_string(),
        key: "AIzaSyABCDEFGHIJKLMNOP".to_string(),
        created_at: "2024-01-01T00:00:00Z".to_string(),
    };
    let entry = key.to_entry(true);
    assert_eq!(entry.id, "id-1");
    assert_eq!(entry.service, "gemini");
    assert_eq!(entry.name, "Production");
    assert_eq!(entry.key_masked, "AIz***NOP");
    assert!(entry.is_active);
    assert_eq!(entry.created_at, "2024-01-01T00:00:00Z");
}

#[test]
fn compile_result_of_each_outcome() {
    let ok = CompileResult::from_outcome(Ok("var x;".to_string()));
    assert!(ok.success);
    assert_eq!(ok.code.as_deref(), Some("var x;"));
    assert!(ok.error.is_none());
    let bad = CompileResult::from_outcome(Err("Parse error".to_string()));
    assert!(!bad.success);
    assert!(bad.code.is_none());
    assert_eq!(bad.error.as_deref(), Some("Parse error"));
}

#[test]
fn test_parse_env_line() {
    let content = "KEY=value\n# comment\nANOTHER=test";
    let map = parse_env_content(content);

    assert_eq!(map.get("KEY"), Some("value"));
    assert_eq!(map.get("ANOTHER"), Some("test"));
    assert_eq!(map.len(), 2);
}

#[test]
fn env_content_is_read_line_by_line() {
    let env = parse_env_content(
        "# head\n\n  A = 1 \nB=two=2\nnot a variable\r\nA=3\n   # indented comment\nEMPTY=\n=novalue\n",
    );
    assert_eq!(env.len(), 4);
    assert_eq!(env.entry(0), ("A", "3"));
    assert_eq!(env.entry(1), ("B", "two=2"));
    assert_eq!(env.entry(2), ("EMPTY", ""));
    assert_eq!(env.entry(3), ("", "novalue"));
    assert!(env.contains_key("A"));
    assert!(!env.contains_key("a"));
    assert_eq!(env.get("MISSING"), None);
    assert_eq!(parse_env_content("").len(), 0);
}

#[test]
fn variables_are_set_and_removed() {
    let mut env = EnvVars::new();
    env.insert("A", "1");
    env.insert("B", "2");
    env.insert("A", "3");
    assert_eq!(env.len(), 2);
    assert_eq!(env.get("A"), Some("3"));
    assert_eq!(env.entry(0), ("A", "3"));
    assert!(env.remove("A"));
    assert!(!env.remove("A"));
    assert_eq!(env.len(), 1);
    assert_eq!(env.entry(0), ("B", "2"));
}

#[test]
fn env_content_is_written_over_the_existing_text() {
    let existing = "# keys\nA=1\n\nB = 2\nGONE=x\njunk\nA=again\n";
    let mut env = parse_env_content(existing);
    env.insert("B", "two");
    env.remove("GONE");
    env.insert("NEW", "n");
    env.insert("LAST", "");
    assert_eq!(
        render_env_content(existing, &env),
        "# keys\nA=again\n\nB=two\nA=again\nNEW=n\nLAST=\n"
    );
    assert_eq!(render_env_content("", &EnvVars::new()), "\n");
    assert_eq!(render_env_content("", &env), "A=again\nB=two\nNEW=n\nLAST=\n");
    assert_eq!(render_env_content("# only\n", &EnvVars::new()), "# only\n");
}

fn sample() -> EnvVars {
    parse_env_content(
        "APIKEY_GEMINI_id-1=AIzaSyABCDEFGHIJKLMNOP\n\
         APIKEY_NAME_GEMINI_id-1=Production\n\
         APIKEY_CREATED_GEMINI_id-1=2024-01-01T00:00:00+00:00\n\
         ACTIVE_APIKEY_GEMINI=id-1\n\
         APIKEY_GEMINI_0123456789abcdef=secret-two\n\
         APIKEY_GEMINI_=ignored\n\
         APIKEY_OPENAI_o1=sk-123\n\
         OTHER=1\n",
    )
}

#[test]
fn keys_of_a_service_are_parsed() {
    let env = sample();
    let keys = parse_api_keys(&env, "gemini", "NOW");
    assert_eq!(keys.len(), 2);
    assert_eq!(keys[0].id, "id-1");
    assert_eq!(keys[0].service, "gemini");
    assert_eq!(keys[0].name, "Production");
    assert_eq!(keys[0].key, "AIzaSyABCDEFGHIJKLMNOP");
    assert_eq!(keys[0].created_at, "2024-01-01T00:00:00+00:00");
    assert_eq!(keys[1].id, "0123456789abcdef");
    assert_eq!(keys[1].name, "Key 01234567");
    assert_eq!(keys[1].created_at, "NOW");
    let keys = parse_api_keys(&env, "openai", "NOW");
    assert_eq!(keys.len(), 1);
    assert_eq!(keys[0].name, "Key o1");
    assert!(parse_api_keys(&env, "anthropic", "NOW").is_empty());
    assert_eq!(get_active_id(&env, "gemini").as_deref(), Some("id-1"));
    assert_eq!(get_active_id(&env, "openai"), None);
    assert_eq!(active_key_value(&env, "Gemini").as_deref(), Some("AIzaSyABCDEFGHIJKLMNOP"));
    assert_eq!(active_key_value(&env, "openai"), None);
}

#[test]
fn first_key_of_a_service_becomes_active() {
    let mut env = EnvVars::new();
    assert!(add_key(&mut env, "tts", "First", "k1", "a", "t1"));
    assert!(!add_key(&mut env, "tts", "Second", "k2", "b", "t2"));
    assert_eq!(get_active_id(&env, "tts").as_deref(), Some("a"));
    assert_eq!(env.get("APIKEY_TTS_a"), Some("k1"));
    assert_eq!(env.get("APIKEY_NAME_TTS_b"), Some("Second"));
    assert_eq!(env.get("APIKEY_CREATED_TTS_b"), Some("t2"));
    assert_eq!(env.len(), 7);
}

#[test]
fn keys_are_updated_deleted_and_activated() {
    let mut env = sample();
    let (stored, active) = update_key(&mut env, "gemini", "id-1", Some("Renamed"), None).unwrap();
    assert_eq!(stored.name, "Renamed");
    assert_eq!(stored.key, "AIzaSyABCDEFGHIJKLMNOP");
    assert!(active);
    let (stored, active) =
        update_key(&mut env, "gemini", "0123456789abcdef", None, Some("new-secret")).unwrap();
    assert_eq!(stored.name, "");
    assert_eq!(stored.key, "new-secret");
    assert_eq!(stored.created_at, "");
    assert!(!active);
    let missing = update_key(&mut env, "gemini", "nope", None, None).unwrap_err();
    assert_eq!(missing.code, "KEY_NOT_FOUND");
    assert_eq!(missing.message, "API key with ID nope not found");

    assert!(set_active_key(&mut env, "gemini", "0123456789abcdef").is_ok());
    assert_eq!(get_active_id(&env, "gemini").as_deref(), Some("0123456789abcdef"));
    assert_eq!(set_active_key(&mut env, "gemini", "nope").unwrap_err().code, "KEY_NOT_FOUND");

    assert!(delete_key(&mut env, "gemini", "0123456789abcdef").is_ok());
    assert_eq!(get_active_id(&env, "gemini").as_deref(), Some("id-1"));
    assert_eq!(env.get("APIKEY_GEMINI_0123456789abcdef"), None);
    assert!(delete_key(&mut env, "gemini", "id-1").is_ok());
    assert_eq!(get_active_id(&env, "gemini"), None);
    assert_eq!(delete_key(&mut env, "gemini", "id-1").unwrap_err().code, "KEY_NOT_FOUND");
    assert_eq!(env_write_error("disk full").code, "ENV_WRITE_ERROR");
    assert_eq!(key_not_found("x").details, None);
}

#[test]
fn services_with_keys_are_listed_once() {
    assert_eq!(configured_services(&sample()), vec!["gemini", "openai"]);
    assert!(configured_services(&parse_env_content("APIKEY_NAME_X_1=n\nAPIKEY_X=1\nA_B_C=2")).is_empty());
}
