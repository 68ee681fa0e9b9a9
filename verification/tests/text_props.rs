use photography_mind::auth::authorize;
use photography_mind::config::{db_socket_addr, Config};
use photography_mind::sync::derive_family_id;
use photography_mind::text::{
    ascii_eq_ignore_case, ci_contains_exec, family_id, family_key, format_cents, str_eq,
    trim_exec, u64_to_string,
};

#[test]
fn family_id_lowercases_and_prefixes() {
    assert_eq!(family_id("Knox"), "family:knox");
    assert_eq!(family_id("KNOX"), "family:knox");
    assert_eq!(family_key("Knox"), "knox");
}

#[test]
fn family_id_turns_spaces_into_underscores() {
    assert_eq!(family_id("Van Der Berg"), "family:van_der_berg");
}

#[test]
fn derive_family_id_takes_last_token() {
    assert_eq!(derive_family_id("Addie Knox"), "family:knox");
    assert_eq!(derive_family_id("Clements"), "family:clements");
    assert_eq!(derive_family_id("  trailing spaces  Knox  "), "family:knox");
}

#[test]
fn derive_family_id_keeps_hyphens() {
    assert_eq!(derive_family_id("Lastname-Unknown"), "family:lastname-unknown");
}

#[test]
fn derive_family_id_falls_back_to_whole_name() {
    // all whitespace: no token, the name itself is used
    assert_eq!(derive_family_id("  "), "family:__");
}

#[test]
fn str_eq_compares_characters() {
    assert!(str_eq("abc", "abc"));
    assert!(!str_eq("abc", "abd"));
    assert!(!str_eq("abc", "ab"));
}

#[test]
fn ci_contains_is_case_insensitive_substring() {
    assert!(ci_contains_exec("Winter 2024", "winter"));
    assert!(ci_contains_exec("Winter 2024", "WIN"));
    assert!(ci_contains_exec("Winter 2024", ""));
    assert!(!ci_contains_exec("Winter 2024", "summer"));
}

#[test]
fn trim_strips_outer_whitespace() {
    assert_eq!(trim_exec("  token\n"), "token");
    assert_eq!(trim_exec("token"), "token");
    assert_eq!(trim_exec(" \t "), "");
}

#[test]
fn ascii_case_insensitive_equality() {
    assert!(ascii_eq_ignore_case("FALSE", "false"));
    assert!(ascii_eq_ignore_case("FaLsE", "false"));
    assert!(!ascii_eq_ignore_case("false!", "false"));
}

#[test]
fn cents_render_with_two_decimals() {
    assert_eq!(format_cents(25000), "250.00");
    assert_eq!(format_cents(5), "0.05");
    assert_eq!(format_cents(-250), "-2.50");
    assert_eq!(format_cents(0), "0.00");
}

#[test]
fn u64_renders_in_decimal() {
    assert_eq!(u64_to_string(0), "0");
    assert_eq!(u64_to_string(90210), "90210");
}

#[test]
fn socket_addr_strips_schemes() {
    assert_eq!(db_socket_addr("ws://127.0.0.1:8000"), "127.0.0.1:8000");
    assert_eq!(db_socket_addr("wss://db.example:443"), "db.example:443");
    assert_eq!(db_socket_addr("127.0.0.1:8000"), "127.0.0.1:8000");
}

#[test]
fn config_defaults_apply() {
    let cfg = Config::assemble(None, None, None, None, None, None, None, None, None);
    assert_eq!(cfg.db_url, "ws://127.0.0.1:8000");
    assert_eq!(cfg.db_namespace, "photography");
    assert_eq!(cfg.db_name, "ops");
    assert_eq!(cfg.db_user, "root");
    assert_eq!(cfg.db_pass, "root");
    assert_eq!(cfg.http_addr, None);
    assert_eq!(cfg.bearer_token, None);
    assert!(cfg.allow_token_in_url);
}

#[test]
fn config_token_falls_back_to_trimmed_file() {
    let cfg = Config::assemble(
        None,
        None,
        None,
        None,
        None,
        None,
        None,
        Some("  SECRET-REDACTED\n".to_string()),
        None,
    );
    assert_eq!(cfg.bearer_token, Some("SECRET-REDACTED".to_string()));
}

#[test]
fn config_token_in_url_switch() {
    let on = |v: &str| {
        Config::assemble(None, None, None, None, None, None, None, None, Some(v.to_string()))
            .allow_token_in_url
    };
    assert!(!on("0"));
    assert!(!on("false"));
    assert!(!on("FALSE"));
    assert!(on("1"));
    assert!(on("yes"));
}

#[test]
fn authorize_open_paths_and_tokens() {
    let token = Some("secret".to_string());
    // healthz is always open
    assert!(authorize("/healthz", &None, &None, &token, false));
    // no configured token: open
    assert!(authorize("/mcp", &None, &None, &None, false));
    // bearer header
    assert!(authorize("/mcp", &Some("Bearer secret".to_string()), &None, &token, false));
    assert!(!authorize("/mcp", &Some("Bearer wrong".to_string()), &None, &token, false));
    // query parameter, only when allowed
    let q = Some("a=b&access_token=secret".to_string());
    assert!(authorize("/mcp", &None, &q, &token, true));
    assert!(!authorize("/mcp", &None, &q, &token, false));
    let q2 = Some("token=secret".to_string());
    assert!(authorize("/mcp", &None, &q2, &token, true));
    let q3 = Some("token=wrong".to_string());
    assert!(!authorize("/mcp", &None, &q3, &token, true));
}

#[test]
fn healthcheck_wants_the_scalar_one() {
    assert!(photography_mind::healthcheck_verdict(Some(1)));
    assert!(!photography_mind::healthcheck_verdict(Some(0)));
    assert!(!photography_mind::healthcheck_verdict(None));
}
