use tool_supervisor::pattern::{command_matches, join_tokens, line_contains, OsFamily};
use tool_supervisor::terminator::ToolKillService;

fn tokens(items: &[&str]) -> Vec<String> {
    items.iter().map(|s| s.to_string()).collect()
}

#[test]
fn pattern_on_unix_family() {
    assert_eq!(ToolKillService::build_cmd_pattern("alpha", OsFamily::Unix), "/alpha/agent");
}

#[test]
fn pattern_on_windows_family() {
    assert_eq!(ToolKillService::build_cmd_pattern("alpha", OsFamily::Windows), "\\alpha\\agent");
}

#[test]
fn pattern_is_lowercased() {
    assert_eq!(ToolKillService::build_cmd_pattern("AlphaTool", OsFamily::Unix), "/alphatool/agent");
}

#[test]
fn pattern_is_deterministic() {
    let a = ToolKillService::build_cmd_pattern("beta", OsFamily::Unix);
    let b = ToolKillService::build_cmd_pattern("beta", OsFamily::Unix);
    assert_eq!(a, b);
}

#[test]
fn matching_ignores_case() {
    assert!(command_matches(&tokens(&["/Alpha/Agent", "--flag"]), "/alpha/agent"));
}

#[test]
fn matching_is_by_substring() {
    assert!(command_matches(
        &tokens(&["/usr/bin/tail", "-f", "/var/log/alpha/agent.log"]),
        "/alpha/agent"
    ));
}

#[test]
fn matching_spans_joined_tokens() {
    assert!(command_matches(&tokens(&["/opt/x", "alpha/agent"]), "x alpha"));
}

#[test]
fn other_tool_does_not_match() {
    assert!(!command_matches(&tokens(&["/opt/beta/agent"]), "/alpha/agent"));
    assert!(!command_matches(&tokens(&[]), "/alpha/agent"));
}

#[test]
fn join_uses_single_spaces() {
    assert_eq!(join_tokens(&tokens(&["a", "bc", "d"])), "a bc d");
    assert_eq!(join_tokens(&tokens(&["only"])), "only");
    assert_eq!(join_tokens(&tokens(&[])), "");
}

#[test]
fn substring_search_edges() {
    assert!(line_contains("abc", ""));
    assert!(line_contains("", ""));
    assert!(!line_contains("ab", "abc"));
    assert!(line_contains("xxabc", "abc"));
    assert!(line_contains("abcxx", "abc"));
    assert!(!line_contains("abxc", "abc"));
    assert!(line_contains("aab", "ab"));
}
