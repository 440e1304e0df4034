use lsp_locators::command;
use lsp_locators::naite;
use lsp_locators::sonamu;

const INSTALLED: &str = "/work/node_modules/@sonamu-kit/lsp/out/server.mjs";
const FALLBACK: &str = "/work/server/server.mjs";
const NAITE_FALLBACK: &str = "node_modules/naite-lsp/out/server.js";

#[test]
fn stdio_arg_is_the_flag() {
    assert_eq!(command::stdio_arg(), "--stdio");
}

#[test]
fn join_path_inserts_one_separator() {
    assert_eq!(command::join_path("/work", "server/server.mjs"), FALLBACK);
    assert_eq!(command::join_path("", "a"), "/a");
}

#[test]
fn descriptor_runs_script_in_stdio_mode() {
    let c = command::descriptor("/usr/bin/node".to_string(), "/srv/entry.js".to_string());
    assert_eq!(c.command, "/usr/bin/node");
    assert_eq!(c.args, vec!["/srv/entry.js".to_string(), "--stdio".to_string()]);
    assert!(c.env.is_empty());
}

#[test]
fn sonamu_install_success_uses_installed_entry() {
    let r = sonamu::resolve_server_path("/work", true, false);
    assert_eq!(r, Ok(INSTALLED.to_string()));
}

#[test]
fn sonamu_install_success_ignores_fallback() {
    let r = sonamu::resolve_server_path("/work", true, true);
    assert_eq!(r, Ok(INSTALLED.to_string()));
    assert_ne!(INSTALLED, FALLBACK);
}

#[test]
fn sonamu_fallback_when_install_fails() {
    let r = sonamu::resolve_server_path("/work", false, true);
    assert_eq!(r, Ok(FALLBACK.to_string()));
}

#[test]
fn sonamu_failure_reports_fallback_path() {
    let r = sonamu::resolve_server_path("/work", false, false);
    let e = r.expect_err("both strategies failed");
    assert!(e.contains(FALLBACK));
}

#[test]
fn sonamu_paths_are_exact() {
    assert_eq!(sonamu::installed_server_path("/work"), INSTALLED);
    assert_eq!(sonamu::fallback_server_path("/work"), FALLBACK);
    assert_eq!(
        sonamu::resolve_error_message("/work"),
        format!(
            "could not find the @sonamu-kit/lsp npm package; for development, copy the server entry script to: {}",
            FALLBACK
        )
    );
}

#[test]
fn sonamu_command_on_install_success() {
    let r = sonamu::language_server_command("/work", "/usr/bin/node", true, false);
    let c = r.expect("resolution succeeded");
    assert_eq!(c.command, "/usr/bin/node");
    assert_eq!(c.args, vec![INSTALLED.to_string(), "--stdio".to_string()]);
    assert!(c.env.is_empty());
}

#[test]
fn sonamu_command_on_fallback() {
    let r = sonamu::language_server_command("/work", "/usr/bin/node", false, true);
    let c = r.expect("resolution succeeded");
    assert_eq!(c.args, vec![FALLBACK.to_string(), "--stdio".to_string()]);
}

#[test]
fn sonamu_command_passes_resolution_error_through() {
    let r = sonamu::language_server_command("/work", "/usr/bin/node", false, false);
    let e = r.expect_err("both strategies failed");
    assert_eq!(e, sonamu::resolve_error_message("/work"));
    assert!(e.contains(FALLBACK));
}

#[test]
fn sonamu_stdio_is_always_last() {
    for (npm, fb) in [(true, true), (true, false), (false, true)] {
        let c = sonamu::language_server_command("/work", "/usr/bin/node", npm, fb).unwrap();
        assert_eq!(c.args.last().map(String::as_str), Some("--stdio"));
    }
}

#[test]
fn naite_binary_names() {
    assert_eq!(naite::interpreter_binary_name(), "node");
    assert_eq!(naite::launcher_binary_name(), "naite-lsp-server");
}

#[test]
fn naite_missing_interpreter_is_the_hard_failure() {
    let e = naite::require_interpreter(None).expect_err("no interpreter");
    assert_eq!(e, "could not find a node executable on the search path");
    assert_eq!(
        naite::require_interpreter(Some("/usr/bin/node".to_string())),
        Ok("/usr/bin/node".to_string())
    );
}

#[test]
fn naite_fails_the_same_way_whatever_the_launcher_lookup_says() {
    let with_launcher =
        naite::language_server_command(None, Some("/usr/local/bin/naite-lsp-server".to_string()));
    let without_launcher = naite::language_server_command(None, None);
    assert!(with_launcher.is_err());
    assert_eq!(with_launcher, without_launcher);
}

#[test]
fn naite_launcher_found_is_used() {
    let launcher = "/usr/local/bin/naite-lsp-server";
    let c = naite::language_server_command(
        Some("/usr/bin/node".to_string()),
        Some(launcher.to_string()),
    )
    .unwrap();
    assert_eq!(c.command, "/usr/bin/node");
    assert_eq!(c.args[0], launcher);
    assert_ne!(c.args[0], NAITE_FALLBACK);
    assert!(c.env.is_empty());
}

#[test]
fn naite_launcher_missing_uses_fallback_unchecked() {
    let c = naite::language_server_command(Some("/usr/bin/node".to_string()), None).unwrap();
    assert_eq!(c.args[0], NAITE_FALLBACK);
}

#[test]
fn naite_resolve_script_branches() {
    assert_eq!(naite::resolve_script(Some("/bin/x".to_string())), "/bin/x");
    assert_eq!(naite::resolve_script(None), NAITE_FALLBACK);
}

#[test]
fn naite_stdio_is_always_last() {
    for launcher in [Some("/usr/local/bin/naite-lsp-server".to_string()), None] {
        let c = naite::language_server_command(Some("/usr/bin/node".to_string()), launcher)
            .unwrap();
        assert_eq!(c.args.last().map(String::as_str), Some("--stdio"));
    }
}
