use eledo::launcher::{
    frontend_exit_code, plan, resolve_with, Direction, LaunchPlan, SpawnRoute, TokenSource,
};
use eledo::privilege::{AdminMembership, IntegrityLevel, PrivilegeLevel, Token};
use eledo::Error;

#[test]
fn classification_follows_integrity_and_membership() {
    let plain = Token::new(IntegrityLevel::Medium, AdminMembership::NotMember, 5);
    assert_eq!(plain.privilege_level(), PrivilegeLevel::NotPrivileged);

    let admin = Token::new(IntegrityLevel::High, AdminMembership::Effective, 5);
    assert_eq!(admin.privilege_level(), PrivilegeLevel::HighIntegrityAdmin);

    let system = Token::new(IntegrityLevel::System, AdminMembership::Effective, 5);
    assert_eq!(system.privilege_level(), PrivilegeLevel::Elevated);

    let deny_only = Token::new(IntegrityLevel::High, AdminMembership::DenyOnly, 5);
    assert_eq!(deny_only.privilege_level(), PrivilegeLevel::NotPrivileged);
}

#[test]
fn derived_token_is_medium_and_deny_only() {
    let admin = Token::new(IntegrityLevel::High, AdminMembership::Effective, 9);
    let safer = admin.as_medium_integrity_safer_token();
    assert_eq!(safer.integrity, IntegrityLevel::Medium);
    assert_eq!(safer.admin, AdminMembership::DenyOnly);
    assert_eq!(safer.sid, 9);
    assert_eq!(safer.privilege_level(), PrivilegeLevel::NotPrivileged);
}

#[test]
fn unprivileged_elevation_takes_the_consent_path() {
    let p = plan(Direction::Elevate, PrivilegeLevel::NotPrivileged);
    assert_eq!(p.route, SpawnRoute::BridgedRunas);
    assert_eq!(p.source, None);
}

#[test]
fn already_elevated_elevation_is_direct() {
    for level in [PrivilegeLevel::HighIntegrityAdmin, PrivilegeLevel::Elevated] {
        let p = plan(Direction::Elevate, level);
        assert_eq!(p.route, SpawnRoute::Direct);
        assert_eq!(p.source, Some(TokenSource::CallerToken));
    }
}

#[test]
fn already_unprivileged_de_elevation_is_direct_and_repeatable() {
    let first = plan(Direction::DeElevate, PrivilegeLevel::NotPrivileged);
    assert_eq!(first.route, SpawnRoute::Direct);
    assert_eq!(first.source, Some(TokenSource::DeriveMedium));
    let second: LaunchPlan = plan(Direction::DeElevate, PrivilegeLevel::NotPrivileged);
    assert_eq!(first, second);
}

#[test]
fn elevated_de_elevation_transitions_into_the_shell_context() {
    let admin = plan(Direction::DeElevate, PrivilegeLevel::HighIntegrityAdmin);
    assert_eq!(admin.route, SpawnRoute::Direct);
    assert_eq!(admin.source, Some(TokenSource::DeriveMedium));

    let system = plan(Direction::DeElevate, PrivilegeLevel::Elevated);
    assert_eq!(system.route, SpawnRoute::Direct);
    assert_eq!(system.source, Some(TokenSource::ShellProcess));
}

#[test]
fn exit_code_is_the_childs_or_one() {
    assert_eq!(frontend_exit_code(Some(42)), 42);
    assert_eq!(frontend_exit_code(Some(0)), 0);
    assert_eq!(frontend_exit_code(None), 1);
}

#[test]
fn missing_command_is_a_usage_error() {
    let r = resolve_with(Vec::new(), None);
    assert!(matches!(r, Err(Error::Usage)));
}

#[test]
fn nonexistent_binary_exits_one_without_console_changes() {
    let argv = vec!["nonexistent-binary".to_string()];
    let r = resolve_with(argv, None);
    assert!(matches!(r, Err(Error::NotFoundInPath)));
    // The front-end never reaches setup, so nothing was launched and
    // the exit code is one.
    assert_eq!(frontend_exit_code(None), 1);
}

#[test]
fn found_binary_replaces_the_command_word() {
    let argv = vec!["whoami".to_string(), "/groups".to_string()];
    let out = resolve_with(argv, Some("C:\\Windows\\System32\\whoami.exe".to_string())).unwrap();
    assert_eq!(out, vec!["C:\\Windows\\System32\\whoami.exe".to_string(), "/groups".to_string()]);
}

#[test]
fn resolve_target_consults_the_search_path() {
    let out = eledo::launcher::resolve_target(vec!["sh".to_string(), "-c".to_string()]).unwrap();
    // The command word became an absolute path; the rest is untouched.
    assert_ne!(out[0], "sh");
    assert!(out[0].ends_with("sh"));
    assert_eq!(out[1], "-c");

    let miss = eledo::launcher::resolve_target(vec!["no-such-binary-anywhere-7q".to_string()]);
    assert!(matches!(miss, Err(Error::NotFoundInPath)));

    let empty = eledo::launcher::resolve_target(Vec::new());
    assert!(matches!(empty, Err(Error::Usage)));
}

#[test]
fn decimal_rendering_is_exact() {
    assert_eq!(eledo::numfmt::decimal_string(0), "0");
    assert_eq!(eledo::numfmt::decimal_string(5), "5");
    assert_eq!(eledo::numfmt::decimal_string(30), "30");
    assert_eq!(eledo::numfmt::decimal_string(120), "120");
    assert_eq!(eledo::numfmt::decimal_string(65536), "65536");
}
