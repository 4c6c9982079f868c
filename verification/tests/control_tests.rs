use opencodex_desktop::control::{
    acl_next, broad_group, control_request, control_values_from_draws, token_from_draw, launch_plan, AclAction, AclStep, RuntimePaths,
    acl_account, acl_grant, acl_probe_shows_access, control_values, opencodex_home, random_hex,
    runtime_paths, sidecar_candidates, startup_log_path, user_home, write_startup_failure,
};
use std::path::Path;

fn is_lower_hex(text: &str) -> bool {
    text.bytes().all(|b| b.is_ascii_digit() || (b'a'..=b'f').contains(&b))
}

#[test]
fn control_values_are_independent_cryptographic_hex_strings() {
    let (path, token) = control_values("C:/control").unwrap();
    let path = Path::new(&path);
    let filename = path.file_name().unwrap().to_str().unwrap();
    let file_token = filename
        .strip_prefix("desktop-control-")
        .unwrap()
        .strip_suffix(".request")
        .unwrap();
    assert!(token.len() == 64 && token.bytes().all(|byte| byte.is_ascii_hexdigit()));
    assert!(file_token.len() == 64 && file_token.bytes().all(|byte| byte.is_ascii_hexdigit()));
    assert_ne!(file_token, token);
}

#[test]
fn random_hex_is_sixty_four_lower_case_digits() {
    let a = random_hex().unwrap();
    let b = random_hex().unwrap();
    assert_eq!(a.len(), 64);
    assert!(is_lower_hex(&a));
    assert_ne!(a, b);
}

#[test]
fn control_file_lives_in_the_config_directory() {
    let (path, _) = control_values("/home/u/.opencodex").unwrap();
    assert_eq!(Path::new(&path).parent().unwrap(), Path::new("/home/u/.opencodex"));
}

#[test]
fn startup_log_is_under_the_config_directory() {
    assert_eq!(
        Path::new(&startup_log_path("/home/u/.opencodex")),
        Path::new("/home/u/.opencodex/desktop-startup.log")
    );
    let entry = write_startup_failure("/tmp/x", "boom");
    assert_eq!(Path::new(&entry.path), Path::new("/tmp/x/desktop-startup.log"));
    assert_eq!(entry.line, "OpenCodex desktop startup failed: boom\n");
}

#[test]
fn user_home_prefers_userprofile_then_home() {
    assert_eq!(user_home(Some("C:/Users/a".into()), Some("/home/a".into())), "C:/Users/a");
    assert_eq!(user_home(None, Some("/home/a".into())), "/home/a");
    assert_eq!(user_home(Some(String::new()), Some("/home/a".into())), "");
    assert_eq!(user_home(None, None), ".");
}

#[test]
fn opencodex_home_expands_the_tilde() {
    assert_eq!(
        Path::new(&opencodex_home(None, "/home/a")),
        Path::new("/home/a/.opencodex")
    );
    assert_eq!(
        Path::new(&opencodex_home(Some(String::new()), "/home/a")),
        Path::new("/home/a/.opencodex")
    );
    assert_eq!(opencodex_home(Some("~".into()), "/home/a"), "/home/a");
    assert_eq!(
        Path::new(&opencodex_home(Some("~/ocx".into()), "/home/a")),
        Path::new("/home/a/ocx")
    );
    assert_eq!(opencodex_home(Some("/srv/ocx".into()), "/home/a"), "/srv/ocx");
}

#[test]
fn runtime_layout_needs_the_sidecar() {
    let candidates = sidecar_candidates("/res");
    assert_eq!(Path::new(&candidates[0]), Path::new("/res/binaries/bun-x86_64-pc-windows-msvc.exe"));
    assert_eq!(Path::new(&candidates[1]), Path::new("/res/bun-x86_64-pc-windows-msvc.exe"));
    let paths = runtime_paths("/res", Some(candidates[1].clone()), "/cfg".into()).unwrap();
    assert_eq!(Path::new(&paths.runtime), Path::new("/res/runtime"));
    assert_eq!(paths.bun, candidates[1]);
    assert_eq!(paths.config, "/cfg");
    match runtime_paths("/res", None, "/cfg".into()) {
        Err(message) => assert_eq!(message, "The bundled Bun sidecar is missing."),
        Ok(_) => panic!("a runtime without Bun"),
    }
}

#[test]
fn windows_acl_account_and_grant() {
    assert_eq!(acl_account(Some("ann".into()), Some("CORP".into())).unwrap(), "CORP\\ann");
    assert_eq!(acl_account(Some("ann".into()), Some(String::new())).unwrap(), "ann");
    assert_eq!(acl_account(Some("ann".into()), None).unwrap(), "ann");
    assert_eq!(
        acl_account(None, Some("CORP".into())).unwrap_err(),
        "Cannot determine current Windows user for control-file ACL hardening."
    );
    assert_eq!(acl_grant("CORP\\ann"), "CORP\\ann:(F)");
    assert!(acl_probe_shows_access(false, "", "C:\\x"));
    assert!(acl_probe_shows_access(true, "processed C:\\x", "C:\\x"));
    assert!(!acl_probe_shows_access(true, "No files", "C:\\x"));
}

#[test]
fn control_request_names_the_file_by_the_first_token_and_keeps_the_second() {
    let (path, token) = control_request("/cfg", "aa11", "bb22");
    assert_eq!(Path::new(&path), Path::new("/cfg/desktop-control-aa11.request"));
    assert_eq!(token, "bb22");
    let (path, _) = control_request("/cfg/", "x", "y");
    assert_eq!(path, "/cfg/desktop-control-x.request");
}

#[test]
fn the_owned_proxy_is_launched_with_its_control_request() {
    let paths = RuntimePaths {
        runtime: "/res/runtime".to_string(),
        bun: "/res/bun.exe".to_string(),
        config: "/cfg".to_string(),
    };
    let plan = launch_plan(&paths, "/cfg/desktop-control-aa.request", "secret");
    assert_eq!(plan.program, "/res/bun.exe");
    assert_eq!(Path::new(&plan.args[0]), Path::new("/res/runtime/src/cli/index.ts"));
    assert_eq!(plan.args[1], "start");
    assert_eq!(plan.current_dir, "/res/runtime");
    assert_eq!(plan.envs[0].0, "OCX_GUI_DIST");
    assert_eq!(Path::new(&plan.envs[0].1), Path::new("/res/runtime/gui/dist"));
    assert_eq!(plan.envs[1], ("OPENCODEX_BUN_PATH".to_string(), "/res/bun.exe".to_string()));
    assert_eq!(
        plan.envs[2],
        ("OCX_DESKTOP_CONTROL_FILE".to_string(), "/cfg/desktop-control-aa.request".to_string())
    );
    assert_eq!(plan.envs[3], ("OCX_DESKTOP_CONTROL_TOKEN".to_string(), "secret".to_string()));
    assert_eq!(plan.removed_env, "OCX_SERVICE");
}

#[test]
fn home_forms_outside_the_tilde_rules() {
    assert_eq!(opencodex_home(Some("~x".into()), "/home/a"), "~x");
    assert_eq!(opencodex_home(Some("~/".into()), "/home/a"), "/home/a");
    assert_eq!(
        Path::new(&opencodex_home(Some("~/a/b".into()), "/home/a")),
        Path::new("/home/a/a/b")
    );
}

#[test]
fn acl_runs_follow_the_windows_order() {
    assert_eq!(acl_next(AclStep::RemoveInheritance, false), AclAction::Failed);
    assert_eq!(
        acl_next(AclStep::RemoveInheritance, true),
        AclAction::Run(AclStep::RemoveBroadGroups)
    );
    assert_eq!(acl_next(AclStep::RemoveBroadGroups, true), AclAction::Run(AclStep::Grant));
    assert_eq!(
        acl_next(AclStep::RemoveBroadGroups, false),
        AclAction::Run(AclStep::ProbeGroup(0))
    );
    assert_eq!(acl_next(AclStep::ProbeGroup(0), true), AclAction::Run(AclStep::ProbeGroup(1)));
    assert_eq!(acl_next(AclStep::ProbeGroup(2), true), AclAction::Run(AclStep::Grant));
    assert_eq!(acl_next(AclStep::ProbeGroup(1), false), AclAction::Failed);
    assert_eq!(acl_next(AclStep::Grant, true), AclAction::Restricted);
    assert_eq!(acl_next(AclStep::Grant, false), AclAction::Failed);
    assert_eq!([broad_group(0), broad_group(1), broad_group(2)], ["*S-1-1-0", "*S-1-5-11", "*S-1-5-32-545"]);
}

#[test]
fn paths_join_with_one_separator() {
    let (path, _) = control_values("/cfg").unwrap();
    assert!(path.starts_with("/cfg/desktop-control-"));
    assert_eq!(startup_log_path("/cfg"), "/cfg/desktop-startup.log");
    assert_eq!(write_startup_failure("/cfg", "x").path, "/cfg/desktop-startup.log");
    assert_eq!(opencodex_home(None, "/home/a"), "/home/a/.opencodex");
    assert_eq!(opencodex_home(Some("~/ocx".into()), "/home/a"), "/home/a/ocx");
    let candidates = sidecar_candidates("/res");
    assert_eq!(candidates[0], "/res/binaries/bun-x86_64-pc-windows-msvc.exe");
    assert_eq!(candidates[1], "/res/bun-x86_64-pc-windows-msvc.exe");
    let paths = runtime_paths("/res", Some(candidates[1].clone()), "/cfg".into()).unwrap();
    assert_eq!(paths.runtime, "/res/runtime");
}

#[test]
fn a_failed_draw_is_handed_on() {
    assert_eq!(
        token_from_draw(Err("no entropy".to_string()), &vec![0u8; 32]),
        Err("no entropy".to_string())
    );
    assert_eq!(token_from_draw(Ok(()), &vec![0xab, 0x01]), Ok("ab01".to_string()));
    assert_eq!(
        control_values_from_draws("/cfg", Err("first".into()), Err("second".into())),
        Err("first".to_string())
    );
    assert_eq!(
        control_values_from_draws("/cfg", Ok("aa".into()), Err("second".into())),
        Err("second".to_string())
    );
    assert_eq!(
        control_values_from_draws("/cfg", Ok("aa".into()), Ok("bb".into())),
        Ok(("/cfg/desktop-control-aa.request".to_string(), "bb".to_string()))
    );
}

#[test]
fn nested_and_absolute_home_remainders() {
    assert_eq!(opencodex_home(Some("~/a/b".into()), "/home/a"), "/home/a/a/b");
    assert_eq!(opencodex_home(Some("~//x".into()), "/home/a"), "/x");
}
