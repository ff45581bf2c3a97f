use core_grant::command::{
    capability_command, classify_probe, elevator_for, ownership_command, AgentProbe,
    GrantCommand,
};
use core_grant::escape::escape_spaces;
use core_grant::flow::{advance, decode_stderr, GrantError, GrantEvent, GrantStep, ProcessOutput};
use core_grant::inspect::{getcore_path, FileMeta};
use core_grant::platform::{privileged_gid, Platform};

fn meta(uid: u32, gid: u32, mode: u32) -> Option<FileMeta> {
    Some(FileMeta { uid, gid, mode })
}

fn inspected(path: &str, m: Option<FileMeta>) -> GrantEvent {
    GrantEvent::Inspected { path: path.to_string(), meta: m }
}

fn spawned(step: GrantStep) -> GrantCommand {
    match step {
        GrantStep::Spawn(c) => c,
        _ => panic!("expected a command to run"),
    }
}

fn failure(step: GrantStep) -> GrantError {
    match step {
        GrantStep::Done(Err(e)) => e,
        _ => panic!("expected a failed grant"),
    }
}

fn is_success(step: &GrantStep) -> bool {
    matches!(step, GrantStep::Done(Ok(())))
}

#[test]
fn privileged_groups() {
    assert_eq!(privileged_gid(Platform::MacOs), 80);
    assert_eq!(privileged_gid(Platform::Linux), 0);
}

#[test]
fn root_admin_setuid_setgid_is_granted() {
    assert!(getcore_path(Platform::MacOs, &meta(0, 80, 0o106755)));
    let step = advance(Platform::MacOs, inspected("/opt/app/core", meta(0, 80, 0o6755)));
    assert!(is_success(&step));
}

#[test]
fn root_group_setuid_setgid_is_granted_on_linux() {
    assert!(getcore_path(Platform::Linux, &meta(0, 0, 0o6755)));
    assert!(!getcore_path(Platform::Linux, &meta(0, 80, 0o6755)));
    assert!(!getcore_path(Platform::MacOs, &meta(0, 0, 0o6755)));
}

#[test]
fn any_missing_condition_is_not_granted() {
    for p in [Platform::MacOs, Platform::Linux] {
        let gid = privileged_gid(p);
        assert!(getcore_path(p, &meta(0, gid, 0o6755)));
        assert!(!getcore_path(p, &meta(501, gid, 0o6755)));
        assert!(!getcore_path(p, &meta(0, 20, 0o6755)));
        assert!(!getcore_path(p, &meta(0, gid, 0o2755)));
        assert!(!getcore_path(p, &meta(0, gid, 0o4755)));
        assert!(!getcore_path(p, &meta(0, gid, 0o0755)));
    }
}

#[test]
fn unreadable_metadata_is_not_granted() {
    assert!(!getcore_path(Platform::MacOs, &None));
    assert!(!getcore_path(Platform::Linux, &None));
}

#[test]
fn granted_binary_twice_spawns_nothing() {
    for _ in 0..2 {
        let step = advance(Platform::MacOs, GrantEvent::Resolved(Ok("/opt/app/core".to_string())));
        let path = match step {
            GrantStep::ReadMetadata(p) => p,
            _ => panic!("expected a metadata read"),
        };
        assert_eq!(path, "/opt/app/core");
        let step = advance(Platform::MacOs, inspected(&path, meta(0, 80, 0o6755)));
        assert!(is_success(&step));
    }
}

#[test]
fn unresolved_path_fails_before_inspection() {
    let step = advance(Platform::Linux, GrantEvent::Resolved(Err("No such file or directory".to_string())));
    match failure(step) {
        GrantError::Resolution(m) => assert_eq!(m, "No such file or directory"),
        _ => panic!("expected a resolution error"),
    }
}

#[test]
fn non_root_owner_spawns_ownership_command() {
    let m = meta(501, 20, 0o755);
    assert!(!getcore_path(Platform::MacOs, &m));
    let cmd = spawned(advance(Platform::MacOs, inspected("/opt/app/core", m)));
    assert_eq!(cmd.program, "osascript");
    assert_eq!(cmd.args.len(), 2);
    assert_eq!(cmd.args[0], "-e");
    assert_eq!(
        cmd.args[1],
        "do shell script \"chown root:admin /opt/app/core\nchmod +sx /opt/app/core\" with administrator privileges"
    );
    assert!(cmd.args[1].contains("/opt/app/core"));
}

#[test]
fn non_root_owner_on_linux_probes_then_spawns() {
    let step = advance(Platform::Linux, inspected("/usr/lib/app/core", meta(1000, 1000, 0o755)));
    let path = match step {
        GrantStep::ProbeAgent(p) => p,
        _ => panic!("expected an agent probe"),
    };
    assert_eq!(path, "/usr/lib/app/core");
    let cmd = spawned(advance(
        Platform::Linux,
        GrantEvent::Probed { path, stdout: Some(b"/usr/bin/pkexec\n".to_vec()) },
    ));
    assert_eq!(cmd.program, "pkexec");
    assert_eq!(cmd.args, vec![
        "sh".to_string(),
        "-c".to_string(),
        "setcap cap_net_bind_service,cap_net_admin,cap_dac_override=+ep /usr/lib/app/core".to_string(),
    ]);
}

#[test]
fn probe_outcomes() {
    assert_eq!(classify_probe(&None), AgentProbe::ProbeFailed);
    assert_eq!(classify_probe(&Some(Vec::new())), AgentProbe::Unavailable);
    assert_eq!(classify_probe(&Some(b"/usr/bin/pkexec\n".to_vec())), AgentProbe::Available);
    assert_eq!(elevator_for(AgentProbe::Available), "pkexec");
    assert_eq!(elevator_for(AgentProbe::Unavailable), "sudo");
    assert_eq!(elevator_for(AgentProbe::ProbeFailed), "sudo");
}

#[test]
fn failed_probe_falls_back_to_sudo() {
    let cmd = spawned(advance(
        Platform::Linux,
        GrantEvent::Probed { path: "/x/core".to_string(), stdout: None },
    ));
    assert_eq!(cmd.program, "sudo");
    let cmd = spawned(advance(
        Platform::Linux,
        GrantEvent::Probed { path: "/x/core".to_string(), stdout: Some(Vec::new()) },
    ));
    assert_eq!(cmd.program, "sudo");
}

#[test]
fn authentication_failure_is_reported() {
    let out = ProcessOutput { success: false, stderr: b"Authentication failed".to_vec() };
    let e = failure(advance(Platform::MacOs, GrantEvent::Ran(Ok(out))));
    assert!(matches!(e, GrantError::Failed(_)));
    assert!(e.message().contains("Authentication failed"));
}

#[test]
fn successful_process_ends_grant() {
    let out = ProcessOutput { success: true, stderr: b"warning".to_vec() };
    assert!(is_success(&advance(Platform::Linux, GrantEvent::Ran(Ok(out)))));
}

#[test]
fn unstartable_process_is_a_spawn_error() {
    let e = failure(advance(Platform::Linux, GrantEvent::Ran(Err("sh: not found".to_string()))));
    assert!(matches!(e, GrantError::Spawn(_)));
    assert_eq!(e.message(), "sh: not found");
}

#[test]
fn stderr_is_decoded_permissively() {
    assert_eq!(decode_stderr(&"Zugriff verweigert: ä".as_bytes().to_vec()), "Zugriff verweigert: ä");
    assert_eq!(decode_stderr(&vec![0x66, 0xff, 0x6f]), "");
    let out = ProcessOutput { success: false, stderr: vec![0xc3, 0x28] };
    let e = failure(advance(Platform::Linux, GrantEvent::Ran(Ok(out))));
    assert_eq!(e.message(), "");
}

#[test]
fn path_with_space_is_escaped_for_osascript() {
    let cmd = ownership_command("/opt/my app/core");
    assert_eq!(
        cmd.args[1],
        "do shell script \"chown root:admin /opt/my\\\\ app/core\nchmod +sx /opt/my\\\\ app/core\" with administrator privileges"
    );
    assert!(!cmd.args[1].contains("my app"));
}

#[test]
fn path_with_space_is_escaped_for_shell() {
    let cmd = capability_command("/opt/my app/core", AgentProbe::Unavailable);
    assert_eq!(cmd.program, "sudo");
    assert_eq!(
        cmd.args[2],
        "setcap cap_net_bind_service,cap_net_admin,cap_dac_override=+ep /opt/my\\ app/core"
    );
    assert!(!cmd.args[2].contains("my app"));
}

#[test]
fn escape_spaces_replaces_each_space() {
    assert_eq!(escape_spaces("", "\\ "), "");
    assert_eq!(escape_spaces("no-spaces", "\\ "), "no-spaces");
    assert_eq!(escape_spaces("  a b ", "\\ "), "\\ \\ a\\ b\\ ");
    assert_eq!(escape_spaces("é ü", "_"), "é_ü");
}
