use bootfix::common::{
    reinstall_args, reinstall_command, CallError, Distribution, ProcessOutput, ReinstallError,
    SpawnFailure,
};

#[test]
fn loader_names() {
    assert_eq!(Distribution::Fedora.loader_name(), "Fedora");
    assert_eq!(Distribution::Unknown.loader_name(), "Linux Loader");
}

#[test]
fn distribution_string_forms() {
    assert_eq!(Distribution::Fedora.to_string(), "Fedora");
    assert_eq!(Distribution::Unknown.to_string(), "Linux");
    assert_eq!(Distribution::from_str("Fedora"), Ok(Distribution::Fedora));
    assert_eq!(Distribution::from_str("Linux"), Err(()));
    assert_eq!(Distribution::from_str("fedora"), Err(()));
}

#[test]
fn call_error_from_status() {
    assert_eq!(CallError::from_res(Ok(Some(0))), Ok(()));
    assert_eq!(CallError::from_res(Ok(Some(1))), Err(CallError::ProgramError));
    assert_eq!(CallError::from_res(Ok(None)), Err(CallError::ProgramError));
    assert_eq!(CallError::from_res(Err(SpawnFailure::NotFound)), Err(CallError::NotFound));
    assert_eq!(
        CallError::from_res(Err(SpawnFailure::PermissionDenied)),
        Err(CallError::PermissionDenied)
    );
    assert_eq!(CallError::from_res(Err(SpawnFailure::Other)), Err(CallError::OtherError));
}

#[test]
fn call_error_from_output() {
    let ok = CallError::from_output(Ok(ProcessOutput { code: Some(0), stdout: vec![104, 105] }));
    assert_eq!(ok.unwrap().stdout, vec![104, 105]);
    let failed = CallError::from_output(Ok(ProcessOutput { code: Some(2), stdout: vec![] }));
    assert_eq!(failed.unwrap_err(), CallError::ProgramError);
    let killed = CallError::from_output(Ok(ProcessOutput { code: None, stdout: vec![] }));
    assert_eq!(killed.unwrap_err(), CallError::ProgramError);
    let missing = CallError::from_output(Err(SpawnFailure::NotFound));
    assert_eq!(missing.unwrap_err(), CallError::NotFound);
}

#[test]
fn reinstall_exit_codes() {
    assert_eq!(ReinstallError::ProgramError.exit_code(), 166);
    assert_eq!(ReinstallError::NotFound.exit_code(), 167);
    assert_eq!(ReinstallError::PermissionDenied.exit_code(), 168);
    assert_eq!(ReinstallError::OtherError.exit_code(), 169);
}

#[test]
fn reinstall_error_round_trip() {
    let code = ReinstallError::PermissionDenied.exit_code();
    assert_eq!(code, 168);
    assert_eq!(ReinstallError::from_res(Some(code)), Err(ReinstallError::PermissionDenied));
    assert_eq!(ReinstallError::from_res(Some(999)), Err(ReinstallError::OtherError));
    for e in [
        ReinstallError::ProgramError,
        ReinstallError::NotFound,
        ReinstallError::PermissionDenied,
        ReinstallError::OtherError,
    ] {
        assert_eq!(ReinstallError::from_res(Some(e.exit_code())), Err(e));
    }
}

#[test]
fn reinstall_decode_edges() {
    assert_eq!(ReinstallError::from_res(Some(0)), Ok(()));
    assert_eq!(ReinstallError::from_res(None), Err(ReinstallError::OtherError));
    assert_eq!(ReinstallError::from_res(Some(165)), Err(ReinstallError::OtherError));
    assert_eq!(ReinstallError::from_res(Some(170)), Err(ReinstallError::OtherError));
    assert_eq!(ReinstallError::from_res(Some(166)), Err(ReinstallError::ProgramError));
    assert_eq!(ReinstallError::from_res(Some(167)), Err(ReinstallError::NotFound));
}

#[test]
fn call_error_converts_to_reinstall_error() {
    assert_eq!(ReinstallError::from(CallError::ProgramError), ReinstallError::ProgramError);
    assert_eq!(ReinstallError::from(CallError::NotFound), ReinstallError::NotFound);
    assert_eq!(
        ReinstallError::from(CallError::PermissionDenied),
        ReinstallError::PermissionDenied
    );
    assert_eq!(ReinstallError::from(CallError::OtherError), ReinstallError::OtherError);
}

#[test]
fn reinstall_commands() {
    assert_eq!(
        reinstall_command(&Distribution::Fedora).unwrap(),
        vec!["/usr/bin/dnf", "install", "-y", "grub2-efi", "shim"]
    );
    assert_eq!(reinstall_command(&Distribution::Unknown), Err(ReinstallError::OtherError));
    assert_eq!(
        reinstall_args("/mnt/sysimage", &Distribution::Fedora),
        vec!["/mnt/sysimage", "Fedora"]
    );
}
