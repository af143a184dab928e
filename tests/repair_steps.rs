use bootfix::chroot::{bind_mount_args, boot_device, boot_mount_args, root_mount_args};
use bootfix::common::{CallError, Distribution, ReinstallError};
use bootfix::repair::{fix_loader, FixAction, FixEvent, FixState};
use bootfix::uefi::{
    check_bootloader_present, entry_creation_args, esp_device, normalize_loader_path,
    split_device, uefi_load_path, Error,
};

#[test]
fn boot_line_with_uuid() {
    let fstab = "UUID=1111-2222 / btrfs defaults 0 0\nUUID=ab12-CD34 /boot ext4 defaults 1 2\n";
    assert_eq!(boot_device(fstab), Some("/dev/disk/by-uuid/ab12-CD34".to_string()));
}

#[test]
fn boot_line_with_device_path() {
    let fstab = "/dev/sda3 / ext4 defaults 0 0\n/dev/sda2 /boot ext4 defaults 1 2\n";
    assert_eq!(boot_device(fstab), Some("/dev/sda2".to_string()));
}

#[test]
fn no_boot_line() {
    assert_eq!(boot_device("UUID=1111 / ext4 defaults 0 0\n"), None);
    assert_eq!(boot_device(""), None);
}

#[test]
fn mount_argument_lists() {
    assert_eq!(root_mount_args("/dev/sda2", "/mnt/sysimage", &None), vec!["/dev/sda2", "/mnt/sysimage"]);
    assert_eq!(
        root_mount_args("/dev/sda2", "/mnt/sysimage", &Some("root".to_string())),
        vec!["/dev/sda2", "/mnt/sysimage", "-o", "subvol=root"]
    );
    assert_eq!(boot_mount_args("/dev/sda1", "/mnt/sysimage"), vec!["/dev/sda1", "/mnt/sysimage/boot"]);
}

#[test]
fn bind_mounts_in_order() {
    let args = bind_mount_args("/mnt/sysimage");
    assert_eq!(args.len(), 4);
    assert_eq!(args[0], vec!["--bind", "/dev", "/mnt/sysimage/dev"]);
    assert_eq!(args[1], vec!["--bind", "/proc", "/mnt/sysimage/proc"]);
    assert_eq!(args[2], vec!["--bind", "/run", "/mnt/sysimage/run"]);
    assert_eq!(args[3], vec!["--bind", "/sys", "/mnt/sysimage/sys"]);
}

#[test]
fn esp_scenario() {
    let listing = "/dev/sda1  1  2048  1050624  512M  EFI System";
    let esp = esp_device(listing).unwrap();
    assert_eq!(esp, "/dev/sda1");
    assert_eq!(split_device(&esp), Some(("/dev/sda".to_string(), "1".to_string())));
}

#[test]
fn esp_among_other_lines() {
    let listing = "Disk /dev/sda: 20 GiB\n\nDevice       Start      End  Sectors  Size Type\n/dev/sda1     2048  1230847  1228800  600M EFI System\n/dev/sda2  1230848  3327999  2097152    1G Linux filesystem\n";
    assert_eq!(esp_device(listing), Some("/dev/sda1".to_string()));
    assert_eq!(esp_device("Disk /dev/sda: 20 GiB\n"), None);
}

#[test]
fn split_edges() {
    assert_eq!(split_device(""), None);
    assert_eq!(split_device("/dev/vda2"), Some(("/dev/vda".to_string(), "2".to_string())));
}

#[test]
fn loader_paths() {
    assert_eq!(uefi_load_path(&Distribution::Fedora), Ok("/EFI/fedora/shim.efi"));
    assert_eq!(uefi_load_path(&Distribution::Unknown), Err(Error::UnsupportedDistribution));
}

#[test]
fn presence_check_normalizes_the_path() {
    let listing = "Boot0001* Fedora HD(1,GPT,abcd)/File(/EFI/FEDORA/SHIM.EFI)\n";
    assert!(check_bootloader_present("/EFI/fedora/shim.efi", listing));
    assert!(check_bootloader_present("\\EFI\\fedora\\shim.efi", listing));
    assert!(!check_bootloader_present("/EFI/debian/shim.efi", listing));
    assert!(!check_bootloader_present("/EFI/fedora/shim.efi", ""));
    let n: String = normalize_loader_path("\\efi\\Fedora\\shimx64.efi").into_iter().collect();
    assert_eq!(n, "/EFI/FEDORA/SHIMX64.EFI");
}

#[test]
fn presence_check_reads_firmware_backslashes() {
    let listing = "Boot0000* Fedora\tHD(1,GPT,abcd,0x800,0x12c000)\\EFI\\FEDORA\\SHIM.EFI\n";
    assert!(listing.contains("\\EFI\\FEDORA\\SHIM.EFI"));
    assert!(!listing.contains('/'));
    assert!(check_bootloader_present("/EFI/fedora/shim.efi", listing));
    assert!(check_bootloader_present("/efi/FEDORA/Shim.EFI", "x \\efi\\fedora\\shim.efi y"));
    assert!(!check_bootloader_present("/EFI/fedora/grubx64.efi", listing));
}

#[test]
fn repair_run_sees_backslashed_entry() {
    let state = FixState::CheckingEntries { distro: Distribution::Fedora, esp: "/dev/sda1".to_string() };
    let listing = "BootCurrent: 0000\nBoot0000* Fedora\tHD(1,GPT,abcd)\\EFI\\FEDORA\\SHIM.EFI\n".to_string();
    let (s, a) = step(state, FixEvent::BootEntries(Ok(listing)));
    assert!(matches!(s, FixState::Finished));
    assert!(matches!(a, FixAction::Done(Ok(()))));
}

#[test]
fn entry_creation_command() {
    assert_eq!(
        entry_creation_args("Fedora", "/dev/sda1", "/EFI/fedora/shim.efi").unwrap(),
        vec!["efibootmgr", "-c", "-w", "-L", "Fedora", "-d", "/dev/sda", "-p", "1", "-l", "/EFI/fedora/shim.efi"]
    );
    assert_eq!(entry_creation_args("Fedora", "", "/EFI/fedora/shim.efi"), None);
}

fn step(state: FixState, event: FixEvent) -> (FixState, FixAction) {
    fix_loader(state, event, "/mnt/sysimage")
}

#[test]
fn repair_run_adds_missing_entry() {
    let (s, a) = step(FixState::Start, FixEvent::Begin);
    assert!(matches!(a, FixAction::PrepareChroot));
    let (s, a) = step(s, FixEvent::Prepared(Ok(Distribution::Fedora)));
    assert!(matches!(a, FixAction::ListPartitions));
    let (s, a) = step(s, FixEvent::Partitions(Ok("/dev/sda1  1  2048  1050624  512M  EFI System\n".to_string())));
    match a {
        FixAction::RunReinstall(args) => assert_eq!(args, vec!["/mnt/sysimage", "Fedora"]),
        other => panic!("unexpected {:?}", other),
    }
    let (s, a) = step(s, FixEvent::Reinstalled(Ok(())));
    assert!(matches!(a, FixAction::ListBootEntries));
    let (s, a) = step(s, FixEvent::BootEntries(Ok("BootCurrent: 0000\n".to_string())));
    match a {
        FixAction::CreateEntry(args) => assert_eq!(
            args,
            vec!["efibootmgr", "-c", "-w", "-L", "Fedora", "-d", "/dev/sda", "-p", "1", "-l", "/EFI/fedora/shim.efi"]
        ),
        other => panic!("unexpected {:?}", other),
    }
    let (s, a) = step(s, FixEvent::EntryAdded(Ok(())));
    assert!(matches!(s, FixState::Finished));
    assert!(matches!(a, FixAction::Done(Ok(()))));
}

#[test]
fn repair_run_keeps_existing_entry() {
    let state = FixState::CheckingEntries { distro: Distribution::Fedora, esp: "/dev/sda1".to_string() };
    let (s, a) = step(state, FixEvent::BootEntries(Ok("Boot0000* Fedora\t\\EFI\\FEDORA\\SHIM.EFI /EFI/FEDORA/SHIM.EFI".to_string())));
    assert!(matches!(s, FixState::Finished));
    assert!(matches!(a, FixAction::Done(Ok(()))));
}

#[test]
fn repair_run_failures() {
    let (_, a) = step(FixState::Preparing, FixEvent::Prepared(Err(Error::CallError(CallError::NotFound))));
    assert!(matches!(a, FixAction::Done(Err(Error::CallError(CallError::NotFound)))));
    let (_, a) = step(FixState::LocatingEsp { distro: Distribution::Fedora }, FixEvent::Partitions(Ok(String::new())));
    assert!(matches!(a, FixAction::Done(Err(Error::EfiPartitionNotFound))));
    let esp_line = "/dev/sda1  1  2048  1050624  512M  EFI System".to_string();
    let (_, a) = step(FixState::LocatingEsp { distro: Distribution::Unknown }, FixEvent::Partitions(Ok(esp_line)));
    assert!(matches!(a, FixAction::Done(Err(Error::UnsupportedDistribution))));
    let state = FixState::Reinstalling { distro: Distribution::Fedora, esp: "/dev/sda1".to_string() };
    let (_, a) = step(state, FixEvent::Reinstalled(Err(ReinstallError::PermissionDenied)));
    assert!(matches!(a, FixAction::Done(Err(Error::ReinstallFailed(ReinstallError::PermissionDenied)))));
    let (_, a) = step(FixState::AddingEntry, FixEvent::EntryAdded(Err(CallError::ProgramError)));
    assert!(matches!(a, FixAction::Done(Err(Error::CallError(CallError::ProgramError)))));
    let (_, a) = step(FixState::Start, FixEvent::Reinstalled(Ok(())));
    assert!(matches!(a, FixAction::Done(Err(Error::UnexpectedEvent))));
}
