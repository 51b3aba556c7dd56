use provisioner::extlinux::extlinux_config;
use provisioner::fstab::MountTableError;
use provisioner::pipeline::{Action, Pipeline, PipelineError, Step, StepOutcome};

fn ok(stdout: &str) -> StepOutcome {
    StepOutcome::Success { stdout: stdout.to_string() }
}

fn expect_command(p: &Pipeline, program: &str, args: &[&str]) {
    match p.next_action().expect("an action is due") {
        Action::RunCommand { program: prog, args: got } => {
            assert_eq!(prog, program);
            let got: Vec<&str> = got.iter().map(|s| s.as_str()).collect();
            assert_eq!(got, args);
        }
        _ => panic!("expected a command"),
    }
}

const QUERY: &str =
    "/dev/sdc3: UUID=\"1111-2222\" TYPE=\"ext4\"\n/dev/sdc2: UUID=\"3333-4444\" TYPE=\"ext4\"\n";

#[test]
fn full_run_issues_every_step_in_order() {
    let mut p = Pipeline::new("/dev/sdc".to_string());
    assert_eq!(p.root_part, "/dev/sdc3");
    assert_eq!(p.boot_part, "/dev/sdc2");

    expect_command(&p, "sgdisk", &["--zap-all", "/dev/sdc"]);
    p.report(ok("")).unwrap();
    expect_command(&p, "sgdisk", &["-n 2:0:+512M -t 2:8300 -c 2:\"boot\"", "/dev/sdc"]);
    p.report(ok("")).unwrap();
    expect_command(&p, "sgdisk", &["-n 3:0:0 -t 3:8300 -c 3:\"root\"", "/dev/sdc"]);
    p.report(ok("")).unwrap();
    expect_command(&p, "sgdisk", &["-A 2:set:2", "/dev/sdc"]);
    p.report(ok("")).unwrap();
    expect_command(&p, "mkfs.ext4", &["/dev/sdc2"]);
    p.report(ok("")).unwrap();
    expect_command(&p, "mkfs.ext4", &["/dev/sdc3"]);
    p.report(ok("")).unwrap();
    expect_command(&p, "mount", &["/dev/sdc3", "/mnt"]);
    p.report(ok("")).unwrap();
    expect_command(&p, "mkdir", &["/mnt/boot"]);
    p.report(ok("")).unwrap();
    expect_command(&p, "mount", &["/dev/sdc2", "/mnt/boot"]);
    p.report(ok("")).unwrap();

    match p.next_action().unwrap() {
        Action::FetchFile { url, dest } => {
            assert_eq!(url, "http://os.archlinuxarm.org/os/ArchLinuxARM-aarch64-latest.tar.gz");
            assert_eq!(dest, "archlinux.tar.gz");
        }
        _ => panic!("expected the fetch"),
    }
    p.report(ok("")).unwrap();

    match p.next_action().unwrap() {
        Action::UnpackArchive { archive, dest } => {
            assert_eq!(archive, "archlinux.tar.gz");
            assert_eq!(dest, "/mnt");
        }
        _ => panic!("expected the unpack"),
    }
    p.report(ok("")).unwrap();

    expect_command(&p, "blkid", &["/dev/sdc3", "/dev/sdc2"]);
    p.report(ok(QUERY)).unwrap();
    assert_eq!(p.root_uuid().unwrap(), "1111-2222");

    match p.next_action().unwrap() {
        Action::AppendFile { path, first, second } => {
            assert_eq!(path, "/mnt/etc/fstab");
            assert_eq!(first, "UUID=1111-2222 / ext4 defaults 0 1\n");
            assert_eq!(second, "UUID=3333-4444 /boot ext4 defaults 0 2");
        }
        _ => panic!("expected the mount-table append"),
    }
    p.report(ok("")).unwrap();

    match p.next_action().unwrap() {
        Action::WriteFile { dir, path, contents } => {
            assert_eq!(dir, "/mnt/boot/extlinux/extlinux");
            assert_eq!(path, "/mnt/boot/extlinux/extlinux.conf");
            assert_eq!(contents, extlinux_config("1111-2222"));
            assert!(contents.contains("APPEND root=UUID=1111-2222 rw"));
        }
        _ => panic!("expected the boot-menu write"),
    }
    p.report(ok("")).unwrap();

    assert!(p.next_action().is_none());
    assert_eq!(p.done_steps, 14);
    assert!(!p.failed);
}

#[test]
fn extract_is_not_offered_before_root_mount_succeeds() {
    let mut p = Pipeline::new("/dev/sdc".to_string());
    // Walk up to, but not past, the root mount step: the unpack action never
    // appears among the actions issued so far.
    for _ in 0..6 {
        match p.next_action().unwrap() {
            Action::UnpackArchive { .. } => panic!("unpack offered before the root mount"),
            _ => {}
        }
        p.report(ok("")).unwrap();
    }
    // The next step is the root mount itself.
    assert_eq!(p.next_step(), Some(Step::MountRoot));
    match p.next_action().unwrap() {
        Action::RunCommand { program, .. } => assert_eq!(program, "mount"),
        _ => panic!("expected the root mount command"),
    }
}

#[test]
fn command_failure_halts_the_run() {
    let mut p = Pipeline::new("/dev/sdc".to_string());
    p.report(ok("")).unwrap();
    let err = p.report(StepOutcome::Failure { code: Some(3) }).unwrap_err();
    assert_eq!(err, PipelineError::StepFailed { step: Step::CreateBoot, code: Some(3) });
    assert!(p.failed);
    assert!(p.next_action().is_none());
    assert_eq!(p.done_steps, 1);
}

#[test]
fn identity_error_halts_the_run_before_any_write() {
    let mut p = Pipeline::new("/dev/sdc".to_string());
    for _ in 0..11 {
        p.report(ok("")).unwrap();
    }
    assert_eq!(p.next_step(), Some(Step::QueryIdentifiers));
    // The query reports the two lines in the wrong order.
    let bad =
        "/dev/sdc2: UUID=\"3333-4444\" TYPE=\"ext4\"\n/dev/sdc3: UUID=\"1111-2222\" TYPE=\"ext4\"\n";
    let err = p.report(ok(bad)).unwrap_err();
    assert_eq!(err, PipelineError::Identity { error: MountTableError::RootMismatch });
    assert!(p.next_action().is_none());
    assert!(p.plan.is_none());
}

#[test]
fn boot_menu_text_embeds_the_identifier_twice() {
    let text = extlinux_config("1111-2222");
    let expected = "DEFAULT arch\nMENU TITLE Boot Menu\nPROMPT 0\nTIMEOUT 50\n\n\
LABEL arch\nMENU LABEL Arch Linux ARM\nLINUX /Image\nINITRD /initramfs-linux.img\n\
FDT /dtbs/rockchip/rk3399-pinebook-pro.dtb\nAPPEND root=UUID=1111-2222 rw\n\n\
LABEL arch-fallback\nMENU LABEL Arch Linux ARM with fallback initramfs\nLINUX /Image\n\
INITRD /initramfs-linux-fallback.img\nFDT /dtbs/rockchip/rk3399-pinebook-pro.dtb\n\
APPEND root=UUID=1111-2222 rw";
    assert_eq!(text, expected);
}
