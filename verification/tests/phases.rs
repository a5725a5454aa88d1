use generic_image_builder::BuildError;
use generic_image_builder::BuilderConfig;
use generic_image_builder::Cmd;
use generic_image_builder::Distributions;
use generic_image_builder::ImageBuilder;
use generic_image_builder::ImageBuilderState;
use generic_image_builder::ImageConfig;
use generic_image_builder::ImageContent;
use generic_image_builder::LoopDev;

const GIB: u64 = 1024 * 1024 * 1024;

/// A substitute executor: records every command instead of running it,
/// and answers an attach with a canned device list.
struct FakeExecutor {
    calls: Vec<Cmd>,
    attach_output: Vec<String>,
}

impl FakeExecutor {
    fn new(attach_output: Vec<String>) -> Self {
        FakeExecutor { calls: Vec::new(), attach_output }
    }

    fn run(&mut self, cmds: Vec<Cmd>) -> Vec<String> {
        let mut output = Vec::new();
        for cmd in cmds {
            if matches!(cmd, Cmd::Attach { .. }) {
                output = self.attach_output.clone();
            }
            self.calls.push(cmd);
        }
        output
    }
}

fn builder_2gib_jammy() -> ImageBuilder {
    ImageBuilder {
        config: BuilderConfig { workdir: "work".to_string() },
        image: ImageConfig {
            name: "disk.img".to_string(),
            distro: Distributions::Jammy,
            size_bytes: 2 * GIB,
        },
        content: ImageContent {
            base: "base".to_string(),
            apt_packages: None,
            local_package_dir: None,
            local_packages: None,
            scripts: None,
        },
    }
}

#[test]
fn phase1_rejects_every_other_state() {
    let b = builder_2gib_jammy();
    let dev = LoopDev("/dev/loop0".to_string());
    for state in [
        ImageBuilderState::Phase1(dev.clone()),
        ImageBuilderState::Phase2(dev.clone()),
        ImageBuilderState::Error,
    ] {
        let r = b.phase1(state);
        assert!(matches!(r, Err(BuildError::StateError)));
    }
}

#[test]
fn phase2_rejects_every_other_state() {
    let b = builder_2gib_jammy();
    let dev = LoopDev("/dev/loop0".to_string());
    for state in [
        ImageBuilderState::Phase0,
        ImageBuilderState::Phase2(dev.clone()),
        ImageBuilderState::Error,
    ] {
        let r = b.phase2(state);
        assert!(matches!(r, Err(BuildError::StateError)));
    }
}

#[test]
fn phase0_creates_and_enters_workdir() {
    let b = builder_2gib_jammy();
    let (state, cmds) = b.phase0();
    assert_eq!(state, ImageBuilderState::Phase0);
    assert_eq!(
        cmds,
        vec![
            Cmd::MakeDir { path: "work".to_string(), recursive: true },
            Cmd::ChangeDir { path: "work".to_string() },
        ]
    );
}

#[test]
fn phase1_issues_commands_in_order() {
    let b = builder_2gib_jammy();
    let mut exec = FakeExecutor::new(vec!["/dev/loop3".to_string()]);

    let cmds = b.phase1(ImageBuilderState::Phase0).unwrap();
    let devices = exec.run(cmds);
    let (_, cmds) = b.phase1_attached(&devices).unwrap();
    exec.run(cmds);

    assert_eq!(
        exec.calls,
        vec![
            Cmd::Allocate { image: "disk.img".to_string(), size_bytes: 2684354560 },
            Cmd::Partition { image: "disk.img".to_string(), root_sectors: 4192222 },
            Cmd::Attach { image: "disk.img".to_string() },
            Cmd::FormatBoot { device: "/dev/loop3p1".to_string() },
            Cmd::FormatRoot { device: "/dev/loop3p2".to_string() },
        ]
    );
}

#[test]
fn phase1_fails_without_device_and_formats_nothing() {
    let b = builder_2gib_jammy();
    let mut exec = FakeExecutor::new(Vec::new());

    let cmds = b.phase1(ImageBuilderState::Phase0).unwrap();
    let devices = exec.run(cmds);
    let r = b.phase1_attached(&devices);
    assert!(matches!(r, Err(BuildError::LoopDeviceError)));
    // allocate, partition and attach ran; no format command was issued
    assert_eq!(exec.calls.len(), 3);
    assert!(!exec
        .calls
        .iter()
        .any(|c| matches!(c, Cmd::FormatBoot { .. } | Cmd::FormatRoot { .. })));
}

#[test]
fn invalid_config_stops_before_any_command() {
    let b = builder_2gib_jammy();
    let mut exec = FakeExecutor::new(vec!["/dev/loop3".to_string()]);

    // the working directory already exists
    let validated = b.is_valid(true, true, true);
    if validated.is_ok() {
        let (state, cmds) = b.phase0();
        exec.run(cmds);
        let cmds = b.phase1(state).unwrap();
        exec.run(cmds);
    }
    assert!(validated.is_err());
    assert!(exec.calls.is_empty());
}

#[test]
fn full_build_threads_state_and_commands() {
    let b = builder_2gib_jammy();
    // the attach reports the device and a discovered partition; the
    // first path is the authoritative handle
    let mut exec = FakeExecutor::new(vec![
        "/dev/loop3".to_string(),
        "/dev/loop3p1".to_string(),
    ]);

    let (state, cmds) = b.phase0();
    exec.run(cmds);
    let cmds = b.phase1(state).unwrap();
    let devices = exec.run(cmds);
    let (state, cmds) = b.phase1_attached(&devices).unwrap();
    exec.run(cmds);
    assert_eq!(state, ImageBuilderState::Phase1(LoopDev("/dev/loop3".to_string())));

    let (state, cmds) = b.phase2(state).unwrap();
    exec.run(cmds);
    assert_eq!(state, ImageBuilderState::Phase2(LoopDev("/dev/loop3".to_string())));

    assert_eq!(
        exec.calls,
        vec![
            Cmd::MakeDir { path: "work".to_string(), recursive: true },
            Cmd::ChangeDir { path: "work".to_string() },
            Cmd::Allocate { image: "disk.img".to_string(), size_bytes: 2684354560 },
            Cmd::Partition { image: "disk.img".to_string(), root_sectors: 4192222 },
            Cmd::Attach { image: "disk.img".to_string() },
            Cmd::FormatBoot { device: "/dev/loop3p1".to_string() },
            Cmd::FormatRoot { device: "/dev/loop3p2".to_string() },
            Cmd::ChangeDir { path: "work".to_string() },
            Cmd::MakeDir { path: "chroot".to_string(), recursive: false },
            Cmd::Mount { device: "/dev/loop3p2".to_string(), target: "chroot".to_string() },
            Cmd::MakeDir { path: "chroot/boot/efi".to_string(), recursive: true },
            Cmd::Mount {
                device: "/dev/loop3p1".to_string(),
                target: "chroot/boot/efi".to_string()
            },
            Cmd::Bootstrap {
                distro: "jammy".to_string(),
                mirror: "http:://archive.ubuntu.com/ubuntu".to_string()
            },
        ]
    );
}

#[test]
fn command_failure_is_reported_as_execution_error() {
    // how a caller reports a command that exited non-zero
    let failed = Cmd::FormatRoot { device: "/dev/loop3p2".to_string() };
    let err = match failed {
        Cmd::FormatRoot { device } => BuildError::CommandExecutionError {
            program: format!("mkfs.ext4 {}", device),
            exit_code: Some(1),
            output: "mkfs.ext4: No such file or directory".to_string(),
        },
        _ => unreachable!(),
    };
    match err {
        BuildError::CommandExecutionError { exit_code, .. } => assert_eq!(exit_code, Some(1)),
        other => panic!("expected an execution error, got {:?}", other),
    }
}
