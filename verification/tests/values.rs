use zockervols::api::{join_strings, GetRequest, MountRequest, RemoveRequest, UnmountRequest};
use zockervols::config::{maybe_empty_string, CommaSepVec, GoogleApplicationCredentials, MaybeEmpty};
use zockervols::containers::{
    render_mount_arg, Volume, Docker, Mount, Runtime, VolumeDriver,
};
use zockervols::noop::Noop;
use zockervols::options::{parse_options, VolumeOptions};
use zockervols::runner::{
    classify_exit, deadline_after, poll_step, PollDecision, RunError, SignalsError,
    POLL_NAP_MS, SHUTDOWN_GRACE_MS,
};
use zockervols::timeout::Timeout;
use zockervols::api::CreateRequest;

fn pairs(xs: &[(&str, &str)]) -> Vec<(String, String)> {
    xs.iter().map(|(k, v)| (k.to_string(), v.to_string())).collect()
}

#[test]
fn options_defaults() {
    let v = parse_options(&Vec::new()).unwrap();
    assert_eq!(v.quota, 250 * 1024 * 1024);
    assert!(v.enable_compression);
    assert!(!v.enable_atime);
    assert!(!v.enable_exec);
    assert!(!v.enable_setuid);
    assert!(v.snapshot_of.is_none());
    let d = VolumeOptions::default();
    assert_eq!(d.quota, v.quota);
    assert_eq!(d.enable_compression, v.enable_compression);
}

#[test]
fn options_read_units_and_flags() {
    let v = parse_options(&pairs(&[
        ("quota", "1GiB"),
        ("compression", "off"),
        ("atime", "on"),
        ("exec", "whatever"),
        ("unknown-key", "ignored"),
        ("from", "source"),
    ]))
    .unwrap();
    assert_eq!(v.quota, 1073741824);
    assert!(!v.enable_compression);
    assert!(v.enable_atime);
    assert!(!v.enable_exec);
    assert_eq!(v.snapshot_of.as_deref(), Some("source"));
}

#[test]
fn options_prefer_snapshot_of_over_from() {
    let v = parse_options(&pairs(&[("from", "a"), ("snapshot-of", "b")])).unwrap();
    assert_eq!(v.snapshot_of.as_deref(), Some("b"));
}

#[test]
fn options_quota_boundaries() {
    let ok = parse_options(&pairs(&[("quota", "18446744073709551615")])).unwrap();
    assert_eq!(ok.quota, u64::MAX);
    let over = parse_options(&pairs(&[("quota", "18446744073709551616")]));
    assert_eq!(over.err().map(|e| e.0), Some("Quota out of range".to_string()));
    let bad = parse_options(&pairs(&[("quota", "banana")]));
    assert_eq!(bad.err().map(|e| e.0), Some("Invalid quota specified".to_string()));
}

#[test]
fn options_round_trip() {
    let v = parse_options(&pairs(&[
        ("quota", "8GiB"),
        ("compression", "off"),
        ("atime", "on"),
        ("exec", "on"),
        ("setuid", "off"),
        ("snapshot-of", "base"),
    ]))
    .unwrap();
    let again = parse_options(&v.as_pairs()).unwrap();
    assert_eq!(again.quota, v.quota);
    assert_eq!(again.enable_compression, v.enable_compression);
    assert_eq!(again.enable_atime, v.enable_atime);
    assert_eq!(again.enable_exec, v.enable_exec);
    assert_eq!(again.enable_setuid, v.enable_setuid);
    assert_eq!(again.snapshot_of, v.snapshot_of);
    // And for a defaulted value without a snapshot source.
    let d = parse_options(&Vec::new()).unwrap();
    let d2 = parse_options(&d.as_pairs()).unwrap();
    assert_eq!(d2.quota, d.quota);
    assert_eq!(d2.snapshot_of, None);
}

#[test]
fn runner_poll_priorities() {
    // A pending signal is forwarded before anything else.
    assert!(matches!(
        poll_step(true, Some(Some(0)), None, 0),
        PollDecision::ForwardSignal
    ));
    // A finished child finishes the run.
    assert!(matches!(
        poll_step(false, Some(Some(7)), Some(0), 100),
        PollDecision::Finish { code: Some(7) }
    ));
    assert!(matches!(
        poll_step(false, Some(None), None, 0),
        PollDecision::Finish { code: None }
    ));
    // A passed deadline gives up; otherwise the runner naps.
    assert!(matches!(poll_step(false, None, Some(50), 50), PollDecision::GiveUp));
    assert!(matches!(poll_step(false, None, Some(50), 49), PollDecision::Nap));
    assert!(matches!(poll_step(false, None, None, 49), PollDecision::Nap));
}

#[test]
fn runner_zero_deadline_times_out_at_once() {
    let now = 123456;
    let deadline = deadline_after(now, 0);
    assert_eq!(deadline, Some(now));
    assert!(matches!(poll_step(false, None, deadline, now), PollDecision::GiveUp));
}

#[test]
fn runner_deadline_overflow_means_no_deadline() {
    assert_eq!(deadline_after(u64::MAX, 1), None);
    assert_eq!(deadline_after(10, 20), Some(30));
}

#[test]
fn runner_exit_classification() {
    assert!(classify_exit("zfs list".to_string(), Some(0)).is_ok());
    match classify_exit("zfs list".to_string(), Some(2)) {
        Err(RunError::NonZeroExit { command, code }) => {
            assert_eq!(command, "zfs list");
            assert_eq!(code, 2);
        },
        _ => panic!("a non-zero exit must be an error"),
    }
    match classify_exit("zfs list".to_string(), None) {
        Err(e @ RunError::ChildKilled { .. }) => {
            assert_eq!(e.message(), "Child process killed by a signal, command was: zfs list");
        },
        _ => panic!("a signalled child must be an error"),
    }
}

#[test]
fn runner_messages() {
    let e = RunError::NonZeroExit { command: "docker pull".to_string(), code: -9 };
    assert_eq!(e.message(), "Non-zero exit status -9 for command docker pull");
    let t = RunError::Timeout { command: "docker run".to_string(), elapsed_ms: 1500 };
    assert_eq!(t.message(), "Deadline exceeded after 1500ms for command: docker run");
    let s = RunError::Signals(SignalsError { message: "bad fd".to_string() });
    assert_eq!(s.message(), "Failed to install signal handlers: bad fd");
    let io = RunError::Io { command: "zfs list".to_string(), message: "broken pipe".to_string() };
    assert_eq!(io.message(), "IO error while running zfs list: broken pipe");
    assert_eq!(SHUTDOWN_GRACE_MS, 500);
    assert_eq!(POLL_NAP_MS, 42);
}

#[test]
fn command_line_rendering() {
    let args = vec!["list".to_string(), "-H".to_string()];
    assert_eq!(zockervols::runner::command_line("zfs", &args), "zfs list -H");
    assert_eq!(zockervols::runner::command_line("zfs", &Vec::new()), "zfs");
    assert_eq!(join_strings(&args, ", "), "list, -H");
    assert_eq!(join_strings(&Vec::new(), ", "), "");
}

#[test]
fn timeout_budget_shrinks() {
    let t = Timeout::new(5000);
    let r = t.remaining();
    assert!(r <= 5000);
    let zero = Timeout::new(0);
    assert_eq!(zero.remaining(), 0);
}

#[test]
fn noop_driver_behaviour() {
    let n = Noop;
    assert_eq!(
        n.create(CreateRequest { name: "x".to_string(), options: None }).err().map(|e| e.err),
        Some("Create not implemented".to_string())
    );
    assert_eq!(
        n.remove(RemoveRequest { name: "x".to_string() }).err().map(|e| e.err),
        Some("Remove not implemented".to_string())
    );
    assert_eq!(
        n.mount(MountRequest { name: "x".to_string(), id: "c".to_string() })
            .unwrap()
            .mountpoint,
        "/dev/null"
    );
    assert_eq!(
        n.unmount(UnmountRequest { name: "x".to_string(), id: "c".to_string() })
            .err()
            .map(|e| e.err),
        Some("unmount not implemented".to_string())
    );
    let got = n.get(GetRequest { name: "x".to_string() }).unwrap();
    assert_eq!(got.volume.name, "x");
    assert!(got.volume.mountpoint.is_none());
    assert!(n.list().unwrap().volumes.is_empty());
}

#[test]
fn mounts_render_as_cli_arguments() {
    let tmpfs = Mount::Tmpfs { dst: "/tmp".to_string(), size_in_bytes: 200000000, mode: 0o755 };
    assert_eq!(render_mount_arg(&tmpfs), "--tmpfs=/tmp:size=200000000,mode=755,exec");
    let bind = Mount::Bind { src: "/src".to_string(), dst: "/build".to_string(), readonly: true };
    assert_eq!(render_mount_arg(&bind), "--mount=type=bind,src=/src,dst=/build,readonly");
    let vol = Mount::Volume {
        src: Some(Volume::Persistent {
            name: "cache".to_string(),
            driver: None,
            opts: Vec::new(),
            labels: Vec::new(),
        }),
        dst: "/cache".to_string(),
        readonly: false,
        volume_driver: Some(VolumeDriver::Zockervols),
        volume_opts: pairs(&[("quota", "8GiB")]),
    };
    assert_eq!(
        render_mount_arg(&vol),
        "--mount=type=volume,dst=/cache,src=cache,volume-driver=zockervols,\
         volume-opt=quota=8GiB,volume-nocopy=true"
    );
    assert_eq!(tmpfs.destination(), "/tmp");
    assert_eq!(vol.destination(), "/cache");
}

#[test]
fn container_value_types() {
    assert!(matches!(
        VolumeDriver::from_str(&"zockervols".to_string()),
        Ok(VolumeDriver::Zockervols)
    ));
    assert!(matches!(VolumeDriver::from_str(&"local".to_string()), Ok(VolumeDriver::Local)));
    assert_eq!(
        VolumeDriver::from_str(&"btrfs".to_string()).err(),
        Some("Unsupported volume driver btrfs".to_string())
    );
    assert_eq!(Runtime::Kata.name(), "kata-containers");
    assert_eq!(Runtime::Runc.name(), "runc");
    assert!(Runtime::Kata.is_kata());
    let d = Docker::new(&"build-17".to_string());
    assert_eq!(d.build_id, "build-17");
    assert!(matches!(
        Volume::new(None, Vec::new()),
        Volume::Ephemeral { .. }
    ));
}

#[test]
fn config_value_types() {
    let orgs = CommaSepVec::from_str("alpha,beta,gamma");
    assert_eq!(orgs.0, vec!["alpha", "beta", "gamma"]);
    assert!(maybe_empty_string("").0.is_none());
    assert_eq!(maybe_empty_string("x").0.as_deref(), Some("x"));
    let kept: MaybeEmpty<u32> = MaybeEmpty::new(Some(7));
    assert_eq!(kept.get(), &Some(7));
    assert!(matches!(
        GoogleApplicationCredentials::from_setting(""),
        GoogleApplicationCredentials::Instance
    ));
    assert!(matches!(
        GoogleApplicationCredentials::from_setting("instance"),
        GoogleApplicationCredentials::Instance
    ));
    match GoogleApplicationCredentials::from_setting("/etc/gce/cred.json") {
        GoogleApplicationCredentials::Json(p) => assert_eq!(p, "/etc/gce/cred.json"),
        _ => panic!("a path must be read as a credentials file"),
    }
}
