use zockervols::api::{
    CreateRequest, GetRequest, MountRequest, PathRequest, PluginImplements, RemoveRequest,
    UnmountRequest,
};
use zockervols::zfs::{
    CreateState, Error, MountState, PoolOutcome, PoolRequest, Step, Zfs,
};

fn svec(xs: &[&str]) -> Vec<String> {
    xs.iter().map(|x| x.to_string()).collect()
}

fn ok(stdout: &str) -> PoolOutcome {
    PoolOutcome::Success { stdout: stdout.to_string() }
}

fn fail(stderr: &str) -> PoolOutcome {
    PoolOutcome::Failure { command: "zfs".to_string(), stderr: stderr.to_string() }
}

fn zfs_args(req: &PoolRequest) -> Vec<String> {
    match req {
        PoolRequest::Zfs { args, .. } => args.clone(),
        _ => panic!("expected a pool CLI request"),
    }
}

fn driver() -> Zfs {
    Zfs::new("tank/zocker".to_string())
}

fn opts(pairs: &[(&str, &str)]) -> Option<Vec<(String, String)>> {
    Some(pairs.iter().map(|(k, v)| (k.to_string(), v.to_string())).collect())
}

const NOT_EXIST: &str = "cannot open 'tank/zocker/x': dataset does not exist";

#[test]
fn create_probes_the_dataset() {
    let z = driver();
    let (req, st) = z.create_start(CreateRequest { name: "foo".to_string(), options: None });
    assert_eq!(
        zfs_args(&req),
        svec(&["get", "mountpoint", "-H", "-o", "value", "tank/zocker/foo"])
    );
    assert!(matches!(st, CreateState::Probe { .. }));
}

#[test]
fn create_of_existing_volume_is_a_successful_noop() {
    let z = driver();
    let (_, st) = z.create_start(CreateRequest { name: "foo".to_string(), options: None });
    // The probe answering at all means the dataset exists.
    match z.create_next(st, ok("none\n")) {
        Step::Done(Ok(())) => {},
        _ => panic!("existing volume must make create a no-op success"),
    }
}

#[test]
fn create_walks_create_and_fixup() {
    let z = driver();
    let (_, st) = z.create_start(CreateRequest { name: "foo".to_string(), options: None });
    // Probe: not there yet.
    let (req, st) = match z.create_next(st, fail(NOT_EXIST)) {
        Step::Pending(req, st) => (req, st),
        _ => panic!("create must proceed"),
    };
    assert_eq!(
        zfs_args(&req),
        svec(&[
            "create",
            "-o",
            "quota=262144000",
            "-o",
            "compression=on",
            "-o",
            "atime=off",
            "-o",
            "exec=off",
            "-o",
            "setuid=off",
            "-o",
            "mountpoint=none",
            "tank/zocker/foo",
        ])
    );
    // The pool may hint that only root can mount; that is still a success.
    let (req, st) = match z.create_next(
        st,
        fail("filesystem successfully created, but it may only be mounted by root"),
    ) {
        Step::Pending(req, st) => (req, st),
        _ => panic!("mount hint must be tolerated"),
    };
    assert_eq!(zfs_args(&req), svec(&["get", "mountpoint", "-H", "-o", "value", "tank/zocker"]));
    // Ownership fix-up: mount, chown, chmod, unmount.
    let (req, st) = match z.create_next(st, ok("/mnt/data/zocker\n")) {
        Step::Pending(req, st) => (req, st),
        _ => panic!("fix-up must set the mountpoint"),
    };
    assert_eq!(
        zfs_args(&req),
        svec(&["set", "mountpoint=/mnt/data/zocker/foo", "tank/zocker/foo"])
    );
    let (req, st) = match z.create_next(st, ok("")) {
        Step::Pending(req, st) => (req, st),
        _ => panic!("fix-up must chown"),
    };
    match &req {
        PoolRequest::Chown { owner, path } => {
            assert!(owner.contains(':'));
            assert_eq!(path, "/mnt/data/zocker/foo");
        },
        _ => panic!("expected a chown request"),
    }
    let (req, st) = match z.create_next(st, ok("")) {
        Step::Pending(req, st) => (req, st),
        _ => panic!("fix-up must restrict permissions"),
    };
    match &req {
        PoolRequest::SetPermissions { path } => assert_eq!(path, "/mnt/data/zocker/foo"),
        _ => panic!("expected a permissions request"),
    }
    let (req, st) = match z.create_next(st, ok("")) {
        Step::Pending(req, st) => (req, st),
        _ => panic!("fix-up must clear the mountpoint"),
    };
    assert_eq!(zfs_args(&req), svec(&["set", "mountpoint=none", "tank/zocker/foo"]));
    match z.create_next(st, ok("")) {
        Step::Done(Ok(())) => {},
        _ => panic!("create must finish"),
    }
}

#[test]
fn create_clones_from_snapshot() {
    let z = driver();
    let (_, st) = z.create_start(CreateRequest {
        name: "bar".to_string(),
        options: opts(&[("snapshot-of", "foo"), ("quota", "1GiB")]),
    });
    let (req, st) = match z.create_next(st, fail(NOT_EXIST)) {
        Step::Pending(req, st) => (req, st),
        _ => panic!("create must snapshot the source"),
    };
    let snap_args = zfs_args(&req);
    assert_eq!(snap_args[0], "snapshot");
    let snap = snap_args[1].clone();
    let (prefix, tag) = snap.split_once('@').expect("snapshot names carry a tag");
    assert_eq!(prefix, "tank/zocker/foo");
    assert!(!tag.is_empty() && tag.bytes().all(|b| b.is_ascii_digit()));
    // Clone, tolerating an already-existing dataset.
    let (req, st) = match z.create_next(st, ok("")) {
        Step::Pending(req, st) => (req, st),
        _ => panic!("create must clone"),
    };
    assert_eq!(
        zfs_args(&req),
        svec(&[
            "clone",
            "-o",
            "quota=1073741824",
            "-o",
            "compression=on",
            "-o",
            "atime=off",
            "-o",
            "exec=off",
            "-o",
            "setuid=off",
            "-o",
            "mountpoint=none",
            &snap,
            "tank/zocker/bar",
        ])
    );
    let (req, _) = match z.create_next(st, fail("dataset already exists")) {
        Step::Pending(req, st) => (req, st),
        _ => panic!("an existing clone is tolerated"),
    };
    assert_eq!(zfs_args(&req), svec(&["destroy", "-d", &snap]));
}

#[test]
fn create_rejects_bad_quota() {
    let z = driver();
    let (_, st) = z.create_start(CreateRequest {
        name: "bad".to_string(),
        options: opts(&[("quota", "banana")]),
    });
    match z.create_next(st, fail(NOT_EXIST)) {
        Step::Done(Err(e)) => assert_eq!(e.message(), "Invalid quota specified"),
        _ => panic!("an invalid quota must fail the create"),
    }
}

#[test]
fn create_sanitises_the_name() {
    let z = driver();
    let (req, _) = z.create_start(CreateRequest { name: "libstd++11".to_string(), options: None });
    assert_eq!(
        zfs_args(&req),
        svec(&["get", "mountpoint", "-H", "-o", "value", "tank/zocker/libstd__11"])
    );
}

#[test]
fn get_echoes_the_sanitised_name() {
    let z = driver();
    let (req, st) = z.get_start(GetRequest { name: "libstd++11".to_string() });
    assert_eq!(
        zfs_args(&req),
        svec(&[
            "list",
            "-H",
            "-p",
            "-o",
            "name,mountpoint,creation,used,avail",
            "tank/zocker/libstd__11",
        ])
    );
    match z.get_next(st, ok("tank/zocker/libstd__11\tnone\t1566812157\t1\t2\n")) {
        Step::Done(Ok(resp)) => {
            assert_eq!(resp.volume.name, "libstd__11");
            assert_eq!(resp.volume.mountpoint, None);
            assert_eq!(resp.volume.created_at, Some(1566812157));
            assert!(resp.volume.status.is_none());
        },
        _ => panic!("get must parse the record"),
    }
}

#[test]
fn mount_counts_and_unmount_releases() {
    // Two callers mount; the mountpoint is only cleared when the last
    // one unmounts.
    let mut z = driver();
    for caller in ["c1", "c2"] {
        let (req, st) = z.mount_start(MountRequest {
            name: "foo".to_string(),
            id: caller.to_string(),
        });
        assert_eq!(
            zfs_args(&req),
            svec(&["get", "mountpoint", "-H", "-o", "value", "tank/zocker"])
        );
        let (req, st) = match z.mount_next(st, ok("/mnt/data/zocker\n")) {
            Step::Pending(req, st) => (req, st),
            _ => panic!("mount must set the mountpoint"),
        };
        assert_eq!(
            zfs_args(&req),
            svec(&["set", "mountpoint=/mnt/data/zocker/foo", "tank/zocker/foo"])
        );
        let (req, st) = match z.mount_next(st, ok("")) {
            Step::Pending(req, st) => (req, st),
            _ => panic!("mount must read the mountpoint back"),
        };
        assert_eq!(
            zfs_args(&req),
            svec(&["get", "mountpoint", "-H", "-o", "value", "tank/zocker/foo"])
        );
        match z.mount_next(st, ok("/mnt/data/zocker/foo\n")) {
            Step::Done(Ok(resp)) => assert_eq!(resp.mountpoint, "/mnt/data/zocker/foo"),
            _ => panic!("mount must answer the mountpoint"),
        }
    }
    // First unmount: someone still holds the volume, nothing is cleared.
    match z.unmount_start(UnmountRequest { name: "foo".to_string(), id: "c1".to_string() }) {
        Step::Done(Ok(())) => {},
        _ => panic!("unmount with remaining owners must be a local no-op"),
    }
    // Last unmount: the mountpoint is cleared.
    let (req, st) = match z.unmount_start(UnmountRequest {
        name: "foo".to_string(),
        id: "c2".to_string(),
    }) {
        Step::Pending(req, st) => (req, st),
        _ => panic!("the last unmount must clear the mountpoint"),
    };
    assert_eq!(zfs_args(&req), svec(&["set", "mountpoint=none", "tank/zocker/foo"]));
    match z.unmount_next(st, ok("")) {
        Step::Done(Ok(())) => {},
        _ => panic!("unmount must finish"),
    }
}

#[test]
fn mounting_twice_by_one_caller_counts_once() {
    let mut z = driver();
    for _ in 0..2 {
        let (_, st) = z.mount_start(MountRequest {
            name: "foo".to_string(),
            id: "c1".to_string(),
        });
        let st = match z.mount_next(st, ok("/mnt/data/zocker\n")) {
            Step::Pending(_, st) => st,
            _ => panic!("mount must proceed"),
        };
        let st = match z.mount_next(st, ok("")) {
            Step::Pending(_, st) => st,
            _ => panic!("mount must proceed"),
        };
        match z.mount_next(st, ok("/mnt/data/zocker/foo\n")) {
            Step::Done(Ok(_)) => {},
            _ => panic!("mount must finish"),
        }
    }
    // One unmount is enough to release it.
    match z.unmount_start(UnmountRequest { name: "foo".to_string(), id: "c1".to_string() }) {
        Step::Pending(_, _) => {},
        _ => panic!("the only caller's unmount must clear the mountpoint"),
    }
}

#[test]
fn unmount_by_stranger_is_a_noop_success() {
    let mut z = driver();
    match z.unmount_start(UnmountRequest { name: "foo".to_string(), id: "nobody".to_string() }) {
        Step::Pending(req, _) => {
            // Nobody holds it, so the driver clears the mountpoint.
            assert_eq!(zfs_args(&req), svec(&["set", "mountpoint=none", "tank/zocker/foo"]));
        },
        _ => panic!("unmount must clear an unheld volume"),
    }
}

#[test]
fn remove_is_refused_while_held() {
    let mut z = driver();
    let (_, st) = z.mount_start(MountRequest { name: "foo".to_string(), id: "c1".to_string() });
    let st = match z.mount_next(st, ok("/mnt/data/zocker\n")) {
        Step::Pending(_, st) => st,
        _ => panic!("mount must proceed"),
    };
    let st = match z.mount_next(st, ok("")) {
        Step::Pending(_, st) => st,
        _ => panic!("mount must proceed"),
    };
    match z.mount_next(st, ok("/mnt/data/zocker/foo\n")) {
        Step::Done(Ok(_)) => {},
        _ => panic!("mount must finish"),
    }
    // The volume is held: no destroy is issued, the dataset stays.
    match z.remove_start(RemoveRequest { name: "foo".to_string() }) {
        Step::Done(Err(e)) => {
            assert_eq!(e.message(), "Volume foo is in use by: c1");
        },
        Step::Pending(..) => panic!("no pool request may be issued for a held volume"),
        _ => panic!("remove of a held volume must fail"),
    }
}

#[test]
fn remove_destroys_an_unheld_volume() {
    let z = driver();
    let (req, st) = match z.remove_start(RemoveRequest { name: "foo".to_string() }) {
        Step::Pending(req, st) => (req, st),
        _ => panic!("remove must destroy an unheld volume"),
    };
    assert_eq!(zfs_args(&req), svec(&["destroy", "-r", "tank/zocker/foo"]));
    match z.remove_next(st, ok("")) {
        Step::Done(Ok(())) => {},
        _ => panic!("remove must finish"),
    }
    // Removing a volume the pool does not know is the pool's error.
    let (_, st) = match z.remove_start(RemoveRequest { name: "ghost".to_string() }) {
        Step::Pending(req, st) => (req, st),
        _ => panic!("remove must try the destroy"),
    };
    match z.remove_next(st, fail("cannot open 'tank/zocker/ghost': dataset does not exist")) {
        Step::Done(Err(Error::CmdError { .. })) => {},
        _ => panic!("a missing dataset must surface the pool's error"),
    }
}

#[test]
fn path_answers_or_names_the_volume() {
    let z = driver();
    let (req, st) = z.path_start(PathRequest { name: "foo".to_string() });
    assert_eq!(
        zfs_args(&req),
        svec(&["get", "mountpoint", "-H", "-o", "value", "tank/zocker/foo"])
    );
    match z.path_next(st, ok("/mnt/data/zocker/foo\n")) {
        Step::Done(Ok(resp)) => assert_eq!(resp.mountpoint, "/mnt/data/zocker/foo"),
        _ => panic!("path must answer the mountpoint"),
    }
    let (_, st) = z.path_start(PathRequest { name: "foo".to_string() });
    match z.path_next(st, ok("none\n")) {
        Step::Done(Err(e)) => assert_eq!(e.message(), "No mountpoint for foo"),
        _ => panic!("an unmounted volume has no path"),
    }
}

#[test]
fn list_maps_records_to_volumes() {
    let z = driver();
    let (req, st) = z.list_start();
    assert_eq!(
        zfs_args(&req),
        svec(&[
            "list",
            "-H",
            "-p",
            "-r",
            "-o",
            "name,mountpoint,creation,used,avail",
            "tank/zocker",
        ])
    );
    let out = "tank/zocker\t/mnt/data/zocker\t1\t2\t3\n\
               tank/zocker/foo\t/mnt/data/zocker/foo\t1566812157\t98304\t262045696\n";
    match z.list_next(st, ok(out)) {
        Step::Done(Ok(resp)) => {
            assert_eq!(resp.volumes.len(), 1);
            assert_eq!(resp.volumes[0].name, "foo");
            assert_eq!(resp.volumes[0].mountpoint.as_deref(), Some("/mnt/data/zocker/foo"));
            assert_eq!(resp.volumes[0].created_at, Some(1566812157));
        },
        _ => panic!("list must map the records"),
    }
    // Boundary: an empty pool lists no volumes.
    let (_, st) = z.list_start();
    match z.list_next(st, ok("tank/zocker\t/mnt/data/zocker\t1\t2\t3\n")) {
        Step::Done(Ok(resp)) => assert!(resp.volumes.is_empty()),
        _ => panic!("an empty pool must list nothing"),
    }
}

#[test]
fn activation_and_capabilities() {
    let z = driver();
    let act = z.activate();
    assert_eq!(act.implements.len(), 1);
    assert!(matches!(act.implements[0], PluginImplements::VolumeDriver));
    let caps = z.capabilities();
    assert!(matches!(caps.capabilities.scope, zockervols::api::Scope::Local));
}

#[test]
fn unexpected_stderr_is_surfaced_with_the_command() {
    let z = driver();
    let (_, st) = z.create_start(CreateRequest { name: "foo".to_string(), options: None });
    match z.create_next(
        st,
        PoolOutcome::Failure {
            command: "zfs get mountpoint".to_string(),
            stderr: "permission denied".to_string(),
        },
    ) {
        Step::Done(Err(e)) => {
            assert_eq!(e.message(), "zfs get mountpoint: permission denied");
        },
        _ => panic!("unexpected stderr must fail the create"),
    }
}

#[test]
fn unreadable_pool_output_is_a_parse_error() {
    let z = driver();
    let (_, st) = z.get_start(GetRequest { name: "foo".to_string() });
    match z.get_next(st, ok("not a record at all")) {
        Step::Done(Err(e @ Error::CmdOutputParseError)) => {
            assert_eq!(e.message(), "Could not parse the pool tool's output");
        },
        _ => panic!("garbage output must be a parse error"),
    }
    let (_, st) = z.list_start();
    match z.list_next(st, ok("root-line\nbroken record\n")) {
        Step::Done(Err(Error::CmdOutputParseError)) => {},
        _ => panic!("one broken record must spoil the listing"),
    }
}

#[test]
fn permission_failure_still_clears_the_mountpoint() {
    let z = driver();
    let (_, st) = z.create_start(CreateRequest { name: "foo".to_string(), options: None });
    let st = match z.create_next(st, fail(NOT_EXIST)) {
        Step::Pending(_, st) => st,
        _ => panic!("create must proceed"),
    };
    let st = match z.create_next(st, ok("")) {
        Step::Pending(_, st) => st,
        _ => panic!("create must read the root mountpoint"),
    };
    let st = match z.create_next(st, ok("/mnt/data/zocker\n")) {
        Step::Pending(_, st) => st,
        _ => panic!("create must set the mountpoint"),
    };
    let st = match z.create_next(st, ok("")) {
        Step::Pending(_, st) => st,
        _ => panic!("create must chown"),
    };
    let st = match z.create_next(st, ok("")) {
        Step::Pending(_, st) => st,
        _ => panic!("create must restrict permissions"),
    };
    // The permission step fails; the volume is unmounted anyway and
    // the failure is reported afterwards.
    let (req, st) = match z.create_next(
        st,
        PoolOutcome::IoFailure {
            command: "chmod 0750 /mnt/data/zocker/foo".to_string(),
            message: "read-only filesystem".to_string(),
        },
    ) {
        Step::Pending(req, st) => (req, st),
        _ => panic!("the mountpoint must still be cleared"),
    };
    assert_eq!(zfs_args(&req), svec(&["set", "mountpoint=none", "tank/zocker/foo"]));
    match z.create_next(st, ok("")) {
        Step::Done(Err(e)) => {
            assert_eq!(e.message(), "chmod 0750 /mnt/data/zocker/foo: read-only filesystem");
        },
        _ => panic!("the permission failure must be reported"),
    }
}

#[test]
fn spawn_failures_are_io_errors() {
    let z = driver();
    let (_, st) = z.path_start(PathRequest { name: "foo".to_string() });
    match z.path_next(
        st,
        PoolOutcome::IoFailure {
            command: "zfs".to_string(),
            message: "No such file or directory".to_string(),
        },
    ) {
        Step::Done(Err(e)) => {
            assert_eq!(e.message(), "zfs: No such file or directory");
        },
        _ => panic!("a spawn failure must surface"),
    }
}
