//! Builders for the pool CLI's argument lists, the privilege policy,
//! and the tolerated stderr patterns of the pool tool.
//!
//! Every logical operation of the driver becomes one `zfs` invocation
//! built here; only mountpoint mutation is run with elevated
//! privileges.

use crate::mounts::views_of;
use crate::numbers::{dec_str, dec_string_u64};
use crate::options::{onoff, onoff_string, OptsModel, VolumeOptions};
use crate::strutil::{contains_str, has_substring};
use vstd::prelude::*;

verus! {

broadcast use vstd::string::group_string_axioms;

/// `<root>/<vol>`.
pub open spec fn spec_dataset_path(root: Seq<char>, vol: Seq<char>) -> Seq<char> {
    root + "/"@ + vol
}

/// Join a root dataset and a volume name with `/`.
pub fn dataset_path(root: &str, vol: &str) -> (r: String)
    ensures
        r@ == spec_dataset_path(root@, vol@),
{
    let mut s = String::from_str(root);
    s.append("/");
    s.append(vol);
    s
}

/// `<dataset>@<tag>`.
pub open spec fn spec_snapshot_name(dataset: Seq<char>, tag: Seq<char>) -> Seq<char> {
    dataset + "@"@ + tag
}

/// Join a dataset and a snapshot tag with `@`.
pub fn snapshot_name(dataset: &str, tag: &str) -> (r: String)
    ensures
        r@ == spec_snapshot_name(dataset@, tag@),
{
    let mut s = String::from_str(dataset);
    s.append("@");
    s.append(tag);
    s
}

/// `<key>=<value>`.
pub open spec fn spec_keyval(key: Seq<char>, val: Seq<char>) -> Seq<char> {
    key + "="@ + val
}

fn keyval(key: &str, val: &str) -> (r: String)
    ensures
        r@ == spec_keyval(key@, val@),
{
    let mut s = String::from_str(key);
    s.append("=");
    s.append(val);
    s
}

/// The `-o key=value` arguments for the five dataset properties, in a
/// fixed order.
pub open spec fn spec_property_args(m: OptsModel) -> Seq<Seq<char>> {
    seq![
        "-o"@,
        spec_keyval("quota"@, dec_str(m.quota as nat)),
        "-o"@,
        spec_keyval("compression"@, onoff(m.enable_compression)),
        "-o"@,
        spec_keyval("atime"@, onoff(m.enable_atime)),
        "-o"@,
        spec_keyval("exec"@, onoff(m.enable_exec)),
        "-o"@,
        spec_keyval("setuid"@, onoff(m.enable_setuid)),
    ]
}

fn push_property(args: &mut Vec<String>, key: &str, val: String)
    ensures
        views_of(final (args)@) == views_of(old(args)@) + seq!["-o"@, spec_keyval(key@, val@)],
{
    let ghost before = views_of(args@);
    args.push(String::from_str("-o"));
    args.push(keyval(key, val.as_str()));
    proof {
        assert(views_of(args@) =~= before + seq!["-o"@, spec_keyval(key@, val@)]);
    }
}

/// `zfs create -o <properties> -o mountpoint=none <root>/<vol>`.
pub open spec fn spec_create_args(root: Seq<char>, vol: Seq<char>, m: OptsModel) -> Seq<Seq<char>> {
    seq!["create"@] + spec_property_args(m) + seq![
        "-o"@,
        "mountpoint=none"@,
        spec_dataset_path(root, vol),
    ]
}

/// `zfs snapshot <snap>`.
pub open spec fn spec_snapshot_args(snap: Seq<char>) -> Seq<Seq<char>> {
    seq!["snapshot"@, snap]
}

/// `zfs clone -o <properties> -o mountpoint=none <snap> <root>/<vol>`.
pub open spec fn spec_clone_args(root: Seq<char>, vol: Seq<char>, m: OptsModel, snap: Seq<char>) -> Seq<
    Seq<char>,
> {
    seq!["clone"@] + spec_property_args(m) + seq![
        "-o"@,
        "mountpoint=none"@,
        snap,
        spec_dataset_path(root, vol),
    ]
}

/// `zfs destroy -d <snap>`: mark the clone's source snapshot for
/// deferred destruction.
pub open spec fn spec_defer_destroy_args(snap: Seq<char>) -> Seq<Seq<char>> {
    seq!["destroy"@, "-d"@, snap]
}

/// `zfs destroy -r <root>/<vol>`.
pub open spec fn spec_destroy_args(root: Seq<char>, vol: Seq<char>) -> Seq<Seq<char>> {
    seq!["destroy"@, "-r"@, spec_dataset_path(root, vol)]
}

/// `zfs set mountpoint=<path> <dataset>`.
pub open spec fn spec_set_mountpoint_args(dataset: Seq<char>, mountpoint: Seq<char>) -> Seq<
    Seq<char>,
> {
    seq!["set"@, spec_keyval("mountpoint"@, mountpoint), dataset]
}

/// `zfs set mountpoint=none <dataset>`.
pub open spec fn spec_clear_mountpoint_args(dataset: Seq<char>) -> Seq<Seq<char>> {
    seq!["set"@, "mountpoint=none"@, dataset]
}

/// `zfs get mountpoint -H -o value <dataset>`.
pub open spec fn spec_get_mountpoint_args(dataset: Seq<char>) -> Seq<Seq<char>> {
    seq!["get"@, "mountpoint"@, "-H"@, "-o"@, "value"@, dataset]
}

/// `zfs list -H -p -r -o name,mountpoint,creation,used,avail <root>`.
pub open spec fn spec_list_args(root: Seq<char>) -> Seq<Seq<char>> {
    seq!["list"@, "-H"@, "-p"@, "-r"@, "-o"@, "name,mountpoint,creation,used,avail"@, root]
}

/// `zfs list -H -p -o name,mountpoint,creation,used,avail <root>/<vol>`.
pub open spec fn spec_inspect_args(root: Seq<char>, vol: Seq<char>) -> Seq<Seq<char>> {
    seq![
        "list"@,
        "-H"@,
        "-p"@,
        "-o"@,
        "name,mountpoint,creation,used,avail"@,
        spec_dataset_path(root, vol),
    ]
}

fn property_args(args: &mut Vec<String>, opts: &VolumeOptions)
    ensures
        views_of(final (args)@) == views_of(old(args)@) + spec_property_args(opts@),
{
    let ghost before = views_of(args@);
    push_property(args, "quota", dec_string_u64(opts.quota));
    push_property(args, "compression", onoff_string(opts.enable_compression));
    push_property(args, "atime", onoff_string(opts.enable_atime));
    push_property(args, "exec", onoff_string(opts.enable_exec));
    push_property(args, "setuid", onoff_string(opts.enable_setuid));
    proof {
        assert(views_of(args@) =~= before + spec_property_args(opts@));
    }
}

/// Build `zfs create` arguments.
pub fn create_args(root: &str, vol: &str, opts: &VolumeOptions) -> (r: Vec<String>)
    ensures
        views_of(r@) == spec_create_args(root@, vol@, opts@),
{
    let mut args: Vec<String> = Vec::new();
    args.push(String::from_str("create"));
    let ghost v1 = views_of(args@);
    property_args(&mut args, opts);
    let ghost v2 = views_of(args@);
    args.push(String::from_str("-o"));
    args.push(String::from_str("mountpoint=none"));
    args.push(dataset_path(root, vol));
    proof {
        assert(v1 =~= seq!["create"@]);
        assert(v2 == v1 + spec_property_args(opts@));
        assert(views_of(args@) =~= v2 + seq![
            "-o"@,
            "mountpoint=none"@,
            spec_dataset_path(root@, vol@),
        ]);
        assert(views_of(args@) =~= spec_create_args(root@, vol@, opts@));
    }
    args
}

/// Build `zfs snapshot` arguments.
pub fn snapshot_args(snap: &String) -> (r: Vec<String>)
    ensures
        views_of(r@) == spec_snapshot_args(snap@),
{
    let mut args: Vec<String> = Vec::new();
    args.push(String::from_str("snapshot"));
    args.push(snap.clone());
    proof {
        assert(views_of(args@) =~= spec_snapshot_args(snap@));
    }
    args
}

/// Build `zfs clone` arguments.
pub fn clone_args(root: &str, vol: &str, opts: &VolumeOptions, snap: &String) -> (r: Vec<String>)
    ensures
        views_of(r@) == spec_clone_args(root@, vol@, opts@, snap@),
{
    let mut args: Vec<String> = Vec::new();
    args.push(String::from_str("clone"));
    let ghost v1 = views_of(args@);
    property_args(&mut args, opts);
    let ghost v2 = views_of(args@);
    args.push(String::from_str("-o"));
    args.push(String::from_str("mountpoint=none"));
    args.push(snap.clone());
    args.push(dataset_path(root, vol));
    proof {
        assert(v1 =~= seq!["clone"@]);
        assert(v2 == v1 + spec_property_args(opts@));
        assert(views_of(args@) =~= v2 + seq![
            "-o"@,
            "mountpoint=none"@,
            snap@,
            spec_dataset_path(root@, vol@),
        ]);
        assert(views_of(args@) =~= spec_clone_args(root@, vol@, opts@, snap@));
    }
    args
}

/// Build `zfs destroy -d` arguments for a clone's source snapshot.
pub fn defer_destroy_args(snap: &String) -> (r: Vec<String>)
    ensures
        views_of(r@) == spec_defer_destroy_args(snap@),
{
    let mut args: Vec<String> = Vec::new();
    args.push(String::from_str("destroy"));
    args.push(String::from_str("-d"));
    args.push(snap.clone());
    proof {
        assert(views_of(args@) =~= spec_defer_destroy_args(snap@));
    }
    args
}

/// Build `zfs destroy -r` arguments.
pub fn destroy_args(root: &str, vol: &str) -> (r: Vec<String>)
    ensures
        views_of(r@) == spec_destroy_args(root@, vol@),
{
    let mut args: Vec<String> = Vec::new();
    args.push(String::from_str("destroy"));
    args.push(String::from_str("-r"));
    args.push(dataset_path(root, vol));
    proof {
        assert(views_of(args@) =~= spec_destroy_args(root@, vol@));
    }
    args
}

/// Build `zfs set mountpoint=<path>` arguments.
pub fn set_mountpoint_args(dataset: &String, mountpoint: &String) -> (r: Vec<String>)
    ensures
        views_of(r@) == spec_set_mountpoint_args(dataset@, mountpoint@),
{
    let mut args: Vec<String> = Vec::new();
    args.push(String::from_str("set"));
    args.push(keyval("mountpoint", mountpoint.as_str()));
    args.push(dataset.clone());
    proof {
        assert(views_of(args@) =~= spec_set_mountpoint_args(dataset@, mountpoint@));
    }
    args
}

/// Build `zfs set mountpoint=none` arguments.
pub fn clear_mountpoint_args(dataset: &String) -> (r: Vec<String>)
    ensures
        views_of(r@) == spec_clear_mountpoint_args(dataset@),
{
    let mut args: Vec<String> = Vec::new();
    args.push(String::from_str("set"));
    args.push(String::from_str("mountpoint=none"));
    args.push(dataset.clone());
    proof {
        assert(views_of(args@) =~= spec_clear_mountpoint_args(dataset@));
    }
    args
}

/// Build `zfs get mountpoint` arguments.
pub fn get_mountpoint_args(dataset: &String) -> (r: Vec<String>)
    ensures
        views_of(r@) == spec_get_mountpoint_args(dataset@),
{
    let mut args: Vec<String> = Vec::new();
    args.push(String::from_str("get"));
    args.push(String::from_str("mountpoint"));
    args.push(String::from_str("-H"));
    args.push(String::from_str("-o"));
    args.push(String::from_str("value"));
    args.push(dataset.clone());
    proof {
        assert(views_of(args@) =~= spec_get_mountpoint_args(dataset@));
    }
    args
}

/// Build `zfs list` arguments for the whole root.
pub fn list_args(root: &String) -> (r: Vec<String>)
    ensures
        views_of(r@) == spec_list_args(root@),
{
    let mut args: Vec<String> = Vec::new();
    args.push(String::from_str("list"));
    args.push(String::from_str("-H"));
    args.push(String::from_str("-p"));
    args.push(String::from_str("-r"));
    args.push(String::from_str("-o"));
    args.push(String::from_str("name,mountpoint,creation,used,avail"));
    args.push(root.clone());
    proof {
        assert(views_of(args@) =~= spec_list_args(root@));
    }
    args
}

/// Build `zfs list` arguments for one dataset.
pub fn inspect_args(root: &str, vol: &str) -> (r: Vec<String>)
    ensures
        views_of(r@) == spec_inspect_args(root@, vol@),
{
    let mut args: Vec<String> = Vec::new();
    args.push(String::from_str("list"));
    args.push(String::from_str("-H"));
    args.push(String::from_str("-p"));
    args.push(String::from_str("-o"));
    args.push(String::from_str("name,mountpoint,creation,used,avail"));
    args.push(dataset_path(root, vol));
    proof {
        assert(views_of(args@) =~= spec_inspect_args(root@, vol@));
    }
    args
}

/// Whether an invocation runs elevated: only when the operation asks
/// for it and the driver is not already root.
pub open spec fn spec_elevate(wants_root: bool, uid: u32) -> bool {
    wants_root && uid != 0
}

/// Decide elevation from the effective user ID.
pub fn elevate(wants_root: bool, uid: u32) -> (r: bool)
    ensures
        r == spec_elevate(wants_root, uid),
{
    wants_root && uid != 0
}

/// Relies on `users::get_effective_uid`: the effective user ID of
/// this process.
#[verifier::external_body]
pub fn effective_uid() -> u32 {
    users::get_effective_uid()
}

/// Relies on `users::get_effective_username`: the name of the
/// effective user, when the system knows one.
#[verifier::external_body]
fn effective_username() -> Option<String> {
    users::get_effective_username().map(|s| s.to_string_lossy().into_owned())
}

/// Relies on `users::get_effective_gid`: the effective group ID of
/// this process.
#[verifier::external_body]
fn effective_gid() -> u32 {
    users::get_effective_gid()
}

/// Relies on `users::get_effective_groupname`: the name of the
/// effective group, when the system knows one.
#[verifier::external_body]
fn effective_groupname() -> Option<String> {
    users::get_effective_groupname().map(|s| s.to_string_lossy().into_owned())
}

/// `<user>:<group>` for the ownership fix-up after create: the
/// effective user and group by name, or by number when nameless.
pub fn chown_owner() -> (r: String)
    ensures
        exists|u: Seq<char>, g: Seq<char>| r@ == u + ":"@ + g,
{
    let user = match effective_username() {
        Some(u) => u,
        None => dec_string_u64(effective_uid() as u64),
    };
    let group = match effective_groupname() {
        Some(g) => g,
        None => dec_string_u64(effective_gid() as u64),
    };
    let mut s = user;
    let ghost u = s@;
    s.append(":");
    s.append(group.as_str());
    proof {
        assert(s@ == u + ":"@ + group@);
    }
    s
}

/// The pool tool's hint that a filesystem was created but can only be
/// mounted by root; such a create counts as a success.
pub open spec fn mount_hint() -> Seq<char> {
    "filesystem successfully created, but it may only be mounted by root"@
}

/// The pool tool's message for creating something that is already
/// there; on the clone path this makes the create idempotent.
pub open spec fn already_exists_msg() -> Seq<char> {
    "dataset already exists"@
}

/// The pool tool's message for a missing dataset; the existence probe
/// reads it as `absent`.
pub open spec fn does_not_exist_msg() -> Seq<char> {
    "dataset does not exist"@
}

/// Does the stderr carry the tolerated mounted-by-root hint?
pub fn is_mount_hint(stderr: &str) -> (r: bool)
    ensures
        r == has_substring(stderr@, mount_hint()),
{
    contains_str(stderr, "filesystem successfully created, but it may only be mounted by root")
}

/// Does the stderr say the dataset already exists?
pub fn is_already_exists(stderr: &str) -> (r: bool)
    ensures
        r == has_substring(stderr@, already_exists_msg()),
{
    contains_str(stderr, "dataset already exists")
}

/// Does the stderr say the dataset does not exist?
pub fn is_does_not_exist(stderr: &str) -> (r: bool)
    ensures
        r == has_substring(stderr@, does_not_exist_msg()),
{
    contains_str(stderr, "dataset does not exist")
}

/// What a `get mountpoint` output denotes: its first line, with
/// `none` and the empty string meaning that there is no mountpoint.
pub open spec fn spec_mountpoint_of_output(out: Seq<char>) -> Option<Seq<char>> {
    crate::dataset::mp_model(crate::dataset::split_on(out, '\n')[0])
}

/// Read a mountpoint off a `get mountpoint -H -o value` output.
pub fn mountpoint_of_output(out: &str) -> (r: Option<String>)
    ensures
        match r {
            Some(m) => spec_mountpoint_of_output(out@) == Some(m@),
            None => spec_mountpoint_of_output(out@) is None,
        },
{
    let n = out.unicode_len();
    let end = match crate::dataset::find_char(out, 0, '\n') {
        Some(i) => i,
        None => n,
    };
    let line = String::from_str(out.substring_char(0, end));
    proof {
        let ls = crate::dataset::split_on(out@, '\n');
        if end == n {
            crate::dataset::lemma_first_index_absent(out@, '\n');
            assert(ls[0] == out@);
            assert(line@ =~= out@);
        } else {
            crate::dataset::lemma_first_index_is(out@, '\n', end as int);
            assert(ls[0] == out@.take(end as int));
            assert(line@ =~= out@.take(end as int));
        }
        assert(line@ == ls[0]);
    }
    let none_lit = String::from_str("none");
    if line == none_lit || line.as_str().is_empty() {
        None
    } else {
        Some(line)
    }
}

} // verus!
