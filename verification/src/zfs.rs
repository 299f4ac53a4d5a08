//! The volume lifecycle state machine.
//!
//! Every engine request becomes a short sequence of pool CLI
//! invocations with decisions in between. The driver cannot run
//! subprocesses itself, so each operation is a small machine: a
//! `start` function hands out the first [`PoolRequest`], the caller
//! performs it and feeds the [`PoolOutcome`] back to the `next`
//! function, which hands out the next request or finishes. All
//! decisions — sanitisation, argument building, tolerated stderr,
//! ownership ref-counting — are made and verified here.

use crate::api::{
    CreateRequest, GetRequest, GetResponse, ListResponse, MountRequest, MountResponse, PathRequest,
    PathResponse, RemoveRequest, UnmountRequest, Volume,
};
use crate::dataset::{
    base_name, base_name_str, models_of, parse_inspect, parse_list, spec_parse_inspect,
    spec_parse_list, Dataset, DatasetModel,
};
use crate::mounts::{views_of, MountTable};
use crate::names::{sanitised, sanitize_vol};
use crate::numbers::dec_string_u128;
use crate::options::{parse_options, spec_parse_options, OptsOutcome, VolumeOptions};
use crate::pool::{
    clear_mountpoint_args, chown_owner, create_args, clone_args, dataset_path, defer_destroy_args,
    destroy_args, effective_uid, elevate, get_mountpoint_args, inspect_args, is_already_exists,
    is_does_not_exist, is_mount_hint, list_args, mountpoint_of_output, mount_hint,
    already_exists_msg, does_not_exist_msg, set_mountpoint_args, snapshot_args, snapshot_name,
    spec_clear_mountpoint_args, spec_clone_args, spec_create_args, spec_dataset_path,
    spec_defer_destroy_args, spec_destroy_args, spec_elevate, spec_get_mountpoint_args,
    spec_inspect_args, spec_list_args, spec_mountpoint_of_output, spec_set_mountpoint_args,
    spec_snapshot_args, spec_snapshot_name,
};
use crate::strutil::has_substring;
use vstd::prelude::*;

verus! {

/// An error of the driver, rendered for the engine by
/// [`Error::message`].
pub enum Error {
    /// A subprocess could not be run at all.
    CmdIoError { command: String, message: String },
    /// A subprocess exited non-zero with unexpected stderr.
    CmdError { command: String, stderr: String },
    /// The pool tool's output was not in the expected shape.
    CmdOutputParseError,
    /// The options map did not parse.
    VolumeOptionsError { message: String },
    /// A mountpoint was asked for but the pool reports none.
    NoMountpoint { subject: String },
    /// The volume is still held mounted by callers.
    VolumeInUse { name: String, owners: Vec<String> },
}

/// One unit of outside work the driver asks for.
pub enum PoolRequest {
    /// Run the pool CLI with these arguments, elevated when `sudo`.
    Zfs { sudo: bool, args: Vec<String> },
    /// Change the owner of a path to `owner` (a `user:group` string),
    /// elevated.
    Chown { owner: String, path: String },
    /// Restrict a path to mode `0750`.
    SetPermissions { path: String },
}

/// What came back from one unit of outside work.
pub enum PoolOutcome {
    /// Exit status zero; the captured stdout.
    Success { stdout: String },
    /// A non-zero exit: the rendered command and its stderr.
    Failure { command: String, stderr: String },
    /// The work could not be performed at all.
    IoFailure { command: String, message: String },
}

/// Either one more request with the state to resume at, or the
/// operation's result.
pub enum Step<S, T> {
    Pending(PoolRequest, S),
    Done(Result<T, Error>),
}

/// The request is an invocation of the pool CLI with exactly these
/// arguments and this elevation.
pub open spec fn is_zfs_req(req: PoolRequest, sudo: bool, args: Seq<Seq<char>>) -> bool {
    match req {
        PoolRequest::Zfs { sudo: s, args: a } => s == sudo && views_of(a@) == args,
        _ => false,
    }
}

/// The step finishes with the command error for this failure.
pub open spec fn step_is_cmd_error<S, T>(r: Step<S, T>, command: Seq<char>, stderr: Seq<char>) -> bool {
    match r {
        Step::Done(Err(Error::CmdError { command: c, stderr: e })) => c@ == command && e@ == stderr,
        _ => false,
    }
}

/// The step finishes with the spawn error for this failure.
pub open spec fn step_is_cmd_io_error<S, T>(
    r: Step<S, T>,
    command: Seq<char>,
    message: Seq<char>,
) -> bool {
    match r {
        Step::Done(Err(Error::CmdIoError { command: c, message: m })) => c@ == command && m@
            == message,
        _ => false,
    }
}

/// A failed outcome finishes the operation with the matching error.
pub open spec fn fails_like_outcome<S, T>(outcome: PoolOutcome, r: Step<S, T>) -> bool {
    match outcome {
        PoolOutcome::Failure { command, stderr } => step_is_cmd_error(r, command@, stderr@),
        PoolOutcome::IoFailure { command, message } => step_is_cmd_io_error(r, command@, message@),
        PoolOutcome::Success { .. } => true,
    }
}

/// Map a failed outcome to its error. Callers handle tolerated
/// stderr patterns before resorting to this.
fn outcome_error<S, T>(outcome: PoolOutcome) -> (r: Step<S, T>)
    requires
        !(outcome is Success),
    ensures
        fails_like_outcome(outcome, r),
        r is Done,
{
    match outcome {
        PoolOutcome::Failure { command, stderr } => Step::Done(
            Err(Error::CmdError { command, stderr }),
        ),
        PoolOutcome::IoFailure { command, message } => Step::Done(
            Err(Error::CmdIoError { command, message }),
        ),
        PoolOutcome::Success { stdout } => Step::Done(Err(Error::CmdOutputParseError)),
    }
}

// ----------------------------------------------------------------------
// The model behind the mount/unmount laws: one volume's pool state is
// a mounted bit, the driver's record of it an ownership set.
// ----------------------------------------------------------------------

/// One volume, as mount and unmount see it: whether its mountpoint is
/// set, and who holds it.
pub struct VolumeModel {
    pub mounted: bool,
    pub owners: Set<Seq<char>>,
}

/// The ownership set after a mount by `c`: mounting twice adds the
/// caller once.
pub open spec fn owners_after_mount(o: Set<Seq<char>>, c: Seq<char>) -> Set<Seq<char>> {
    o.insert(c)
}

/// The ownership set after an unmount by `c`; a caller that never
/// mounted is not there to begin with.
pub open spec fn owners_after_unmount(o: Set<Seq<char>>, c: Seq<char>) -> Set<Seq<char>> {
    o.remove(c)
}

/// A mount sets the mountpoint and records the caller.
pub open spec fn apply_mount(m: VolumeModel, c: Seq<char>) -> VolumeModel {
    VolumeModel { mounted: true, owners: owners_after_mount(m.owners, c) }
}

/// An unmount drops the caller and clears the mountpoint exactly when
/// the ownership set empties.
pub open spec fn apply_unmount(m: VolumeModel, c: Seq<char>) -> VolumeModel {
    let o = owners_after_unmount(m.owners, c);
    VolumeModel {
        mounted: if o.is_empty() {
            false
        } else {
            m.mounted
        },
        owners: o,
    }
}

/// A mount or unmount of one volume by one caller.
pub enum MountEvent {
    Mount(Seq<char>),
    Unmount(Seq<char>),
}

pub open spec fn apply_event(m: VolumeModel, e: MountEvent) -> VolumeModel {
    match e {
        MountEvent::Mount(c) => apply_mount(m, c),
        MountEvent::Unmount(c) => apply_unmount(m, c),
    }
}

pub open spec fn run_events(m: VolumeModel, evs: Seq<MountEvent>) -> VolumeModel
    decreases evs.len(),
{
    if evs.len() == 0 {
        m
    } else {
        run_events(apply_event(m, evs[0]), evs.drop_first())
    }
}

/// Whether `c` holds the volume after the events, starting from
/// `held0`: the last event that touches `c` decides.
pub open spec fn holds_after(held0: bool, evs: Seq<MountEvent>, c: Seq<char>) -> bool
    decreases evs.len(),
{
    if evs.len() == 0 {
        held0
    } else {
        let held = match evs[0] {
            MountEvent::Mount(d) => if d == c {
                true
            } else {
                held0
            },
            MountEvent::Unmount(d) => if d == c {
                false
            } else {
                held0
            },
        };
        holds_after(held, evs.drop_first(), c)
    }
}

/// The mountpoint is set exactly while somebody holds the volume;
/// every interleaving of mounts and unmounts keeps it that way.
pub proof fn lemma_mounted_iff_held(m: VolumeModel, evs: Seq<MountEvent>)
    requires
        m.mounted <==> !m.owners.is_empty(),
    ensures
        run_events(m, evs).mounted <==> !run_events(m, evs).owners.is_empty(),
    decreases evs.len(),
{
    if evs.len() > 0 {
        let m2 = apply_event(m, evs[0]);
        match evs[0] {
            MountEvent::Mount(c) => {
                assert(m2.owners.contains(c));
                assert(!m2.owners.is_empty());
            },
            MountEvent::Unmount(c) => {
                if !m2.owners.is_empty() {
                    let w = m2.owners.choose();
                    assert(m2.owners.contains(w));
                    assert(m.owners.contains(w));
                    assert(!m.owners.is_empty());
                }
            },
        }
        lemma_mounted_iff_held(m2, evs.drop_first());
    }
}

/// A caller holds the volume after the events exactly as the events
/// say: its own last mount or unmount decides.
pub proof fn lemma_owner_membership(m: VolumeModel, evs: Seq<MountEvent>, c: Seq<char>)
    ensures
        run_events(m, evs).owners.contains(c) == holds_after(m.owners.contains(c), evs, c),
    decreases evs.len(),
{
    if evs.len() > 0 {
        let m2 = apply_event(m, evs[0]);
        match evs[0] {
            MountEvent::Mount(d) => {
                assert(m2.owners.contains(c) == (m.owners.contains(c) || c == d));
            },
            MountEvent::Unmount(d) => {
                assert(m2.owners.contains(c) == (m.owners.contains(c) && c != d));
            },
        }
        lemma_owner_membership(m2, evs.drop_first(), c);
    }
}

/// Ref-counted mounting, kept side: after any interleaving of mounts
/// and unmounts, if some caller has mounted and not unmounted since,
/// the mountpoint is still set.
pub proof fn lemma_refcount_keeps_mountpoint(m: VolumeModel, evs: Seq<MountEvent>, c: Seq<char>)
    requires
        m.mounted <==> !m.owners.is_empty(),
        holds_after(m.owners.contains(c), evs, c),
    ensures
        run_events(m, evs).mounted,
{
    lemma_owner_membership(m, evs, c);
    assert(run_events(m, evs).owners.contains(c));
    assert(!run_events(m, evs).owners.is_empty());
    lemma_mounted_iff_held(m, evs);
}

/// Ref-counted mounting, cleared side: once no caller holds the
/// volume any more — the final unmount included — the mountpoint is
/// cleared.
pub proof fn lemma_refcount_clears_mountpoint(m: VolumeModel, evs: Seq<MountEvent>)
    requires
        m.mounted <==> !m.owners.is_empty(),
        forall|c: Seq<char>| !holds_after(m.owners.contains(c), evs, c),
    ensures
        !run_events(m, evs).mounted,
{
    let after = run_events(m, evs);
    assert forall|c: Seq<char>| !(#[trigger] after.owners.contains(c)) by {
        lemma_owner_membership(m, evs, c);
    }
    assert(after.owners =~= Set::<Seq<char>>::empty());
    lemma_mounted_iff_held(m, evs);
}

/// The pool's dataset set after a create of `dataset`: a create of a
/// dataset that is already present is a successful no-op.
pub open spec fn pool_after_create(pool: Set<Seq<char>>, dataset: Seq<char>) -> Set<Seq<char>> {
    pool.insert(dataset)
}

/// Idempotent create: creating the same dataset twice leaves the pool
/// exactly as creating it once does — one dataset under that name —
/// and both creates succeed (the second is a no-op; see
/// [`Zfs::create_next`], which finishes successfully without issuing
/// any pool mutation when the existence probe answers).
pub proof fn lemma_create_idempotent(pool: Set<Seq<char>>, dataset: Seq<char>)
    ensures
        pool_after_create(pool_after_create(pool, dataset), dataset) == pool_after_create(
            pool,
            dataset,
        ),
        pool_after_create(pool, dataset).contains(dataset),
{
    assert(pool_after_create(pool_after_create(pool, dataset), dataset) =~= pool_after_create(
        pool,
        dataset,
    ));
}

// ----------------------------------------------------------------------
// The driver.
// ----------------------------------------------------------------------

/// The volume driver over one root dataset of the pool.
pub struct Zfs {
    /// The root dataset; every volume is `<root>/<sanitised name>`.
    root: String,
    /// The effective user ID, read once: it decides whether mountpoint
    /// mutation needs elevation.
    uid: u32,
    /// Who holds which volume mounted.
    mounts: MountTable,
}

/// The state of a mount operation between pool invocations.
pub enum MountState {
    /// Awaiting the root dataset's mountpoint.
    RootMp { name: String, caller: String },
    /// Awaiting `set mountpoint`.
    SetMp { name: String, caller: String },
    /// Awaiting the read-back of the volume's mountpoint.
    ReadBack { name: String, caller: String },
}

/// The state of an unmount operation: awaiting `set mountpoint=none`.
pub struct UnmountState {
    pub name: String,
}

/// The state of a remove operation: awaiting `destroy -r`.
pub struct RemoveState {
    pub name: String,
}

/// The state of a path operation: awaiting `get mountpoint`.
pub struct PathState {
    pub name: String,
}

impl Zfs {
    pub closed spec fn spec_root(&self) -> Seq<char> {
        self.root@
    }

    pub closed spec fn spec_uid(&self) -> u32 {
        self.uid
    }

    /// The ownership set recorded for a (sanitised) volume name.
    pub closed spec fn owners(&self, name: Seq<char>) -> Set<Seq<char>> {
        self.mounts.owners(name)
    }

    pub closed spec fn wf(&self) -> bool {
        self.mounts.wf()
    }

    /// A driver over `root` with an empty ownership table.
    pub fn new(root: String) -> (z: Zfs)
        ensures
            z.wf(),
            z.spec_root() == root@,
            forall|n: Seq<char>| #[trigger] z.owners(n) == Set::<Seq<char>>::empty(),
    {
        Zfs { root, uid: effective_uid(), mounts: MountTable::new() }
    }

    /// Begin mounting: first read the root dataset's mountpoint.
    pub fn mount_start(&self, rq: MountRequest) -> (r: (PoolRequest, MountState))
        ensures
            is_zfs_req(r.0, false, spec_get_mountpoint_args(self.spec_root())),
            r.1 matches MountState::RootMp { name, caller } && name@ == sanitised(rq.name@)
                && caller@ == rq.id@,
    {
        let name = sanitize_vol(rq.name.as_str());
        let req = PoolRequest::Zfs { sudo: false, args: get_mountpoint_args(&self.root) };
        (req, MountState::RootMp { name, caller: rq.id })
    }

    /// Continue a mount with the outcome of the pending invocation.
    ///
    /// The pool is touched before the ownership table: the caller is
    /// recorded only once the volume's mountpoint has been set and
    /// read back, so a CLI failure leaves no stale owner.
    pub fn mount_next(&mut self, st: MountState, outcome: PoolOutcome) -> (r: Step<
        MountState,
        MountResponse,
    >)
        requires
            old(self).wf(),
        ensures
            final (self).wf(),
            final (self).spec_root() == old(self).spec_root(),
            final (self).spec_uid() == old(self).spec_uid(),
            match st {
                MountState::RootMp { name, caller } => {
                    &&& forall|n: Seq<char>| #[trigger]
                        final (self).owners(n) == old(self).owners(n)
                    &&& match outcome {
                        PoolOutcome::Success { stdout } => match spec_mountpoint_of_output(
                            stdout@,
                        ) {
                            Some(mp) => match r {
                                Step::Pending(req, st2) => {
                                    &&& is_zfs_req(
                                        req,
                                        spec_elevate(true, old(self).spec_uid()),
                                        spec_set_mountpoint_args(
                                            spec_dataset_path(old(self).spec_root(), name@),
                                            mp + "/"@ + name@,
                                        ),
                                    )
                                    &&& st2 matches MountState::SetMp { name: n2, caller: c2 }
                                        && n2@ == name@ && c2@ == caller@
                                },
                                _ => false,
                            },
                            None => match r {
                                Step::Done(Err(Error::NoMountpoint { subject })) => subject@ == old(
                                    self,
                                ).spec_root(),
                                _ => false,
                            },
                        },
                        _ => fails_like_outcome(outcome, r) && r is Done,
                    }
                },
                MountState::SetMp { name, caller } => {
                    &&& forall|n: Seq<char>| #[trigger]
                        final (self).owners(n) == old(self).owners(n)
                    &&& match outcome {
                        PoolOutcome::Success { .. } => match r {
                            Step::Pending(req, st2) => {
                                &&& is_zfs_req(
                                    req,
                                    false,
                                    spec_get_mountpoint_args(
                                        spec_dataset_path(old(self).spec_root(), name@),
                                    ),
                                )
                                &&& st2 matches MountState::ReadBack { name: n2, caller: c2 }
                                    && n2@ == name@ && c2@ == caller@
                            },
                            _ => false,
                        },
                        _ => fails_like_outcome(outcome, r) && r is Done,
                    }
                },
                MountState::ReadBack { name, caller } => match outcome {
                    PoolOutcome::Success { stdout } => match spec_mountpoint_of_output(stdout@) {
                        Some(mp) => {
                            &&& final (self).owners(name@) == owners_after_mount(
                                old(self).owners(name@),
                                caller@,
                            )
                            &&& forall|n: Seq<char>|
                                n != name@ ==> #[trigger] final (self).owners(n) == old(
                                    self,
                                ).owners(n)
                            &&& match r {
                                Step::Done(Ok(resp)) => resp.mountpoint@ == mp,
                                _ => false,
                            }
                        },
                        None => {
                            &&& forall|n: Seq<char>| #[trigger]
                                final (self).owners(n) == old(self).owners(n)
                            &&& match r {
                                Step::Done(Err(Error::NoMountpoint { subject })) => subject@
                                    == name@,
                                _ => false,
                            }
                        },
                    },
                    _ => fails_like_outcome(outcome, r) && r is Done && forall|n: Seq<char>|
                        #[trigger] final (self).owners(n) == old(self).owners(n),
                },
            },
    {
        match st {
            MountState::RootMp { name, caller } => match outcome {
                PoolOutcome::Success { stdout } => match mountpoint_of_output(stdout.as_str()) {
                    Some(root_mp) => {
                        let mountpoint = dataset_path(root_mp.as_str(), name.as_str());
                        let dataset = dataset_path(self.root.as_str(), name.as_str());
                        let req = PoolRequest::Zfs {
                            sudo: elevate(true, self.uid),
                            args: set_mountpoint_args(&dataset, &mountpoint),
                        };
                        Step::Pending(req, MountState::SetMp { name, caller })
                    },
                    None => Step::Done(Err(Error::NoMountpoint { subject: self.root.clone() })),
                },
                _ => outcome_error(outcome),
            },
            MountState::SetMp { name, caller } => match outcome {
                PoolOutcome::Success { .. } => {
                    let dataset = dataset_path(self.root.as_str(), name.as_str());
                    let req = PoolRequest::Zfs {
                        sudo: false,
                        args: get_mountpoint_args(&dataset),
                    };
                    Step::Pending(req, MountState::ReadBack { name, caller })
                },
                _ => outcome_error(outcome),
            },
            MountState::ReadBack { name, caller } => match outcome {
                PoolOutcome::Success { stdout } => match mountpoint_of_output(stdout.as_str()) {
                    Some(mp) => {
                        self.mounts.add(&name, &caller);
                        Step::Done(Ok(MountResponse { mountpoint: mp }))
                    },
                    None => Step::Done(Err(Error::NoMountpoint { subject: name })),
                },
                _ => outcome_error(outcome),
            },
        }
    }

    /// Begin unmounting: drop the caller from the ownership set, and
    /// clear the volume's mountpoint exactly when the set empties.
    ///
    /// The table is touched before the pool, so a failure to clear
    /// the mountpoint cannot strand a caller on a vanished volume;
    /// an unmount by a caller that never mounted succeeds as a no-op.
    pub fn unmount_start(&mut self, rq: UnmountRequest) -> (r: Step<UnmountState, ()>)
        requires
            old(self).wf(),
        ensures
            final (self).wf(),
            final (self).spec_root() == old(self).spec_root(),
            final (self).spec_uid() == old(self).spec_uid(),
            final (self).owners(sanitised(rq.name@)) == owners_after_unmount(
                old(self).owners(sanitised(rq.name@)),
                rq.id@,
            ),
            forall|n: Seq<char>|
                n != sanitised(rq.name@) ==> #[trigger] final (self).owners(n) == old(self).owners(
                    n,
                ),
            if owners_after_unmount(old(self).owners(sanitised(rq.name@)), rq.id@).is_empty() {
                match r {
                    Step::Pending(req, st2) => is_zfs_req(
                        req,
                        spec_elevate(true, old(self).spec_uid()),
                        spec_clear_mountpoint_args(
                            spec_dataset_path(old(self).spec_root(), sanitised(rq.name@)),
                        ),
                    ) && st2.name@ == sanitised(rq.name@),
                    _ => false,
                }
            } else {
                r matches Step::Done(Ok(..))
            },
    {
        let name = sanitize_vol(rq.name.as_str());
        self.mounts.remove(&name, &rq.id);
        if self.mounts.is_empty(&name) {
            let dataset = dataset_path(self.root.as_str(), name.as_str());
            let req = PoolRequest::Zfs {
                sudo: elevate(true, self.uid),
                args: clear_mountpoint_args(&dataset),
            };
            Step::Pending(req, UnmountState { name })
        } else {
            Step::Done(Ok(()))
        }
    }

    /// Finish an unmount with the outcome of the mountpoint clear.
    pub fn unmount_next(&self, st: UnmountState, outcome: PoolOutcome) -> (r: Step<
        UnmountState,
        (),
    >)
        ensures
            r is Done,
            match outcome {
                PoolOutcome::Success { .. } => r matches Step::Done(Ok(..)),
                _ => fails_like_outcome(outcome, r),
            },
    {
        match outcome {
            PoolOutcome::Success { .. } => Step::Done(Ok(())),
            _ => outcome_error(outcome),
        }
    }

    /// Begin removing. A volume with a non-empty ownership set is
    /// refused outright — no pool request is issued, so the dataset
    /// stays — with an error naming the callers that hold it.
    pub fn remove_start(&self, rq: RemoveRequest) -> (r: Step<RemoveState, ()>)
        requires
            self.wf(),
        ensures
            if self.owners(sanitised(rq.name@)).is_empty() {
                match r {
                    Step::Pending(req, st2) => is_zfs_req(
                        req,
                        false,
                        spec_destroy_args(self.spec_root(), sanitised(rq.name@)),
                    ) && st2.name@ == sanitised(rq.name@),
                    _ => false,
                }
            } else {
                match r {
                    Step::Done(Err(Error::VolumeInUse { name, owners })) => name@ == rq.name@
                        && views_of(owners@).to_set() == self.owners(sanitised(rq.name@)),
                    _ => false,
                }
            },
    {
        let name = sanitize_vol(rq.name.as_str());
        if self.mounts.is_empty(&name) {
            let req = PoolRequest::Zfs {
                sudo: false,
                args: destroy_args(self.root.as_str(), name.as_str()),
            };
            Step::Pending(req, RemoveState { name })
        } else {
            let owners = self.mounts.owners_list(&name);
            Step::Done(Err(Error::VolumeInUse { name: rq.name, owners }))
        }
    }

    /// Finish a remove with the outcome of the destroy. Destroying a
    /// volume that does not exist is an error, surfaced as the pool
    /// reports it.
    pub fn remove_next(&self, st: RemoveState, outcome: PoolOutcome) -> (r: Step<RemoveState, ()>)
        ensures
            r is Done,
            match outcome {
                PoolOutcome::Success { .. } => r matches Step::Done(Ok(..)),
                _ => fails_like_outcome(outcome, r),
            },
    {
        match outcome {
            PoolOutcome::Success { .. } => Step::Done(Ok(())),
            _ => outcome_error(outcome),
        }
    }

    /// Begin a path query: read the volume's mountpoint property.
    pub fn path_start(&self, rq: PathRequest) -> (r: (PoolRequest, PathState))
        ensures
            is_zfs_req(
                r.0,
                false,
                spec_get_mountpoint_args(spec_dataset_path(self.spec_root(), sanitised(rq.name@))),
            ),
            r.1.name@ == sanitised(rq.name@),
    {
        let name = sanitize_vol(rq.name.as_str());
        let dataset = dataset_path(self.root.as_str(), name.as_str());
        let req = PoolRequest::Zfs { sudo: false, args: get_mountpoint_args(&dataset) };
        (req, PathState { name })
    }

    /// Finish a path query: a pool answer of `none` or nothing is the
    /// `NoMountpoint` error, naming the volume.
    pub fn path_next(&self, st: PathState, outcome: PoolOutcome) -> (r: Step<PathState, PathResponse>)
        ensures
            r is Done,
            match outcome {
                PoolOutcome::Success { stdout } => match spec_mountpoint_of_output(stdout@) {
                    Some(mp) => match r {
                        Step::Done(Ok(resp)) => resp.mountpoint@ == mp,
                        _ => false,
                    },
                    None => match r {
                        Step::Done(Err(Error::NoMountpoint { subject })) => subject@ == st.name@,
                        _ => false,
                    },
                },
                _ => fails_like_outcome(outcome, r),
            },
    {
        match outcome {
            PoolOutcome::Success { stdout } => match mountpoint_of_output(stdout.as_str()) {
                Some(mp) => Step::Done(Ok(PathResponse { mountpoint: mp })),
                None => Step::Done(Err(Error::NoMountpoint { subject: st.name })),
            },
            _ => outcome_error(outcome),
        }
    }
}

/// The state of a get operation: awaiting the single-record listing.
pub struct GetState {
    pub name: String,
}

/// The state of a list operation: awaiting the full listing.
pub struct ListState {}

/// `v` is dataset `dm` as shown to the engine: the name stripped to
/// its last path component, the creation time carried over, no
/// status.
pub open spec fn volume_of_model(v: Volume, dm: DatasetModel) -> bool {
    &&& v.name@ == base_name(dm.name)
    &&& match (v.mountpoint, dm.mountpoint) {
        (Some(a), Some(b)) => a@ == b,
        (None, None) => true,
        _ => false,
    }
    &&& v.created_at == Some(dm.creation)
    &&& v.status is None
}

/// Show a dataset record to the engine.
fn to_volume(ds: Dataset) -> (v: Volume)
    ensures
        volume_of_model(v, ds@),
{
    Volume {
        name: base_name_str(ds.name.as_str()),
        mountpoint: ds.mountpoint,
        created_at: Some(ds.creation),
        status: None,
    }
}

/// The error produced for this failed outcome.
pub open spec fn error_like_outcome(outcome: PoolOutcome, e: Error) -> bool {
    match outcome {
        PoolOutcome::Failure { command, stderr } => match e {
            Error::CmdError { command: c, stderr: s } => c@ == command@ && s@ == stderr@,
            _ => false,
        },
        PoolOutcome::IoFailure { command, message } => match e {
            Error::CmdIoError { command: c, message: m } => c@ == command@ && m@ == message@,
            _ => false,
        },
        PoolOutcome::Success { .. } => false,
    }
}

fn outcome_to_error(outcome: PoolOutcome) -> (e: Error)
    requires
        !(outcome is Success),
    ensures
        error_like_outcome(outcome, e),
{
    match outcome {
        PoolOutcome::Failure { command, stderr } => Error::CmdError { command, stderr },
        PoolOutcome::IoFailure { command, message } => Error::CmdIoError { command, message },
        PoolOutcome::Success { stdout } => Error::CmdOutputParseError,
    }
}

/// Relies on `std::time::SystemTime::now` and
/// `SystemTime::duration_since`: the nanoseconds since the UNIX
/// epoch, used only to give each clone snapshot a fresh tag. Nothing
/// is promised of the value.
#[verifier::external_body]
fn unix_nanos() -> u128 {
    std::time::SystemTime::now().duration_since(std::time::SystemTime::UNIX_EPOCH).map(
        |d| d.as_nanos(),
    ).unwrap_or(0)
}

impl Zfs {
    /// Begin a get: list the one dataset.
    pub fn get_start(&self, rq: GetRequest) -> (r: (PoolRequest, GetState))
        ensures
            is_zfs_req(
                r.0,
                false,
                spec_inspect_args(self.spec_root(), sanitised(rq.name@)),
            ),
            r.1.name@ == sanitised(rq.name@),
    {
        let name = sanitize_vol(rq.name.as_str());
        let req = PoolRequest::Zfs {
            sudo: false,
            args: inspect_args(self.root.as_str(), name.as_str()),
        };
        (req, GetState { name })
    }

    /// Finish a get: parse the record and strip the root prefix from
    /// the dataset name.
    pub fn get_next(&self, st: GetState, outcome: PoolOutcome) -> (r: Step<GetState, GetResponse>)
        ensures
            r is Done,
            match outcome {
                PoolOutcome::Success { stdout } => match spec_parse_inspect(stdout@) {
                    Some(dm) => match r {
                        Step::Done(Ok(resp)) => volume_of_model(resp.volume, dm),
                        _ => false,
                    },
                    None => r matches Step::Done(Err(Error::CmdOutputParseError)),
                },
                _ => fails_like_outcome(outcome, r),
            },
    {
        match outcome {
            PoolOutcome::Success { stdout } => match parse_inspect(stdout.as_str()) {
                Some(ds) => Step::Done(Ok(GetResponse { volume: to_volume(ds) })),
                None => Step::Done(Err(Error::CmdOutputParseError)),
            },
            _ => outcome_error(outcome),
        }
    }

    /// Begin a list: list every dataset under the root.
    pub fn list_start(&self) -> (r: (PoolRequest, ListState))
        ensures
            is_zfs_req(r.0, false, spec_list_args(self.spec_root())),
    {
        let req = PoolRequest::Zfs { sudo: false, args: list_args(&self.root) };
        (req, ListState {  })
    }

    /// Finish a list: parse the records — the root's own line is
    /// dropped — and strip the root prefix from each name. An empty
    /// pool lists no volumes.
    pub fn list_next(&self, st: ListState, outcome: PoolOutcome) -> (r: Step<
        ListState,
        ListResponse,
    >)
        ensures
            r is Done,
            match outcome {
                PoolOutcome::Success { stdout } => match spec_parse_list(stdout@) {
                    Some(ms) => match r {
                        Step::Done(Ok(resp)) => resp.volumes@.len() == ms.len() && forall|i: int|
                            0 <= i < ms.len() ==> volume_of_model(
                                #[trigger] resp.volumes@[i],
                                ms[i],
                            ),
                        _ => false,
                    },
                    None => r matches Step::Done(Err(Error::CmdOutputParseError)),
                },
                _ => fails_like_outcome(outcome, r),
            },
    {
        match outcome {
            PoolOutcome::Success { stdout } => match parse_list(stdout.as_str()) {
                Some(mut datasets) => {
                    let ghost ms = models_of(datasets@);
                    let mut volumes: Vec<Volume> = Vec::new();
                    let n = datasets.len();
                    let mut i: usize = 0;
                    while i < n
                        invariant
                            i <= n,
                            n == ms.len(),
                            datasets@.len() == n - i,
                            models_of(datasets@) == ms.skip(i as int),
                            volumes@.len() == i,
                            forall|j: int|
                                0 <= j < i ==> volume_of_model(#[trigger] volumes@[j], ms[j]),
                        decreases n - i,
                    {
                        proof {
                            assert(models_of(datasets@)[0] == datasets@[0]@);
                            assert(ms.skip(i as int)[0] == ms[i as int]);
                        }
                        let ghost prev = datasets@;
                        let d = datasets.remove(0);
                        proof {
                            assert(datasets@ =~= prev.skip(1));
                            assert forall|j: int| 0 <= j < datasets@.len() implies models_of(
                                datasets@,
                            )[j] == ms.skip(i + 1)[j] by {
                                assert(datasets@[j] == prev[j + 1]);
                                assert(models_of(prev)[j + 1] == prev[j + 1]@);
                                assert(models_of(datasets@)[j] == datasets@[j]@);
                                assert(models_of(prev) == ms.skip(i as int));
                                assert(ms.skip(i as int)[j + 1] == ms[i + 1 + j]);
                                assert(ms.skip(i + 1)[j] == ms[i + 1 + j]);
                            }
                            assert(models_of(datasets@) =~= ms.skip(i + 1));
                        }
                        volumes.push(to_volume(d));
                        i += 1;
                    }
                    Step::Done(Ok(ListResponse { volumes }))
                },
                None => Step::Done(Err(Error::CmdOutputParseError)),
            },
            _ => outcome_error(outcome),
        }
    }
}

/// The state of a create operation between pool invocations.
pub enum CreateState {
    /// Awaiting the existence probe (a mountpoint read of the
    /// volume's dataset).
    Probe { name: String, opts: Vec<(String, String)> },
    /// Awaiting `snapshot` of the clone source.
    Snapshot { name: String, vopts: VolumeOptions, snap: String },
    /// Awaiting `clone`.
    CloneFs { name: String, snap: String },
    /// Awaiting the deferred destroy of the source snapshot.
    DeferSnap { name: String },
    /// Awaiting `create`.
    CreateFs { name: String },
    /// Awaiting the root dataset's mountpoint, for the ownership
    /// fix-up.
    RootMp { name: String },
    /// Awaiting `set mountpoint` of the fresh volume.
    SetMp { name: String, mountpoint: String },
    /// Awaiting the `chown` of the mounted volume.
    OwnFix { name: String, mountpoint: String },
    /// Awaiting the permission change to `0750`.
    PermFix { name: String, mountpoint: String },
    /// Awaiting the final `set mountpoint=none`; a failure of the
    /// permission step is carried here and reported once the
    /// mountpoint is cleared.
    ClearMp { name: String, pending: Option<Error> },
}

impl Zfs {
    /// Begin a create: probe whether the dataset already exists.
    pub fn create_start(&self, rq: CreateRequest) -> (r: (PoolRequest, CreateState))
        ensures
            is_zfs_req(
                r.0,
                false,
                spec_get_mountpoint_args(spec_dataset_path(self.spec_root(), sanitised(rq.name@))),
            ),
            r.1 matches CreateState::Probe { name, opts } && name@ == sanitised(rq.name@) && opts@
                == (match rq.options {
                Some(o) => o@,
                None => Seq::<(String, String)>::empty(),
            }),
    {
        let name = sanitize_vol(rq.name.as_str());
        let opts = match rq.options {
            Some(o) => o,
            None => Vec::new(),
        };
        let dataset = dataset_path(self.root.as_str(), name.as_str());
        let req = PoolRequest::Zfs { sudo: false, args: get_mountpoint_args(&dataset) };
        (req, CreateState::Probe { name, opts })
    }

    /// Continue a create with the outcome of the pending invocation.
    ///
    /// A successful probe means the volume already exists: the create
    /// finishes successfully at once, issuing no pool mutation — so a
    /// second create of the same name is a no-op. A probe that fails
    /// with `dataset does not exist` parses the options and creates
    /// the dataset, by `clone` from a freshly tagged snapshot when a
    /// clone source was given, by `create` otherwise; the tolerated
    /// stderr patterns count as success. Then the ownership fix-up
    /// runs: mount, chown, restrict to `0750`, unmount — and a
    /// failure of the permission step is reported only after the
    /// mountpoint is cleared again.
    #[verifier::rlimit(30)]
    pub fn create_next(&self, st: CreateState, outcome: PoolOutcome) -> (r: Step<CreateState, ()>)
        ensures
            match st {
                CreateState::Probe { name, opts } => match outcome {
                    PoolOutcome::Success { .. } => r matches Step::Done(Ok(..)),
                    PoolOutcome::Failure { command, stderr } => {
                        if has_substring(stderr@, does_not_exist_msg()) {
                            match spec_parse_options(opts@) {
                                OptsOutcome::InvalidQuota => match r {
                                    Step::Done(Err(Error::VolumeOptionsError { message })) =>
                                        message@ == "Invalid quota specified"@,
                                    _ => false,
                                },
                                OptsOutcome::QuotaOutOfRange => match r {
                                    Step::Done(Err(Error::VolumeOptionsError { message })) =>
                                        message@ == "Quota out of range"@,
                                    _ => false,
                                },
                                OptsOutcome::Parsed(m) => match m.snapshot_of {
                                    Some(from) => match r {
                                        Step::Pending(req, st2) => match st2 {
                                            CreateState::Snapshot { name: n2, vopts: o2, snap } => {
                                                &&& n2@ == name@
                                                &&& o2@ == m
                                                &&& exists|tag: Seq<char>|
                                                    snap@ == spec_snapshot_name(
                                                        spec_dataset_path(
                                                            self.spec_root(),
                                                            sanitised(from),
                                                        ),
                                                        tag,
                                                    )
                                                &&& is_zfs_req(
                                                    req,
                                                    false,
                                                    spec_snapshot_args(snap@),
                                                )
                                            },
                                            _ => false,
                                        },
                                        _ => false,
                                    },
                                    None => match r {
                                        Step::Pending(req, st2) => st2 matches CreateState::CreateFs
                                            { name: n2 } && n2@ == name@ && is_zfs_req(
                                            req,
                                            false,
                                            spec_create_args(self.spec_root(), name@, m),
                                        ),
                                        _ => false,
                                    },
                                },
                            }
                        } else {
                            fails_like_outcome(outcome, r) && r is Done
                        }
                    },
                    PoolOutcome::IoFailure { .. } => fails_like_outcome(outcome, r) && r is Done,
                },
                CreateState::Snapshot { name, vopts, snap } => match outcome {
                    PoolOutcome::Success { .. } => match r {
                        Step::Pending(req, st2) => st2 matches CreateState::CloneFs {
                            name: n2,
                            snap: s2,
                        } && n2@ == name@ && s2@ == snap@ && is_zfs_req(
                            req,
                            false,
                            spec_clone_args(self.spec_root(), name@, vopts@, snap@),
                        ),
                        _ => false,
                    },
                    _ => fails_like_outcome(outcome, r) && r is Done,
                },
                CreateState::CloneFs { name, snap } => match outcome {
                    PoolOutcome::Success { .. } => create_defers_snapshot(r, name@, snap@),
                    PoolOutcome::Failure { command, stderr } => {
                        if has_substring(stderr@, already_exists_msg()) || has_substring(
                            stderr@,
                            mount_hint(),
                        ) {
                            create_defers_snapshot(r, name@, snap@)
                        } else {
                            fails_like_outcome(outcome, r) && r is Done
                        }
                    },
                    PoolOutcome::IoFailure { .. } => fails_like_outcome(outcome, r) && r is Done,
                },
                CreateState::DeferSnap { name } => match outcome {
                    PoolOutcome::Success { .. } => create_reads_root_mp(self, r, name@),
                    _ => fails_like_outcome(outcome, r) && r is Done,
                },
                CreateState::CreateFs { name } => match outcome {
                    PoolOutcome::Success { .. } => create_reads_root_mp(self, r, name@),
                    PoolOutcome::Failure { command, stderr } => {
                        if has_substring(stderr@, mount_hint()) {
                            create_reads_root_mp(self, r, name@)
                        } else {
                            fails_like_outcome(outcome, r) && r is Done
                        }
                    },
                    PoolOutcome::IoFailure { .. } => fails_like_outcome(outcome, r) && r is Done,
                },
                CreateState::RootMp { name } => match outcome {
                    PoolOutcome::Success { stdout } => match spec_mountpoint_of_output(stdout@) {
                        Some(mp) => match r {
                            Step::Pending(req, st2) => st2 matches CreateState::SetMp {
                                name: n2,
                                mountpoint: m2,
                            } && n2@ == name@ && m2@ == mp + "/"@ + name@ && is_zfs_req(
                                req,
                                spec_elevate(true, self.spec_uid()),
                                spec_set_mountpoint_args(
                                    spec_dataset_path(self.spec_root(), name@),
                                    mp + "/"@ + name@,
                                ),
                            ),
                            _ => false,
                        },
                        None => match r {
                            Step::Done(Err(Error::NoMountpoint { subject })) => subject@
                                == self.spec_root(),
                            _ => false,
                        },
                    },
                    _ => fails_like_outcome(outcome, r) && r is Done,
                },
                CreateState::SetMp { name, mountpoint } => match outcome {
                    PoolOutcome::Success { .. } => match r {
                        Step::Pending(req, st2) => st2 matches CreateState::OwnFix {
                            name: n2,
                            mountpoint: m2,
                        } && n2@ == name@ && m2@ == mountpoint@ && (match req {
                            PoolRequest::Chown { owner, path } => path@ == mountpoint@ && exists|
                                u: Seq<char>,
                                g: Seq<char>,
                            | owner@ == u + ":"@ + g,
                            _ => false,
                        }),
                        _ => false,
                    },
                    _ => fails_like_outcome(outcome, r) && r is Done,
                },
                CreateState::OwnFix { name, mountpoint } => match outcome {
                    PoolOutcome::Success { .. } => match r {
                        Step::Pending(req, st2) => st2 matches CreateState::PermFix {
                            name: n2,
                            mountpoint: m2,
                        } && n2@ == name@ && m2@ == mountpoint@ && (match req {
                            PoolRequest::SetPermissions { path } => path@ == mountpoint@,
                            _ => false,
                        }),
                        _ => false,
                    },
                    _ => fails_like_outcome(outcome, r) && r is Done,
                },
                CreateState::PermFix { name, mountpoint } => match r {
                    Step::Pending(req, st2) => {
                        &&& is_zfs_req(
                            req,
                            spec_elevate(true, self.spec_uid()),
                            spec_clear_mountpoint_args(
                                spec_dataset_path(self.spec_root(), name@),
                            ),
                        )
                        &&& match st2 {
                            CreateState::ClearMp { name: n2, pending } => n2@ == name@ && (match
                                outcome {
                                PoolOutcome::Success { .. } => pending is None,
                                _ => pending matches Some(e) && error_like_outcome(outcome, e),
                            }),
                            _ => false,
                        }
                    },
                    _ => false,
                },
                CreateState::ClearMp { name, pending } => match pending {
                    Some(e) => r matches Step::Done(Err(e2)) && e2 == e,
                    None => match outcome {
                        PoolOutcome::Success { .. } => r matches Step::Done(Ok(..)),
                        _ => fails_like_outcome(outcome, r) && r is Done,
                    },
                },
            },
    {
        match st {
            CreateState::Probe { name, opts } => match outcome {
                PoolOutcome::Success { .. } => Step::Done(Ok(())),
                PoolOutcome::Failure { command, stderr } => {
                    if is_does_not_exist(stderr.as_str()) {
                        match parse_options(&opts) {
                            Err(e) => Step::Done(Err(Error::VolumeOptionsError { message: e.0 })),
                            Ok(vopts) => match &vopts.snapshot_of {
                                Some(from) => {
                                    let source = sanitize_vol(from.as_str());
                                    let source_path = dataset_path(
                                        self.root.as_str(),
                                        source.as_str(),
                                    );
                                    let tag = dec_string_u128(unix_nanos());
                                    let snap = snapshot_name(source_path.as_str(), tag.as_str());
                                    let ghost from_view = from@;
                                    proof {
                                        assert(snap@ == spec_snapshot_name(
                                            spec_dataset_path(
                                                self.spec_root(),
                                                sanitised(from_view),
                                            ),
                                            tag@,
                                        ));
                                        match spec_parse_options(opts@) {
                                            OptsOutcome::Parsed(m) => match m.snapshot_of {
                                                Some(fr) => {
                                                    assert(fr == from_view);
                                                    assert(snap@ == spec_snapshot_name(
                                                        spec_dataset_path(
                                                            self.spec_root(),
                                                            sanitised(fr),
                                                        ),
                                                        tag@,
                                                    ));
                                                    assert(exists|t: Seq<char>|
                                                        snap@ == spec_snapshot_name(
                                                            spec_dataset_path(
                                                                self.spec_root(),
                                                                sanitised(fr),
                                                            ),
                                                            t,
                                                        ));
                                                },
                                                None => {},
                                            },
                                            _ => {},
                                        }
                                    }
                                    let req = PoolRequest::Zfs {
                                        sudo: false,
                                        args: snapshot_args(&snap),
                                    };
                                    Step::Pending(
                                        req,
                                        CreateState::Snapshot { name, vopts, snap },
                                    )
                                },
                                None => {
                                    let req = PoolRequest::Zfs {
                                        sudo: false,
                                        args: create_args(
                                            self.root.as_str(),
                                            name.as_str(),
                                            &vopts,
                                        ),
                                    };
                                    Step::Pending(req, CreateState::CreateFs { name })
                                },
                            },
                        }
                    } else {
                        Step::Done(Err(Error::CmdError { command, stderr }))
                    }
                },
                PoolOutcome::IoFailure { command, message } => Step::Done(
                    Err(Error::CmdIoError { command, message }),
                ),
            },
            CreateState::Snapshot { name, vopts, snap } => match outcome {
                PoolOutcome::Success { .. } => {
                    let req = PoolRequest::Zfs {
                        sudo: false,
                        args: clone_args(self.root.as_str(), name.as_str(), &vopts, &snap),
                    };
                    Step::Pending(req, CreateState::CloneFs { name, snap })
                },
                _ => outcome_error(outcome),
            },
            CreateState::CloneFs { name, snap } => match outcome {
                PoolOutcome::Success { .. } => self.defer_snapshot(name, snap),
                PoolOutcome::Failure { command, stderr } => {
                    if is_already_exists(stderr.as_str()) || is_mount_hint(stderr.as_str()) {
                        self.defer_snapshot(name, snap)
                    } else {
                        Step::Done(Err(Error::CmdError { command, stderr }))
                    }
                },
                PoolOutcome::IoFailure { command, message } => Step::Done(
                    Err(Error::CmdIoError { command, message }),
                ),
            },
            CreateState::DeferSnap { name } => match outcome {
                PoolOutcome::Success { .. } => self.read_root_mp(name),
                _ => outcome_error(outcome),
            },
            CreateState::CreateFs { name } => match outcome {
                PoolOutcome::Success { .. } => self.read_root_mp(name),
                PoolOutcome::Failure { command, stderr } => {
                    if is_mount_hint(stderr.as_str()) {
                        self.read_root_mp(name)
                    } else {
                        Step::Done(Err(Error::CmdError { command, stderr }))
                    }
                },
                PoolOutcome::IoFailure { command, message } => Step::Done(
                    Err(Error::CmdIoError { command, message }),
                ),
            },
            CreateState::RootMp { name } => match outcome {
                PoolOutcome::Success { stdout } => match mountpoint_of_output(stdout.as_str()) {
                    Some(root_mp) => {
                        let mountpoint = dataset_path(root_mp.as_str(), name.as_str());
                        let dataset = dataset_path(self.root.as_str(), name.as_str());
                        let req = PoolRequest::Zfs {
                            sudo: elevate(true, self.uid),
                            args: set_mountpoint_args(&dataset, &mountpoint),
                        };
                        Step::Pending(req, CreateState::SetMp { name, mountpoint })
                    },
                    None => Step::Done(Err(Error::NoMountpoint { subject: self.root.clone() })),
                },
                _ => outcome_error(outcome),
            },
            CreateState::SetMp { name, mountpoint } => match outcome {
                PoolOutcome::Success { .. } => {
                    let req = PoolRequest::Chown {
                        owner: chown_owner(),
                        path: mountpoint.clone(),
                    };
                    Step::Pending(req, CreateState::OwnFix { name, mountpoint })
                },
                _ => outcome_error(outcome),
            },
            CreateState::OwnFix { name, mountpoint } => match outcome {
                PoolOutcome::Success { .. } => {
                    let req = PoolRequest::SetPermissions { path: mountpoint.clone() };
                    Step::Pending(req, CreateState::PermFix { name, mountpoint })
                },
                _ => outcome_error(outcome),
            },
            CreateState::PermFix { name, mountpoint } => {
                let pending: Option<Error> = match outcome {
                    PoolOutcome::Success { .. } => None,
                    other => Some(outcome_to_error(other)),
                };
                let dataset = dataset_path(self.root.as_str(), name.as_str());
                let req = PoolRequest::Zfs {
                    sudo: elevate(true, self.uid),
                    args: clear_mountpoint_args(&dataset),
                };
                Step::Pending(req, CreateState::ClearMp { name, pending })
            },
            CreateState::ClearMp { name, pending } => match pending {
                Some(e) => Step::Done(Err(e)),
                None => match outcome {
                    PoolOutcome::Success { .. } => Step::Done(Ok(())),
                    _ => outcome_error(outcome),
                },
            },
        }
    }

    /// The step that marks a clone's source snapshot for deferred
    /// destruction.
    fn defer_snapshot(&self, name: String, snap: String) -> (r: Step<CreateState, ()>)
        ensures
            create_defers_snapshot(r, name@, snap@),
    {
        let req = PoolRequest::Zfs { sudo: false, args: defer_destroy_args(&snap) };
        Step::Pending(req, CreateState::DeferSnap { name })
    }

    /// The step that reads the root dataset's mountpoint for the
    /// ownership fix-up.
    fn read_root_mp(&self, name: String) -> (r: Step<CreateState, ()>)
        ensures
            create_reads_root_mp(self, r, name@),
    {
        let req = PoolRequest::Zfs { sudo: false, args: get_mountpoint_args(&self.root) };
        Step::Pending(req, CreateState::RootMp { name })
    }

    /// The driver is local-scope.
    pub fn capabilities(&self) -> (r: crate::api::CapabilitiesResponse)
        ensures
            r.capabilities.scope is Local,
    {
        crate::api::local_capabilities()
    }

    /// The activation handshake: this process implements the volume
    /// driver interface.
    pub fn activate(&self) -> (r: crate::api::ActivateResponse)
        ensures
            r.implements@.len() == 1,
            r.implements@[0] == crate::api::PluginImplements::VolumeDriver,
    {
        crate::api::activate_response()
    }
}

/// The step defers destruction of the clone's source snapshot.
pub open spec fn create_defers_snapshot(r: Step<CreateState, ()>, name: Seq<char>, snap: Seq<char>) -> bool {
    match r {
        Step::Pending(req, st2) => st2 matches CreateState::DeferSnap { name: n2 } && n2@ == name
            && is_zfs_req(req, false, spec_defer_destroy_args(snap)),
        _ => false,
    }
}

/// The step reads the root dataset's mountpoint on the way to the
/// ownership fix-up.
pub open spec fn create_reads_root_mp(z: &Zfs, r: Step<CreateState, ()>, name: Seq<char>) -> bool {
    match r {
        Step::Pending(req, st2) => st2 matches CreateState::RootMp { name: n2 } && n2@ == name
            && is_zfs_req(req, false, spec_get_mountpoint_args(z.spec_root())),
        _ => false,
    }
}

/// The message shown to the engine for each error.
pub open spec fn spec_message(e: Error) -> Seq<char> {
    match e {
        Error::CmdIoError { command, message } => command@ + ": "@ + message@,
        Error::CmdError { command, stderr } => command@ + ": "@ + stderr@,
        Error::CmdOutputParseError => "Could not parse the pool tool's output"@,
        Error::VolumeOptionsError { message } => message@,
        Error::NoMountpoint { subject } => "No mountpoint for "@ + subject@,
        Error::VolumeInUse { name, owners } => "Volume "@ + name@ + " is in use by: "@
            + crate::api::spec_joined(views_of(owners@), ", "@),
    }
}

impl Error {
    /// Render the error as the engine-facing message.
    pub fn message(&self) -> (r: String)
        ensures
            r@ == spec_message(*self),
    {
        match self {
            Error::CmdIoError { command, message } => {
                let mut s = command.clone();
                s.append(": ");
                s.append(message.as_str());
                s
            },
            Error::CmdError { command, stderr } => {
                let mut s = command.clone();
                s.append(": ");
                s.append(stderr.as_str());
                s
            },
            Error::CmdOutputParseError => String::from_str(
                "Could not parse the pool tool's output",
            ),
            Error::VolumeOptionsError { message } => message.clone(),
            Error::NoMountpoint { subject } => {
                let mut s = String::from_str("No mountpoint for ");
                s.append(subject.as_str());
                s
            },
            Error::VolumeInUse { name, owners } => {
                let mut s = String::from_str("Volume ");
                s.append(name.as_str());
                s.append(" is in use by: ");
                let joined = crate::api::join_strings(owners, ", ");
                s.append(joined.as_str());
                s
            },
        }
    }

    /// Wrap the message in the engine's error envelope.
    pub fn to_response(&self) -> (r: crate::api::ErrorResponse)
        ensures
            r.err@ == spec_message(*self),
    {
        crate::api::ErrorResponse { err: self.message() }
    }
}

} // verus!
