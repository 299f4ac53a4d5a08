//! Container-side values: which volume driver a build volume uses,
//! the container runtime, mount descriptions and their rendering as
//! container CLI arguments.

use crate::mounts::views_of;
use crate::numbers::{dec_str, dec_string_u64, oct_str, oct_string_u32};
use vstd::prelude::*;

verus! {

broadcast use vstd::string::group_string_axioms;

/// Which volume driver a created volume uses.
pub enum VolumeDriver {
    Local,
    Zockervols,
}

/// The driver's name on the container CLI.
pub open spec fn spec_driver_name(d: VolumeDriver) -> Seq<char> {
    match d {
        VolumeDriver::Local => "local"@,
        VolumeDriver::Zockervols => "zockervols"@,
    }
}

impl VolumeDriver {
    /// The name passed to the container CLI.
    pub fn name(&self) -> (r: String)
        ensures
            r@ == spec_driver_name(*self),
    {
        match self {
            VolumeDriver::Local => String::from_str("local"),
            VolumeDriver::Zockervols => String::from_str("zockervols"),
        }
    }

    /// Read a driver name; anything unknown is refused with a
    /// message.
    pub fn from_str(s: &String) -> (r: Result<VolumeDriver, String>)
        ensures
            s@ == "local"@ ==> r matches Ok(VolumeDriver::Local),
            s@ == "zockervols"@ ==> r matches Ok(VolumeDriver::Zockervols),
            s@ != "local"@ && s@ != "zockervols"@ ==> (r matches Err(m) && m@
                == "Unsupported volume driver "@ + s@),
    {
        proof {
            reveal_strlit("local");
            reveal_strlit("zockervols");
            assert("local"@.len() == 5 && "zockervols"@.len() == 10);
        }
        let local = String::from_str("local");
        let zocker = String::from_str("zockervols");
        if *s == local {
            Ok(VolumeDriver::Local)
        } else if *s == zocker {
            Ok(VolumeDriver::Zockervols)
        } else {
            let mut m = String::from_str("Unsupported volume driver ");
            m.append(s.as_str());
            Err(m)
        }
    }
}

/// The container runtime a build runs under.
pub enum Runtime {
    Runc,
    Kata,
}

/// The runtime's name on the container CLI.
pub open spec fn spec_runtime_name(rt: Runtime) -> Seq<char> {
    match rt {
        Runtime::Runc => "runc"@,
        Runtime::Kata => "kata-containers"@,
    }
}

impl Runtime {
    /// The name passed to the container CLI.
    pub fn name(&self) -> (r: String)
        ensures
            r@ == spec_runtime_name(*self),
    {
        match self {
            Runtime::Runc => String::from_str("runc"),
            Runtime::Kata => String::from_str("kata-containers"),
        }
    }

    /// Whether this is the kata runtime, which takes no init process.
    pub fn is_kata(&self) -> (r: bool)
        ensures
            r == (*self is Kata),
    {
        match self {
            Runtime::Kata => true,
            Runtime::Runc => false,
        }
    }
}

/// A volume attached to a build container.
pub enum Volume {
    /// A volume that lives only as long as the container.
    Ephemeral { driver: Option<VolumeDriver>, opts: Vec<(String, String)> },
    /// A named volume that outlives the container.
    Persistent {
        name: String,
        driver: Option<VolumeDriver>,
        opts: Vec<(String, String)>,
        labels: Vec<String>,
    },
}

impl Volume {
    /// A new ephemeral volume.
    pub fn new(driver: Option<VolumeDriver>, opts: Vec<(String, String)>) -> (r: Volume)
        ensures
            r matches Volume::Ephemeral { driver: d, opts: o } && d == driver && o == opts,
    {
        Volume::Ephemeral { driver, opts }
    }
}

/// What `create_volume` is asked for.
pub struct CreateVolumeOptions {
    pub name: String,
    pub driver: Option<VolumeDriver>,
    pub volume_opts: Vec<(String, String)>,
    pub labels: Vec<String>,
}

/// A mount of a build container.
pub enum Mount {
    /// A size-capped in-memory filesystem.
    Tmpfs { dst: String, size_in_bytes: u32, mode: u32 },
    /// A host path bound into the container.
    Bind { src: String, dst: String, readonly: bool },
    /// A named or ephemeral volume.
    Volume {
        src: Option<Volume>,
        dst: String,
        readonly: bool,
        volume_driver: Option<VolumeDriver>,
        volume_opts: Vec<(String, String)>,
    },
}

impl Mount {
    /// Where the mount appears inside the container.
    pub fn destination(&self) -> (r: String)
        ensures
            match self {
                Mount::Tmpfs { dst, .. } => r@ == dst@,
                Mount::Bind { dst, .. } => r@ == dst@,
                Mount::Volume { dst, .. } => r@ == dst@,
            },
    {
        match self {
            Mount::Tmpfs { dst, .. } => dst.clone(),
            Mount::Bind { dst, .. } => dst.clone(),
            Mount::Volume { dst, .. } => dst.clone(),
        }
    }
}

/// A container client scoped to one build: containers it starts are
/// named and labelled with the build's ID so they can be reaped.
pub struct Docker {
    pub build_id: String,
}

impl Docker {
    /// A client for this build.
    pub fn new(build_id: &String) -> (r: Docker)
        ensures
            r.build_id@ == build_id@,
    {
        Docker { build_id: build_id.clone() }
    }
}

/// The `,volume-opt=key=value` tail of a volume mount argument.
pub open spec fn spec_volume_opts_arg(opts: Seq<(String, String)>) -> Seq<char>
    decreases opts.len(),
{
    if opts.len() == 0 {
        Seq::<char>::empty()
    } else {
        ",volume-opt="@ + opts[0].0@ + "="@ + opts[0].1@ + spec_volume_opts_arg(opts.drop_first())
    }
}

/// What a mount renders to on the container CLI.
pub open spec fn spec_mount_arg(m: Mount) -> Seq<char> {
    match m {
        Mount::Tmpfs { dst, size_in_bytes, mode } => "--tmpfs="@ + dst@ + ":size="@ + dec_str(
            size_in_bytes as nat,
        ) + ",mode="@ + oct_str(mode as nat) + ",exec"@,
        Mount::Bind { src, dst, readonly } => "--mount=type=bind,src="@ + src@ + ",dst="@ + dst@ + (
        if readonly {
            ",readonly"@
        } else {
            Seq::<char>::empty()
        }),
        Mount::Volume { src, dst, readonly, volume_driver, volume_opts } => "--mount=type=volume,dst="@
            + dst@ + (match src {
            Some(Volume::Persistent { name, .. }) => ",src="@ + name@,
            _ => Seq::<char>::empty(),
        }) + (if readonly {
            ",readonly"@
        } else {
            Seq::<char>::empty()
        }) + (match volume_driver {
            Some(d) => ",volume-driver="@ + spec_driver_name(d),
            None => Seq::<char>::empty(),
        }) + spec_volume_opts_arg(volume_opts@) + ",volume-nocopy=true"@,
    }
}

/// Render one mount as a container CLI argument. Volumes always take
/// `volume-nocopy`, so data already at the image's mountpoint cannot
/// disturb the volume's permissions.
pub fn render_mount_arg(m: &Mount) -> (r: String)
    ensures
        r@ == spec_mount_arg(*m),
{
    match m {
        Mount::Tmpfs { dst, size_in_bytes, mode } => {
            let mut s = String::from_str("--tmpfs=");
            s.append(dst.as_str());
            s.append(":size=");
            s.append(dec_string_u64(*size_in_bytes as u64).as_str());
            s.append(",mode=");
            s.append(oct_string_u32(*mode).as_str());
            s.append(",exec");
            s
        },
        Mount::Bind { src, dst, readonly } => {
            let mut s = String::from_str("--mount=type=bind,src=");
            s.append(src.as_str());
            s.append(",dst=");
            s.append(dst.as_str());
            if *readonly {
                s.append(",readonly");
            }
            s
        },
        Mount::Volume { src, dst, readonly, volume_driver, volume_opts } => {
            let mut s = String::from_str("--mount=type=volume,dst=");
            s.append(dst.as_str());
            match src {
                Some(Volume::Persistent { name, .. }) => {
                    s.append(",src=");
                    s.append(name.as_str());
                },
                _ => {},
            }
            if *readonly {
                s.append(",readonly");
            }
            match volume_driver {
                Some(d) => {
                    s.append(",volume-driver=");
                    s.append(d.name().as_str());
                },
                None => {},
            }
            let ghost head = s@;
            let n = volume_opts.len();
            let mut i: usize = 0;
            proof {
                assert(volume_opts@.skip(0) =~= volume_opts@);
            }
            while i < n
                invariant
                    i <= n,
                    n == volume_opts@.len(),
                    s@ + spec_volume_opts_arg(volume_opts@.skip(i as int)) == head
                        + spec_volume_opts_arg(volume_opts@),
                decreases n - i,
            {
                let ghost before = s@;
                proof {
                    assert(volume_opts@.skip(i as int).drop_first() =~= volume_opts@.skip(i + 1));
                    assert(volume_opts@.skip(i as int)[0] == volume_opts@[i as int]);
                }
                s.append(",volume-opt=");
                s.append(volume_opts[i].0.as_str());
                s.append("=");
                s.append(volume_opts[i].1.as_str());
                proof {
                    assert(s@ =~= before + (",volume-opt="@ + volume_opts@[i as int].0@ + "="@
                        + volume_opts@[i as int].1@));
                    assert(s@ + spec_volume_opts_arg(volume_opts@.skip(i + 1)) =~= before
                        + spec_volume_opts_arg(volume_opts@.skip(i as int)));
                }
                i += 1;
            }
            proof {
                assert(volume_opts@.skip(n as int) =~= Seq::<(String, String)>::empty());
                assert(s@ + spec_volume_opts_arg(volume_opts@.skip(n as int)) =~= s@);
            }
            s.append(",volume-nocopy=true");
            proof {
                assert(s@ =~= spec_mount_arg(*m));
            }
            s
        },
    }
}

} // verus!
