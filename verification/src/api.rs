//! The request and response values of the engine's volume-plugin
//! protocol, and the error envelope it expects.
//!
//! The wire layer (JSON over HTTP on a Unix socket) lives outside the
//! library; these are the plain values it encodes and decodes.

use vstd::prelude::*;

verus! {

/// A volume create request: a name and an optional options map.
pub struct CreateRequest {
    pub name: String,
    pub options: Option<Vec<(String, String)>>,
}

/// A volume remove request.
pub struct RemoveRequest {
    pub name: String,
}

/// A volume mount request: the volume and the caller that binds it.
pub struct MountRequest {
    pub name: String,
    pub id: String,
}

/// A mount response: where the volume is now visible.
pub struct MountResponse {
    pub mountpoint: String,
}

/// A volume unmount request: the volume and the caller releasing it.
pub struct UnmountRequest {
    pub name: String,
    pub id: String,
}

/// A path request.
pub struct PathRequest {
    pub name: String,
}

/// A path response.
pub struct PathResponse {
    pub mountpoint: String,
}

/// A get request.
pub struct GetRequest {
    pub name: String,
}

/// A get response.
pub struct GetResponse {
    pub volume: Volume,
}

/// A list response.
pub struct ListResponse {
    pub volumes: Vec<Volume>,
}

/// A volume as shown to the engine: creation time is a UNIX
/// timestamp in seconds.
pub struct Volume {
    pub name: String,
    pub mountpoint: Option<String>,
    pub created_at: Option<u64>,
    pub status: Option<Vec<(String, String)>>,
}

/// The scope of a volume driver: where its volumes are visible.
pub enum Scope {
    Global,
    Local,
}

/// The capability set of the driver.
pub struct Capabilities {
    pub scope: Scope,
}

/// A capabilities response.
pub struct CapabilitiesResponse {
    pub capabilities: Capabilities,
}

/// The plugin interfaces a process can implement.
pub enum PluginImplements {
    Authz,
    NetworkDriver,
    VolumeDriver,
}

/// The activation handshake: which interfaces this plugin implements.
pub struct ActivateResponse {
    pub implements: Vec<PluginImplements>,
}

/// The in-body error envelope the engine expects.
#[derive(Debug)]
pub struct ErrorResponse {
    pub err: String,
}

impl From<String> for ErrorResponse {
    fn from(err: String) -> (r: Self) {
        ErrorResponse { err }
    }
}

impl vstd::std_specs::convert::FromSpecImpl<String> for ErrorResponse {
    open spec fn obeys_from_spec() -> bool {
        true
    }

    open spec fn from_spec(err: String) -> Self {
        ErrorResponse { err }
    }
}

/// The activation handshake this driver answers with: it implements
/// the volume-driver interface and nothing else.
pub fn activate_response() -> (r: ActivateResponse)
    ensures
        r.implements@.len() == 1,
        r.implements@[0] == PluginImplements::VolumeDriver,
{
    let mut implements: Vec<PluginImplements> = Vec::new();
    implements.push(PluginImplements::VolumeDriver);
    ActivateResponse { implements }
}

/// The capability set of a local-scope driver.
pub fn local_capabilities() -> (r: CapabilitiesResponse)
    ensures
        r.capabilities.scope is Local,
{
    CapabilitiesResponse { capabilities: Capabilities { scope: Scope::Local } }
}

/// The rest of a join: a separator before every remaining part.
pub open spec fn spec_join_tail(parts: Seq<Seq<char>>, sep: Seq<char>) -> Seq<char>
    decreases parts.len(),
{
    if parts.len() == 0 {
        Seq::<char>::empty()
    } else {
        sep + parts[0] + spec_join_tail(parts.drop_first(), sep)
    }
}

/// `parts` joined with `sep` between neighbours.
pub open spec fn spec_joined(parts: Seq<Seq<char>>, sep: Seq<char>) -> Seq<char> {
    if parts.len() == 0 {
        Seq::<char>::empty()
    } else {
        parts[0] + spec_join_tail(parts.drop_first(), sep)
    }
}

/// Join string views with a separator.
pub fn join_strings(parts: &Vec<String>, sep: &str) -> (r: String)
    ensures
        r@ == spec_joined(crate::mounts::views_of(parts@), sep@),
{
    let ghost vs = crate::mounts::views_of(parts@);
    let n = parts.len();
    if n == 0 {
        let r = String::new();
        proof {
            assert(r@ =~= spec_joined(vs, sep@));
        }
        return r;
    }
    let mut r = parts[0].clone();
    let mut i: usize = 1;
    proof {
        assert(vs.drop_first() =~= vs.skip(1));
    }
    while i < n
        invariant
            1 <= i <= n,
            n == parts@.len(),
            vs == crate::mounts::views_of(parts@),
            r@ + spec_join_tail(vs.skip(i as int), sep@) == spec_joined(vs, sep@),
        decreases n - i,
    {
        let ghost before = r@;
        proof {
            assert(vs.skip(i as int).drop_first() =~= vs.skip(i + 1));
            assert(vs.skip(i as int)[0] == vs[i as int]);
        }
        r.append(sep);
        r.append(parts[i].as_str());
        proof {
            assert(r@ =~= before + sep@ + vs[i as int]);
            assert(r@ + spec_join_tail(vs.skip(i + 1), sep@) =~= before + spec_join_tail(
                vs.skip(i as int),
                sep@,
            ));
        }
        i += 1;
    }
    proof {
        assert(vs.skip(n as int) =~= Seq::<Seq<char>>::empty());
        assert(r@ + spec_join_tail(vs.skip(n as int), sep@) =~= r@);
    }
    r
}

} // verus!
