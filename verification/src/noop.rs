//! A volume driver that manages nothing: mounts answer `/dev/null`,
//! mutations are not implemented. It serves local testing when no
//! pool is available.

use crate::api::{
    local_capabilities, ActivateResponse, CapabilitiesResponse, CreateRequest, ErrorResponse,
    GetRequest, GetResponse, ListResponse, MountRequest, MountResponse, PathRequest, PathResponse,
    RemoveRequest, UnmountRequest, Volume,
};
use vstd::prelude::*;

verus! {

/// The do-nothing driver.
pub struct Noop;

impl Noop {
    /// Creation is not implemented.
    pub fn create(&self, rq: CreateRequest) -> (r: Result<(), ErrorResponse>)
        ensures
            r matches Err(e) && e.err@ == "Create not implemented"@,
    {
        Err(ErrorResponse { err: String::from_str("Create not implemented") })
    }

    /// Removal is not implemented.
    pub fn remove(&self, rq: RemoveRequest) -> (r: Result<(), ErrorResponse>)
        ensures
            r matches Err(e) && e.err@ == "Remove not implemented"@,
    {
        Err(ErrorResponse { err: String::from_str("Remove not implemented") })
    }

    /// Every mount lands on `/dev/null`.
    pub fn mount(&self, rq: MountRequest) -> (r: Result<MountResponse, ErrorResponse>)
        ensures
            r matches Ok(resp) && resp.mountpoint@ == "/dev/null"@,
    {
        Ok(MountResponse { mountpoint: String::from_str("/dev/null") })
    }

    /// Every volume claims to live at `/dev/null`.
    pub fn path(&self, rq: PathRequest) -> (r: Result<PathResponse, ErrorResponse>)
        ensures
            r matches Ok(resp) && resp.mountpoint@ == "/dev/null"@,
    {
        Ok(PathResponse { mountpoint: String::from_str("/dev/null") })
    }

    /// Unmounting is not implemented.
    pub fn unmount(&self, rq: UnmountRequest) -> (r: Result<(), ErrorResponse>)
        ensures
            r matches Err(e) && e.err@ == "unmount not implemented"@,
    {
        Err(ErrorResponse { err: String::from_str("unmount not implemented") })
    }

    /// Echo the requested name as a volume with nothing behind it.
    pub fn get(&self, rq: GetRequest) -> (r: Result<GetResponse, ErrorResponse>)
        ensures
            r matches Ok(resp) && resp.volume.name@ == rq.name@ && resp.volume.mountpoint is None
                && resp.volume.created_at is None && resp.volume.status is None,
    {
        Ok(
            GetResponse {
                volume: Volume { name: rq.name, mountpoint: None, created_at: None, status: None },
            },
        )
    }

    /// There are never any volumes.
    pub fn list(&self) -> (r: Result<ListResponse, ErrorResponse>)
        ensures
            r matches Ok(resp) && resp.volumes@.len() == 0,
    {
        Ok(ListResponse { volumes: Vec::new() })
    }

    /// The driver is local-scope.
    pub fn capabilities(&self) -> (r: CapabilitiesResponse)
        ensures
            r.capabilities.scope is Local,
    {
        local_capabilities()
    }

    /// The activation handshake.
    pub fn activate(&self) -> (r: ActivateResponse)
        ensures
            r.implements@.len() == 1,
            r.implements@[0] == crate::api::PluginImplements::VolumeDriver,
    {
        crate::api::activate_response()
    }
}

} // verus!
