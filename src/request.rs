//! The requests the manager accepts, and where each one goes.
//!
//! `P` is the device-level request of the ping protocol carried by
//! `Ping`; the library only routes it.

use crate::manager::{CreateStruct, ModifyDevice, UuidWrapper};
use crate::source::DeviceId;
use vstd::prelude::*;

verus! {

#[derive(Clone, Debug)]
pub struct DeviceRequestStruct<P> {
    pub uuid: DeviceId,
    pub device_request: P,
}

#[derive(Clone, Debug)]
pub enum Request<P> {
    AutoCreate,
    Create(CreateStruct),
    Delete(UuidWrapper),
    List,
    Info(UuidWrapper),
    Search,
    Ping(DeviceRequestStruct<P>),
    GetDeviceHandler(UuidWrapper),
    ModifyDevice(ModifyDevice),
    EnableContinuousMode(UuidWrapper),
    DisableContinuousMode(UuidWrapper),
}

/// A request addressed to a module of the service.
#[derive(Clone, Debug)]
pub enum ModuleType<P> {
    DeviceManager(Request<P>),
}

#[derive(Clone, Debug)]
pub enum CommandType<P> {
    DeviceManager(Request<P>),
}

#[derive(Clone, Debug)]
pub struct Command<P> {
    pub command: CommandType<P>,
}

/// Where the facade sends a request.
#[derive(Clone, Copy, Debug, PartialEq, Eq, Structural)]
pub enum Route {
    /// Ask the manager for this device's mailbox, then send the request
    /// to the device's actor directly.
    Device(DeviceId),
    /// Forward to the manager and wait for its answer.
    Manager,
}

impl<P> Request<P> {
    pub fn route(&self) -> (r: Route)
        ensures
            self is Ping ==> r == Route::Device(self->Ping_0.uuid),
            !(self is Ping) ==> r == Route::Manager,
    {
        match self {
            Request::Ping(d) => Route::Device(d.uuid),
            _ => Route::Manager,
        }
    }

    /// Whether the manager acts on this request itself; it answers the
    /// others with `NotImplemented`.
    pub fn manager_handles(&self) -> (r: bool)
        ensures
            r == !(self is Search || self is Ping),
    {
        match self {
            Request::Search | Request::Ping(_) => false,
            _ => true,
        }
    }

    /// The request's command tag, as it appears on the wire.
    pub fn command_name(&self) -> (r: &'static str)
        ensures
            self is AutoCreate ==> r@ == "AutoCreate"@,
            self is Create ==> r@ == "Create"@,
            self is Delete ==> r@ == "Delete"@,
            self is List ==> r@ == "List"@,
            self is Info ==> r@ == "Info"@,
            self is Search ==> r@ == "Search"@,
            self is Ping ==> r@ == "Ping"@,
            self is GetDeviceHandler ==> r@ == "GetDeviceHandler"@,
            self is ModifyDevice ==> r@ == "ModifyDevice"@,
            self is EnableContinuousMode ==> r@ == "EnableContinuousMode"@,
            self is DisableContinuousMode ==> r@ == "DisableContinuousMode"@,
    {
        match self {
            Request::AutoCreate => "AutoCreate",
            Request::Create(_) => "Create",
            Request::Delete(_) => "Delete",
            Request::List => "List",
            Request::Info(_) => "Info",
            Request::Search => "Search",
            Request::Ping(_) => "Ping",
            Request::GetDeviceHandler(_) => "GetDeviceHandler",
            Request::ModifyDevice(_) => "ModifyDevice",
            Request::EnableContinuousMode(_) => "EnableContinuousMode",
            Request::DisableContinuousMode(_) => "DisableContinuousMode",
        }
    }
}

} // verus!
