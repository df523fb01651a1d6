//! The device registry and its lifecycle rules.
//!
//! The registry is keyed by the id derived from each device's source. The
//! runtime that owns the actor and broadcast tasks asks it before acting
//! and reports back what happened; every rule about which transitions are
//! allowed lives here.

use crate::device::{matches_variant, DeviceInfo, DeviceProperties, DeviceSelection, DeviceStatus};
use crate::source::{device_id, source_id, DeviceId, SourceSelection};
use crate::text::{dotted_quad, dotted_quad_text, host_port, host_port_text};
use vstd::prelude::*;

verus! {

#[derive(Clone, Debug)]
pub enum ManagerError {
    DeviceNotExist(DeviceId),
    DeviceAlreadyExist(DeviceId),
    DeviceStatus(DeviceStatus, DeviceId),
    DeviceError(String),
    DeviceSourceError(String),
    NoDevices,
    TokioMpsc(String),
    NotImplemented(String),
    Other(String),
}

/// A registered device. `A` keeps its actor alive (task and mailbox) and
/// `B` its broadcast task; dropping either stops that task.
pub struct Device<A, B> {
    pub id: DeviceId,
    pub source: SourceSelection,
    pub actor: A,
    pub broadcast: Option<B>,
    pub status: DeviceStatus,
    pub device_type: DeviceSelection,
    pub properties: Option<DeviceProperties>,
}

impl<A, B> Device<A, B> {
    pub open spec fn spec_info(self) -> DeviceInfo {
        DeviceInfo {
            id: self.id,
            source: self.source,
            status: self.status,
            device_type: self.device_type,
            properties: self.properties,
        }
    }

    /// The variant is concrete and the properties, when read, belong to it.
    pub open spec fn resolved(self) -> bool {
        &&& self.device_type != DeviceSelection::Auto
        &&& self.properties matches Some(p) ==> matches_variant(self.device_type, p)
    }

    /// Continuous mode is on exactly while a broadcast task is held.
    pub open spec fn coupled(self) -> bool {
        (self.status == DeviceStatus::ContinuousMode) == self.broadcast.is_some()
    }

    pub fn info(&self) -> (r: DeviceInfo)
        ensures
            r == self.spec_info(),
    {
        DeviceInfo {
            id: self.id,
            source: self.source.duplicate(),
            status: self.status,
            device_type: self.device_type,
            properties: self.properties,
        }
    }
}

/// `d` with a new status and broadcast task, the rest kept.
pub open spec fn with_state<A, B>(d: Device<A, B>, status: DeviceStatus, broadcast: Option<B>) -> Device<
    A,
    B,
> {
    Device {
        id: d.id,
        source: d.source,
        actor: d.actor,
        broadcast,
        status,
        device_type: d.device_type,
        properties: d.properties,
    }
}

pub open spec fn holds_id<A, B>(devs: Seq<Device<A, B>>, id: DeviceId) -> bool {
    exists|i: int| 0 <= i < devs.len() && (#[trigger] devs[i]).id == id
}

/// Position of the device with this id (meaningful when there is one).
pub open spec fn index_of<A, B>(devs: Seq<Device<A, B>>, id: DeviceId) -> int {
    choose|i: int| 0 <= i < devs.len() && (#[trigger] devs[i]).id == id
}

pub open spec fn ids_unique<A, B>(devs: Seq<Device<A, B>>) -> bool {
    forall|i: int, j: int|
        0 <= i < devs.len() && 0 <= j < devs.len() && i != j ==> (#[trigger] devs[i]).id != (
        #[trigger] devs[j]).id
}

/// The registry's invariant: ids are unique, each is derived from its
/// device's source, every device's variant is resolved, and its status
/// agrees with its broadcast task.
pub open spec fn registry_wf<A, B>(devs: Seq<Device<A, B>>) -> bool {
    &&& ids_unique(devs)
    &&& forall|i: int|
        0 <= i < devs.len() ==> (#[trigger] devs[i]).coupled() && devs[i].resolved()
            && devs[i].id == source_id(devs[i].source)
}

pub open spec fn infos<A, B>(devs: Seq<Device<A, B>>) -> Seq<DeviceInfo> {
    devs.map_values(|d: Device<A, B>| d.spec_info())
}

/// What enabling continuous mode on `id` is allowed to do: the device
/// must exist and be `Running`; the result is its variant.
pub open spec fn start_check<A, B>(devs: Seq<Device<A, B>>, id: DeviceId) -> Result<
    DeviceSelection,
    ManagerError,
> {
    if !holds_id(devs, id) {
        Err(ManagerError::DeviceNotExist(id))
    } else if devs[index_of(devs, id)].status == DeviceStatus::Running {
        Ok(devs[index_of(devs, id)].device_type)
    } else {
        Err(ManagerError::DeviceStatus(devs[index_of(devs, id)].status, id))
    }
}

/// Same for disabling: the device must be in `ContinuousMode`.
pub open spec fn stop_check<A, B>(devs: Seq<Device<A, B>>, id: DeviceId) -> Result<
    DeviceSelection,
    ManagerError,
> {
    if !holds_id(devs, id) {
        Err(ManagerError::DeviceNotExist(id))
    } else if devs[index_of(devs, id)].status == DeviceStatus::ContinuousMode {
        Ok(devs[index_of(devs, id)].device_type)
    } else {
        Err(ManagerError::DeviceStatus(devs[index_of(devs, id)].status, id))
    }
}

/// Every id registered in `a` is still registered in `b`.
pub open spec fn keeps_ids<A, B>(a: Seq<Device<A, B>>, b: Seq<Device<A, B>>) -> bool {
    forall|k: DeviceId| holds_id(a, k) ==> #[trigger] holds_id(b, k)
}

/// What creating a device reached through `s` yields on registry `devs`.
pub open spec fn create_outcome<A, B>(devs: Seq<Device<A, B>>, s: SourceSelection) -> Result<
    DeviceId,
    ManagerError,
> {
    if holds_id(devs, source_id(s)) {
        Err(ManagerError::DeviceAlreadyExist(source_id(s)))
    } else {
        Ok(source_id(s))
    }
}

pub proof fn lemma_update_keeps_ids<A, B>(devs: Seq<Device<A, B>>, i: int, d: Device<A, B>)
    requires
        0 <= i < devs.len(),
        d.id == devs[i].id,
    ensures
        keeps_ids(devs, devs.update(i, d)),
{
    let n = devs.update(i, d);
    assert forall|k: DeviceId| holds_id(devs, k) implies #[trigger] holds_id(n, k) by {
        let j = choose|j: int| 0 <= j < devs.len() && (#[trigger] devs[j]).id == k;
        assert(n[j].id == k);
    }
}

/// No duplicate registration: once the device of a source is registered,
/// creating it again yields `DeviceAlreadyExist` with the source's id in
/// every later registry that still holds that id, which every operation
/// but `delete` guarantees (each ensures `keeps_ids`).
pub proof fn lemma_no_duplicate_registration<A, B>(
    before: Seq<Device<A, B>>,
    created: Device<A, B>,
    later: Seq<Device<A, B>>,
    source: SourceSelection,
)
    requires
        created.id == source_id(source),
        keeps_ids(before.push(created), later),
    ensures
        create_outcome(later, source) == Err::<DeviceId, ManagerError>(
            ManagerError::DeviceAlreadyExist(source_id(source)),
        ),
{
    let after = before.push(created);
    assert(after[before.len() as int].id == source_id(source));
    assert(holds_id(after, source_id(source)));
    assert(holds_id(later, source_id(source)));
}

/// Status/broadcast coupling: in a well-formed registry a device is in
/// `ContinuousMode` exactly when it holds a broadcast task.
pub proof fn lemma_status_broadcast_coupling<A, B>(devs: Seq<Device<A, B>>, i: int)
    requires
        registry_wf(devs),
        0 <= i < devs.len(),
    ensures
        (devs[i].status == DeviceStatus::ContinuousMode) <==> devs[i].broadcast.is_some(),
{
    assert(devs[i].coupled());
}

pub proof fn lemma_index_of<A, B>(devs: Seq<Device<A, B>>, id: DeviceId, i: int)
    requires
        ids_unique(devs),
        0 <= i < devs.len(),
        devs[i].id == id,
    ensures
        holds_id(devs, id),
        index_of(devs, id) == i,
{
    assert(holds_id(devs, id));
}

pub const START_FAILURE: &'static str = "Error while start_continuous_mode";

pub const NOT_UDP: &'static str = "modify_device : invalid request, the device source is not UDP";

/// Devices listen for address changes on this UDP port.
pub const IP_CHANGE_PORT: u16 = 30303;

pub const IP_CHANGE_COMMAND: &'static str = "SetSS1IP ";

/// A change to apply to a registered device.
#[derive(Clone, Copy, Debug, PartialEq, Eq)]
pub enum ModifyDeviceCommand {
    /// Move the device to this IPv4 address.
    Ip([u8; 4]),
}

#[derive(Clone, Copy, Debug, PartialEq, Eq)]
pub struct ModifyDevice {
    pub uuid: DeviceId,
    pub modify: ModifyDeviceCommand,
}

#[derive(Clone, Copy, Debug, PartialEq, Eq, Structural)]
pub struct UuidWrapper {
    pub uuid: DeviceId,
}

#[derive(Clone, Debug)]
pub struct CreateStruct {
    pub source: SourceSelection,
    pub device_selection: DeviceSelection,
}

/// A broadcast datagram: its ASCII payload and the `host:port` it goes to.
pub struct Datagram {
    pub payload: String,
    pub destination: String,
}

pub open spec fn ip_change_payload(new_ip: Seq<u8>) -> Seq<char> {
    IP_CHANGE_COMMAND@ + dotted_quad(new_ip)
}

pub open spec fn ip_change_destination(current_ip: Seq<u8>) -> Seq<char> {
    host_port(dotted_quad(current_ip), IP_CHANGE_PORT as nat)
}

/// The datagram that tells the device at `current_ip` to move to
/// `new_ip`: `SetSS1IP <new_ip>` sent to `<current_ip>:30303`.
pub fn ip_change_datagram(new_ip: &[u8; 4], current_ip: &[u8; 4]) -> (r: Datagram)
    ensures
        r.payload@ == ip_change_payload(new_ip@),
        r.destination@ == ip_change_destination(current_ip@),
{
    let mut payload = IP_CHANGE_COMMAND.to_owned();
    payload.append(dotted_quad_text(new_ip).as_str());
    let destination = host_port_text(dotted_quad_text(current_ip).as_str(), IP_CHANGE_PORT);
    Datagram { payload, destination }
}

/// The registry of devices, in order of registration. A vector keeps the
/// listing order fixed, so `list` and `update_devices_status` are stated
/// exactly; `registry_wf` keeps the ids unique, as a map's keys would be.
pub struct DeviceManager<A, B> {
    device: Vec<Device<A, B>>,
}

impl<A, B> View for DeviceManager<A, B> {
    type V = Seq<Device<A, B>>;

    closed spec fn view(&self) -> Seq<Device<A, B>> {
        self.device@
    }
}

impl<A, B> DeviceManager<A, B> {
    pub open spec fn wf(&self) -> bool {
        registry_wf(self@)
    }

    pub fn new() -> (r: Self)
        ensures
            r.wf(),
            r@ == Seq::<Device<A, B>>::empty(),
    {
        DeviceManager { device: Vec::new() }
    }

    /// The registered devices, for the runtime to reach their tasks.
    pub fn devices(&self) -> (r: &Vec<Device<A, B>>)
        ensures
            r@ == self@,
    {
        &self.device
    }

    fn find(&self, id: DeviceId) -> (r: Option<usize>)
        requires
            self.wf(),
        ensures
            match r {
                Some(i) => i < self@.len() && holds_id(self@, id) && i == index_of(self@, id),
                None => !holds_id(self@, id),
            },
    {
        let mut i: usize = 0;
        while i < self.device.len()
            invariant
                i <= self.device@.len(),
                self.wf(),
                forall|j: int| 0 <= j < i ==> (#[trigger] self.device@[j]).id != id,
            decreases self.device@.len() - i,
        {
            if self.device[i].id == id {
                proof {
                    lemma_index_of(self@, id, i as int);
                }
                return Some(i);
            }
            i = i + 1;
        }
        None
    }

    /// Whether a device reached through `source` may be created: its id,
    /// or `DeviceAlreadyExist` when that id is registered.
    pub fn check_new(&self, source: &SourceSelection) -> (r: Result<DeviceId, ManagerError>)
        requires
            self.wf(),
        ensures
            r == create_outcome(self@, *source),
            match r {
                Ok(id) => id == source_id(*source) && !holds_id(self@, id),
                Err(e) => e == ManagerError::DeviceAlreadyExist(source_id(*source)) && holds_id(
                    self@,
                    source_id(*source),
                ),
            },
    {
        let id = device_id(source);
        match self.find(id) {
            Some(_) => Err(ManagerError::DeviceAlreadyExist(id)),
            None => Ok(id),
        }
    }

    /// Registers a device whose actor has been started, as `Running` with
    /// no broadcast task. Its variant is resolved (an `Auto` request is
    /// probed first) and its properties, when read, are of that variant.
    /// Fails with `DeviceAlreadyExist` when its id is taken; `actor` is
    /// then dropped.
    pub fn create(
        &mut self,
        source: SourceSelection,
        device_type: DeviceSelection,
        properties: Option<DeviceProperties>,
        actor: A,
    ) -> (r: Result<DeviceId, ManagerError>)
        requires
            old(self).wf(),
            device_type != DeviceSelection::Auto,
            properties matches Some(p) ==> matches_variant(device_type, p),
        ensures
            final(self).wf(),
            keeps_ids(old(self)@, final(self)@),
            holds_id(final(self)@, source_id(source)),
            r == create_outcome(old(self)@, source),
            holds_id(old(self)@, source_id(source)) ==> r == Err::<DeviceId, ManagerError>(
                ManagerError::DeviceAlreadyExist(source_id(source)),
            ) && final(self)@ == old(self)@,
            !holds_id(old(self)@, source_id(source)) ==> r == Ok::<DeviceId, ManagerError>(
                source_id(source),
            ) && final(self)@ == old(self)@.push(
                (Device {
                    id: source_id(source),
                    source,
                    actor,
                    broadcast: None,
                    status: DeviceStatus::Running,
                    device_type,
                    properties,
                }),
            ),
    {
        let id = device_id(&source);
        match self.find(id) {
            Some(_) => Err(ManagerError::DeviceAlreadyExist(id)),
            None => {
                let d = Device {
                    id,
                    source,
                    actor,
                    broadcast: None,
                    status: DeviceStatus::Running,
                    device_type,
                    properties,
                };
                self.device.push(d);
                proof {
                    let devs = self.device@;
                    assert forall|i: int, j: int|
                        0 <= i < devs.len() && 0 <= j < devs.len() && i != j implies (
                        #[trigger] devs[i]).id != (#[trigger] devs[j]).id by {
                        if i == devs.len() - 1 {
                            assert(old(self)@[j] == devs[j]);
                        } else if j == devs.len() - 1 {
                            assert(old(self)@[i] == devs[i]);
                        } else {
                            assert(old(self)@[i] == devs[i]);
                            assert(old(self)@[j] == devs[j]);
                        }
                    }
                    assert forall|i: int| 0 <= i < devs.len() implies (#[trigger] devs[i]).coupled()
                        && devs[i].resolved() && devs[i].id == source_id(devs[i].source) by {
                        if i < devs.len() - 1 {
                            assert(old(self)@[i] == devs[i]);
                        }
                    }
                    assert forall|k: DeviceId| holds_id(old(self)@, k) implies #[trigger] holds_id(
                        devs,
                        k,
                    ) by {
                        let j = choose|j: int|
                            0 <= j < old(self)@.len() && (#[trigger] old(self)@[j]).id == k;
                        assert(devs[j] == old(self)@[j]);
                    }
                    assert(devs[devs.len() - 1].id == id);
                }
                Ok(id)
            },
        }
    }

    /// The records of all devices, in order of registration; `NoDevices`
    /// when there are none.
    pub fn list(&self) -> (r: Result<Vec<DeviceInfo>, ManagerError>)
        requires
            self.wf(),
        ensures
            match r {
                Ok(v) => self@.len() > 0 && v@ == infos(self@),
                Err(e) => self@.len() == 0 && e == ManagerError::NoDevices,
            },
    {
        if self.device.len() == 0 {
            return Err(ManagerError::NoDevices);
        }
        let mut list: Vec<DeviceInfo> = Vec::new();
        let mut i: usize = 0;
        while i < self.device.len()
            invariant
                i <= self.device@.len(),
                list@ == infos(self@.take(i as int)),
                self@ == self.device@,
            decreases self.device@.len() - i,
        {
            list.push(self.device[i].info());
            proof {
                assert(self@.take(i + 1) =~= self@.take(i as int).push(self@[i as int]));
                assert(infos(self@.take(i + 1)) =~= infos(self@.take(i as int)).push(
                    self@[i as int].spec_info(),
                ));
            }
            i = i + 1;
        }
        proof {
            assert(self@.take(i as int) =~= self@);
        }
        Ok(list)
    }

    /// The record of device `id`, or `DeviceNotExist`.
    pub fn info(&self, id: DeviceId) -> (r: Result<DeviceInfo, ManagerError>)
        requires
            self.wf(),
        ensures
            holds_id(self@, id) ==> r == Ok::<DeviceInfo, ManagerError>(
                self@[index_of(self@, id)].spec_info(),
            ),
            !holds_id(self@, id) ==> r == Err::<DeviceInfo, ManagerError>(
                ManagerError::DeviceNotExist(id),
            ),
    {
        match self.find(id) {
            Some(i) => Ok(self.device[i].info()),
            None => Err(ManagerError::DeviceNotExist(id)),
        }
    }

    /// Device `id`, for the runtime to reach its actor; `DeviceNotExist`
    /// when absent.
    pub fn get_device(&self, id: DeviceId) -> (r: Result<&Device<A, B>, ManagerError>)
        requires
            self.wf(),
        ensures
            holds_id(self@, id) ==> (r matches Ok(d) && *d == self@[index_of(self@, id)]),
            !holds_id(self@, id) ==> (r matches Err(e) && e == ManagerError::DeviceNotExist(id)),
    {
        match self.find(id) {
            Some(i) => Ok(&self.device[i]),
            None => Err(ManagerError::DeviceNotExist(id)),
        }
    }

    /// Removes device `id` and hands it back; dropping it stops its actor
    /// and any broadcast task. `DeviceNotExist` when absent.
    pub fn delete(&mut self, id: DeviceId) -> (r: Result<Device<A, B>, ManagerError>)
        requires
            old(self).wf(),
        ensures
            final(self).wf(),
            !holds_id(final(self)@, id),
            holds_id(old(self)@, id) ==> r == Ok::<Device<A, B>, ManagerError>(
                old(self)@[index_of(old(self)@, id)],
            ) && final(self)@ == old(self)@.remove(index_of(old(self)@, id)),
            !holds_id(old(self)@, id) ==> r == Err::<Device<A, B>, ManagerError>(
                ManagerError::DeviceNotExist(id),
            ) && final(self)@ == old(self)@,
    {
        match self.find(id) {
            Some(i) => {
                let d = self.device.remove(i);
                proof {
                    let o = old(self)@;
                    let devs = self.device@;
                    assert forall|k: int| 0 <= k < devs.len() implies (#[trigger] devs[k]) == if k
                        < i {
                        o[k]
                    } else {
                        o[k + 1]
                    } by {}
                    assert forall|a: int, b: int|
                        0 <= a < devs.len() && 0 <= b < devs.len() && a != b implies (
                        #[trigger] devs[a]).id != (#[trigger] devs[b]).id by {
                        let oa = if a < i { a } else { a + 1 };
                        let ob = if b < i { b } else { b + 1 };
                        assert(o[oa] == devs[a]);
                        assert(o[ob] == devs[b]);
                    }
                    assert forall|k: int| 0 <= k < devs.len() implies (#[trigger] devs[k]).coupled()
                        && devs[k].resolved() && devs[k].id == source_id(devs[k].source) by {
                        let ok = if k < i { k } else { k + 1 };
                        assert(o[ok] == devs[k]);
                    }
                    assert(!holds_id(devs, id)) by {
                        if holds_id(devs, id) {
                            let k = choose|k: int| 0 <= k < devs.len() && (#[trigger] devs[k]).id == id;
                            let ok = if k < i { k } else { k + 1 };
                            assert(o[ok] == devs[k]);
                            assert(o[i as int].id == id);
                        }
                    }
                }
                Ok(d)
            },
            None => Err(ManagerError::DeviceNotExist(id)),
        }
    }

    /// Whether device `id` may enter continuous mode, and as which variant.
    pub fn continuous_mode(&self, id: DeviceId) -> (r: Result<DeviceSelection, ManagerError>)
        requires
            self.wf(),
        ensures
            r == start_check(self@, id),
    {
        match self.find(id) {
            Some(i) => {
                let d = &self.device[i];
                if d.status == DeviceStatus::Running {
                    Ok(d.device_type)
                } else {
                    Err(ManagerError::DeviceStatus(d.status, id))
                }
            },
            None => Err(ManagerError::DeviceNotExist(id)),
        }
    }

    fn set_state(&mut self, i: usize, status: DeviceStatus, broadcast: Option<B>)
        requires
            old(self).wf(),
            i < old(self)@.len(),
            (status == DeviceStatus::ContinuousMode) == broadcast.is_some(),
        ensures
            final(self).wf(),
            final(self)@ == old(self)@.update(
                i as int,
                with_state(old(self)@[i as int], status, broadcast),
            ),
            keeps_ids(old(self)@, final(self)@),
    {
        let d = self.device.remove(i);
        let nd = Device {
            id: d.id,
            source: d.source,
            actor: d.actor,
            broadcast,
            status,
            device_type: d.device_type,
            properties: d.properties,
        };
        self.device.insert(i, nd);
        proof {
            let o = old(self)@;
            let devs = self.device@;
            assert(devs =~= o.update(i as int, with_state(o[i as int], status, broadcast)));
            assert forall|a: int, b: int|
                0 <= a < devs.len() && 0 <= b < devs.len() && a != b implies (
                #[trigger] devs[a]).id != (#[trigger] devs[b]).id by {
                assert(devs[a].id == o[a].id);
                assert(devs[b].id == o[b].id);
            }
            assert forall|k: int| 0 <= k < devs.len() implies (#[trigger] devs[k]).coupled()
                && devs[k].resolved() && devs[k].id == source_id(devs[k].source) by {
                if k != i {
                    assert(o[k] == devs[k]);
                } else {
                    assert(o[k].id == source_id(o[k].source));
                    assert(o[k].resolved());
                }
            }
            lemma_update_keeps_ids(o, i as int, with_state(o[i as int], status, broadcast));
        }
    }

    /// Records that continuous mode has started on device `id` with the
    /// given broadcast task. Re-checks `start_check`; when the task is no
    /// longer running, fails with `Other` and keeps the device as it was.
    /// On success the device is in `ContinuousMode` holding the task, and
    /// its record is returned.
    pub fn continuous_mode_on(&mut self, id: DeviceId, broadcast: B, broadcast_running: bool) -> (r:
        Result<DeviceInfo, ManagerError>)
        requires
            old(self).wf(),
        ensures
            final(self).wf(),
            keeps_ids(old(self)@, final(self)@),
            start_check(old(self)@, id) is Err ==> r == Err::<DeviceInfo, ManagerError>(
                start_check(old(self)@, id)->Err_0,
            ) && final(self)@ == old(self)@,
            start_check(old(self)@, id) is Ok && !broadcast_running ==> final(self)@ == old(self)@
                && (r matches Err(ManagerError::Other(m)) && m@ == START_FAILURE@),
            start_check(old(self)@, id) is Ok && broadcast_running ==> final(self)@ == old(
                self,
            )@.update(
                index_of(old(self)@, id),
                with_state(
                    old(self)@[index_of(old(self)@, id)],
                    DeviceStatus::ContinuousMode,
                    Some(broadcast),
                ),
            ) && r == Ok::<DeviceInfo, ManagerError>(
                final(self)@[index_of(old(self)@, id)].spec_info(),
            ),
    {
        match self.find(id) {
            Some(i) => {
                if self.device[i].status != DeviceStatus::Running {
                    return Err(ManagerError::DeviceStatus(self.device[i].status, id));
                }
                if !broadcast_running {
                    return Err(ManagerError::Other(START_FAILURE.to_owned()));
                }
                self.set_state(i, DeviceStatus::ContinuousMode, Some(broadcast));
                Ok(self.device[i].info())
            },
            None => Err(ManagerError::DeviceNotExist(id)),
        }
    }

    /// Leaves continuous mode on device `id`: the broadcast task is dropped
    /// (which stops it) and the device is `Running` again. Returns its
    /// record and variant, for the variant's shutdown routine.
    pub fn continuous_mode_off(&mut self, id: DeviceId) -> (r: Result<
        (DeviceInfo, DeviceSelection),
        ManagerError,
    >)
        requires
            old(self).wf(),
        ensures
            final(self).wf(),
            keeps_ids(old(self)@, final(self)@),
            stop_check(old(self)@, id) is Err ==> r == Err::<(DeviceInfo, DeviceSelection), ManagerError>(
                stop_check(old(self)@, id)->Err_0,
            ) && final(self)@ == old(self)@,
            stop_check(old(self)@, id) is Ok ==> final(self)@ == old(self)@.update(
                index_of(old(self)@, id),
                with_state(old(self)@[index_of(old(self)@, id)], DeviceStatus::Running, None),
            ) && r == Ok::<(DeviceInfo, DeviceSelection), ManagerError>(
                (
                    final(self)@[index_of(old(self)@, id)].spec_info(),
                    stop_check(old(self)@, id)->Ok_0,
                ),
            ),
    {
        match self.find(id) {
            Some(i) => {
                if self.device[i].status != DeviceStatus::ContinuousMode {
                    return Err(ManagerError::DeviceStatus(self.device[i].status, id));
                }
                let t = self.device[i].device_type;
                self.set_state(i, DeviceStatus::Running, None);
                Ok((self.device[i].info(), t))
            },
            None => Err(ManagerError::DeviceNotExist(id)),
        }
    }

    /// Marks as `Stopped` every device whose actor task has finished (the
    /// ids in `finished`), dropping any broadcast task it held. Other
    /// devices are untouched.
    pub fn update_devices_status(&mut self, finished: &Vec<DeviceId>)
        requires
            old(self).wf(),
        ensures
            final(self).wf(),
            keeps_ids(old(self)@, final(self)@),
            final(self)@.len() == old(self)@.len(),
            forall|i: int|
                0 <= i < old(self)@.len() ==> (#[trigger] final(self)@[i]) == if finished@.contains(
                    old(self)@[i].id,
                ) {
                    with_state(old(self)@[i], DeviceStatus::Stopped, None)
                } else {
                    old(self)@[i]
                },
    {
        let mut i: usize = 0;
        while i < self.device.len()
            invariant
                i <= self.device@.len(),
                self.wf(),
                keeps_ids(old(self)@, self.device@),
                self.device@.len() == old(self)@.len(),
                forall|k: int|
                    0 <= k < old(self)@.len() ==> (#[trigger] self.device@[k]) == if k < i
                        && finished@.contains(old(self)@[k].id) {
                        with_state(old(self)@[k], DeviceStatus::Stopped, None)
                    } else {
                        old(self)@[k]
                    },
            decreases self.device@.len() - i,
        {
            let id = self.device[i].id;
            let mut hit = false;
            let mut j: usize = 0;
            while j < finished.len()
                invariant
                    j <= finished@.len(),
                    hit == (exists|k: int| 0 <= k < j && finished@[k] == id),
                decreases finished@.len() - j,
            {
                if finished[j] == id {
                    hit = true;
                }
                j = j + 1;
            }
            proof {
                if hit {
                    let k = choose|k: int| 0 <= k < j && finished@[k] == id;
                    assert(finished@.contains(id));
                }
            }
            if hit {
                self.set_state(i, DeviceStatus::Stopped, None);
            }
            i = i + 1;
        }
    }

    /// Plans a modification. For an address change the device must exist
    /// (`DeviceNotExist`) and be reached over UDP (`Other` otherwise); the
    /// result is the datagram to broadcast, after which the device is to
    /// be deleted: it reappears under its new address at discovery.
    pub fn modify_device(&self, request: &ModifyDevice) -> (r: Result<Datagram, ManagerError>)
        requires
            self.wf(),
        ensures
            !holds_id(self@, request.uuid) ==> r == Err::<Datagram, ManagerError>(
                ManagerError::DeviceNotExist(request.uuid),
            ),
            holds_id(self@, request.uuid) ==> match self@[index_of(self@, request.uuid)].source {
                SourceSelection::UdpStream(u) => match request.modify {
                    ModifyDeviceCommand::Ip(new_ip) => r matches Ok(d) && d.payload@
                        == ip_change_payload(new_ip@) && d.destination@ == ip_change_destination(
                        u.ip@,
                    ),
                },
                SourceSelection::SerialStream(_) => r matches Err(ManagerError::Other(m)) && m@
                    == NOT_UDP@,
            },
    {
        match request.modify {
            ModifyDeviceCommand::Ip(new_ip) => match self.find(request.uuid) {
                None => Err(ManagerError::DeviceNotExist(request.uuid)),
                Some(i) => match &self.device[i].source {
                    SourceSelection::UdpStream(u) => Ok(ip_change_datagram(&new_ip, &u.ip)),
                    SourceSelection::SerialStream(_) => Err(ManagerError::Other(NOT_UDP.to_owned())),
                },
            },
        }
    }
}

} // verus!
