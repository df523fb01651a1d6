//! Reconciling freshly probed endpoints against the devices already known.

use crate::device::DeviceInfo;
use crate::source::SourceSelection;
use crate::text::{dotted_quad, dotted_quad_text, host_port, host_port_text};
use vstd::prelude::*;

verus! {

/// How often discovery probes for new endpoints.
pub const DISCOVERY_PERIOD_SECS: u64 = 30;

/// The key an endpoint is known by: a serial line by its path, a UDP
/// endpoint by `ip:port`.
pub open spec fn device_key(s: SourceSelection) -> Seq<char> {
    match s {
        SourceSelection::SerialStream(p) => p.path@,
        SourceSelection::UdpStream(u) => host_port(dotted_quad(u.ip@), u.port as nat),
    }
}

pub fn get_device_key(source: &SourceSelection) -> (r: String)
    ensures
        r@ == device_key(*source),
{
    match source {
        SourceSelection::SerialStream(p) => p.path.clone(),
        SourceSelection::UdpStream(u) => host_port_text(dotted_quad_text(&u.ip).as_str(), u.port),
    }
}

pub open spec fn known_keys(known: Seq<DeviceInfo>) -> Seq<Seq<char>> {
    known.map_values(|d: DeviceInfo| device_key(d.source))
}

/// The paths of the serial lines among `known`, in order.
pub open spec fn serial_paths(known: Seq<DeviceInfo>) -> Seq<Seq<char>>
    decreases known.len(),
{
    if known.len() == 0 {
        seq![]
    } else {
        let rest = serial_paths(known.drop_last());
        match known.last().source {
            SourceSelection::SerialStream(p) => rest.push(p.path@),
            SourceSelection::UdpStream(_) => rest,
        }
    }
}

/// The candidates whose key is not in `keys`, in order.
pub open spec fn unknown_candidates(cands: Seq<SourceSelection>, keys: Seq<Seq<char>>) -> Seq<
    SourceSelection,
>
    decreases cands.len(),
{
    if cands.len() == 0 {
        seq![]
    } else {
        let rest = unknown_candidates(cands.drop_last(), keys);
        if keys.contains(device_key(cands.last())) {
            rest
        } else {
            rest.push(cands.last())
        }
    }
}

/// Discovery idempotence: after discovery has been told the current known
/// devices, a tick attempts a candidate exactly when it was found and its
/// key is not the key of a known device.
pub proof fn lemma_discovery_idempotence(
    known: Seq<DeviceInfo>,
    cands: Seq<SourceSelection>,
    c: SourceSelection,
)
    ensures
        unknown_candidates(cands, known_keys(known)).contains(c) <==> (cands.contains(c)
            && !known_keys(known).contains(device_key(c))),
    decreases cands.len(),
{
    let keys = known_keys(known);
    if cands.len() > 0 {
        let init = cands.drop_last();
        lemma_discovery_idempotence(known, init, c);
        let rest = unknown_candidates(init, keys);
        assert(cands =~= init.push(cands.last()));
        if cands.contains(c) && !keys.contains(device_key(c)) {
            if !init.contains(c) {
                let j = choose|j: int| 0 <= j < cands.len() && cands[j] == c;
                if j < init.len() {
                    assert(init[j] == c);
                }
                assert(cands.last() == c);
                assert(unknown_candidates(cands, keys) == rest.push(c));
                assert(rest.push(c)[rest.len() as int] == c);
            } else {
                let j = choose|j: int| 0 <= j < rest.len() && rest[j] == c;
                if !keys.contains(device_key(cands.last())) {
                    assert(rest.push(cands.last())[j] == c);
                }
            }
        }
        if unknown_candidates(cands, keys).contains(c) {
            let r = unknown_candidates(cands, keys);
            let j = choose|j: int| 0 <= j < r.len() && r[j] == c;
            if j < rest.len() {
                assert(rest[j] == c);
                assert(rest.contains(c));
                let k = choose|k: int| 0 <= k < init.len() && init[k] == c;
                assert(cands[k] == c);
            } else {
                assert(c == cands.last());
                assert(cands[cands.len() - 1] == c);
            }
        }
    }
}

/// What discovery knows between ticks: the known devices and their keys.
/// The keys are compared by their text, which `String`'s `==` is specified
/// to do; a hash set of strings would give membership no proven meaning.
pub struct DiscoveryState {
    known_devices: Vec<DeviceInfo>,
    device_keys: Vec<String>,
}

impl View for DiscoveryState {
    type V = Seq<DeviceInfo>;

    closed spec fn view(&self) -> Seq<DeviceInfo> {
        self.known_devices@
    }
}

impl DiscoveryState {
    pub closed spec fn wf(&self) -> bool {
        self.device_keys@.map_values(|k: String| k@) == known_keys(self.known_devices@)
    }

    pub fn new() -> (r: DiscoveryState)
        ensures
            r.wf(),
            r@ == Seq::<DeviceInfo>::empty(),
    {
        let r = DiscoveryState { known_devices: Vec::new(), device_keys: Vec::new() };
        assert(r.device_keys@.map_values(|k: String| k@) =~= known_keys(r.known_devices@));
        r
    }

    /// Replaces the known devices and rebuilds their keys.
    pub fn update_known(&mut self, devices: Vec<DeviceInfo>)
        ensures
            final(self).wf(),
            final(self)@ == devices@,
    {
        let mut keys: Vec<String> = Vec::new();
        let mut i: usize = 0;
        while i < devices.len()
            invariant
                i <= devices@.len(),
                keys@.map_values(|k: String| k@) == known_keys(devices@.take(i as int)),
            decreases devices@.len() - i,
        {
            let k = get_device_key(&devices[i].source);
            let ghost before = keys@;
            keys.push(k);
            proof {
                assert(devices@.take(i + 1) =~= devices@.take(i as int).push(devices@[i as int]));
                assert(known_keys(devices@.take(i + 1)) =~= known_keys(devices@.take(i as int)).push(
                    device_key(devices@[i as int].source),
                ));
                assert(keys@.map_values(|k: String| k@) =~= before.map_values(|k: String| k@).push(
                    k@,
                ));
            }
            i = i + 1;
        }
        proof {
            assert(devices@.take(i as int) =~= devices@);
        }
        self.known_devices = devices;
        self.device_keys = keys;
    }

    fn is_known_key(&self, key: &String) -> (r: bool)
        requires
            self.wf(),
        ensures
            r == known_keys(self@).contains(key@),
    {
        let mut i: usize = 0;
        while i < self.device_keys.len()
            invariant
                i <= self.device_keys@.len(),
                self.wf(),
                forall|j: int| 0 <= j < i ==> (#[trigger] known_keys(self@)[j]) != key@,
            decreases self.device_keys@.len() - i,
        {
            assert(self.device_keys@.map_values(|k: String| k@)[i as int] == self.device_keys@[i as int]@);
            if self.device_keys[i] == *key {
                assert(known_keys(self@)[i as int] == key@);
                return true;
            }
            i = i + 1;
        }
        proof {
            if known_keys(self@).contains(key@) {
                let j = choose|j: int| 0 <= j < known_keys(self@).len() && known_keys(self@)[j] == key@;
                assert(self.device_keys@.map_values(|k: String| k@).len() == self.device_keys@.len());
            }
        }
        false
    }

    /// The paths of the serial lines already in use by known devices, so
    /// that serial discovery can skip them.
    pub fn used_serial_paths(&self) -> (r: Vec<String>)
        ensures
            r@.map_values(|p: String| p@) == serial_paths(self@),
    {
        let mut paths: Vec<String> = Vec::new();
        let mut i: usize = 0;
        while i < self.known_devices.len()
            invariant
                i <= self.known_devices@.len(),
                paths@.map_values(|p: String| p@) == serial_paths(self@.take(i as int)),
            decreases self.known_devices@.len() - i,
        {
            proof {
                assert(self@.take(i + 1).drop_last() =~= self@.take(i as int));
            }
            match &self.known_devices[i].source {
                SourceSelection::SerialStream(p) => {
                    paths.push(p.path.clone());
                    proof {
                        assert(paths@.map_values(|p: String| p@) =~= serial_paths(
                            self@.take(i + 1),
                        ));
                    }
                },
                SourceSelection::UdpStream(_) => {
                    proof {
                        assert(paths@.map_values(|p: String| p@) =~= serial_paths(
                            self@.take(i + 1),
                        ));
                    }
                },
            }
            i = i + 1;
        }
        proof {
            assert(self@.take(i as int) =~= self@);
        }
        paths
    }

    /// The candidates that are not yet known, in the order found: those
    /// are the endpoints a tick tries to identify and announce.
    pub fn select_candidates(&self, candidates: &Vec<SourceSelection>) -> (r: Vec<SourceSelection>)
        requires
            self.wf(),
        ensures
            r@ == unknown_candidates(candidates@, known_keys(self@)),
    {
        let mut out: Vec<SourceSelection> = Vec::new();
        let mut i: usize = 0;
        while i < candidates.len()
            invariant
                i <= candidates@.len(),
                self.wf(),
                out@ == unknown_candidates(candidates@.take(i as int), known_keys(self@)),
            decreases candidates@.len() - i,
        {
            proof {
                assert(candidates@.take(i + 1).drop_last() =~= candidates@.take(i as int));
            }
            let key = get_device_key(&candidates[i]);
            if !self.is_known_key(&key) {
                out.push(candidates[i].duplicate());
            }
            i = i + 1;
        }
        proof {
            assert(candidates@.take(i as int) =~= candidates@);
        }
        out
    }
}

} // verus!
