//! Packet capture: the captured packets, the errors of a capture, which
//! network devices are listened on, and the tracking of devices that come
//! and go.
use std::hash::{DefaultHasher, Hasher};

use vstd::prelude::*;
use vstd::std_specs::hash::DefaultHasherAdditionalSpecFns;
use vstd::string::StringSliceAdditionalSpecFns;

use crate::text::str_eq;

verus! {

/// The UDP ports the game talks on.
pub const PORT_RANGE: (u16, u16) = (23301, 23302);

/// The libpcap filter for the game's traffic.
pub const PCAP_FILTER: &'static str = "udp portrange 23301-23302";

/// A captured network packet and the source it came from.
#[derive(Debug, Clone)]
pub struct Packet {
    pub source_id: u64,
    pub data: Vec<u8>,
}

/// Why a capture failed, with the message of the underlying error.
#[derive(Debug)]
pub enum CaptureError {
    /// The device could not be opened or listed.
    Device(String),
    /// The packet filter could not be set.
    Filter(String),
    /// Capturing failed, after some packets had been captured or not.
    Capture { has_captured: bool, error: String },
}

impl CaptureError {
    /// The message of the underlying error.
    pub fn message(&self) -> (r: &str)
        ensures
            r@ == match self {
                CaptureError::Device(e) => e@,
                CaptureError::Filter(e) => e@,
                CaptureError::Capture { error, .. } => error@,
            },
    {
        match self {
            CaptureError::Device(e) => e.as_str(),
            CaptureError::Filter(e) => e.as_str(),
            CaptureError::Capture { error, .. } => error.as_str(),
        }
    }
}

/// The source id of packets read from the file at `path`: the default
/// hasher's digest of the path's bytes.
pub fn source_id_of(path: &str) -> (r: u64)
    ensures
        r == DefaultHasher::spec_finish(seq![path.spec_bytes()]),
{
    let mut hasher = DefaultHasher::new();
    hasher.write(path.as_bytes());
    let r = hasher.finish();
    assert(Seq::<Seq<u8>>::empty().push(path.spec_bytes()) =~= seq![path.spec_bytes()]);
    r
}

/// The packets of `frames`, in order, all from source `source_id`.
pub fn packets_from(source_id: u64, frames: &Vec<Vec<u8>>) -> (r: Vec<Packet>)
    ensures
        r@.len() == frames@.len(),
        forall|i: int| 0 <= i < frames@.len() ==> (#[trigger] r@[i]).source_id == source_id && r@[i].data@
            == frames@[i]@,
{
    let mut r: Vec<Packet> = Vec::new();
    let mut i: usize = 0;
    while i < frames.len()
        invariant
            i <= frames@.len(),
            r@.len() == i,
            forall|j: int| 0 <= j < i ==> (#[trigger] r@[j]).source_id == source_id && r@[j].data@
                == frames@[j]@,
        decreases frames.len() - i,
    {
        let data = vstd::slice::slice_to_vec(frames[i].as_slice());
        r.push(Packet { source_id, data });
        i = i + 1;
    }
    r
}

/// Turns the raw packets of one device into [`Packet`]s of its source.
pub struct Codec {
    pub source_id: u64,
}

impl Codec {
    /// The packet holding `data`, from this codec's source.
    pub fn decode(&mut self, data: &[u8]) -> (r: Packet)
        ensures
            r.source_id == old(self).source_id,
            r.data@ == data@,
            *final(self) == *old(self),
    {
        Packet { source_id: self.source_id, data: vstd::slice::slice_to_vec(data) }
    }
}

/// Whether a capture has delivered a packet yet, for its error reports.
pub struct CaptureProgress {
    pub has_captured: bool,
}

impl CaptureProgress {
    /// A capture that has delivered nothing yet.
    pub fn new() -> (r: CaptureProgress)
        ensures
            !r.has_captured,
    {
        CaptureProgress { has_captured: false }
    }

    /// Passes a packet on and notes that one was captured; turns an error
    /// into a capture error that tells whether packets came before it.
    pub fn on_result(&mut self, result: Result<Packet, String>) -> (r: Result<Packet, CaptureError>)
        ensures
            match result {
                Ok(p) => final(self).has_captured && (r matches Ok(q) && q.source_id == p.source_id
                    && q.data@ == p.data@),
                Err(e) => final(self).has_captured == old(self).has_captured && (r matches Err(
                    CaptureError::Capture { has_captured, error },
                ) && has_captured == old(self).has_captured && error@ == e@),
            },
    {
        match result {
            Ok(p) => {
                self.has_captured = true;
                Ok(p)
            },
            Err(e) => Err(CaptureError::Capture { has_captured: self.has_captured, error: e }),
        }
    }
}

/// What the capture needs to know of a network device.
#[derive(Debug, Clone)]
pub struct DeviceInfo {
    pub name: String,
    pub connected: bool,
    pub address_count: usize,
    pub loopback: bool,
}

/// A device is listened on when it is connected, has an address and is not
/// the loopback device.
pub open spec fn usable(d: DeviceInfo) -> bool {
    d.connected && d.address_count > 0 && !d.loopback
}

/// The positions of the devices to listen on, in order.
pub fn select_devices(devices: &Vec<DeviceInfo>) -> (r: Vec<usize>)
    ensures
        forall|k: int| 0 <= k < r@.len() ==> r@[k] < devices@.len() && usable(devices@[r@[k] as int]),
        forall|k: int, l: int| 0 <= k < l < r@.len() ==> r@[k] < r@[l],
        forall|i: int| 0 <= i < devices@.len() && usable(#[trigger] devices@[i]) ==> r@.contains(i as usize),
{
    let mut r: Vec<usize> = Vec::new();
    let mut i: usize = 0;
    while i < devices.len()
        invariant
            i <= devices@.len(),
            forall|k: int| 0 <= k < r@.len() ==> r@[k] < i && usable(devices@[r@[k] as int]),
            forall|k: int, l: int| 0 <= k < l < r@.len() ==> r@[k] < r@[l],
            forall|j: int| 0 <= j < i && usable(#[trigger] devices@[j]) ==> r@.contains(j as usize),
        decreases devices.len() - i,
    {
        let d = &devices[i];
        if d.connected && d.address_count > 0 && !d.loopback {
            let ghost before = r@;
            r.push(i);
            proof {
                assert(r@[r@.len() - 1] == i);
                assert forall|j: int| 0 <= j < i && usable(#[trigger] devices@[j]) implies r@.contains(j as usize) by {
                    let k = choose|k: int| 0 <= k < before.len() && before[k] == j as usize;
                    assert(r@[k] == j as usize);
                }
            }
        }
        i = i + 1;
    }
    r
}

/// The views of a list of names.
pub open spec fn names_view(s: Seq<String>) -> Seq<Seq<char>> {
    s.map_values(|n: String| n@)
}

/// Whether `name` is among `names`.
fn contains_name(names: &Vec<String>, name: &str) -> (r: bool)
    ensures
        r == names_view(names@).contains(name@),
{
    let mut i: usize = 0;
    while i < names.len()
        invariant
            i <= names@.len(),
            forall|j: int| 0 <= j < i ==> names@[j]@ != name@,
        decreases names.len() - i,
    {
        if str_eq(names[i].as_str(), name) {
            assert(names_view(names@)[i as int] == name@);
            return true;
        }
        i = i + 1;
    }
    assert forall|j: int| 0 <= j < names_view(names@).len() implies names_view(names@)[j] != name@ by {
        assert(names_view(names@)[j] == names@[j]@);
    }
    false
}

/// Tracking law: after a round, a following round that lists the same
/// devices reports none of them: each is already known.
pub proof fn law_same_devices_are_not_reported_again(seen: Seq<Seq<char>>, names: Seq<Seq<char>>)
    requires
        seen.to_set() == names.to_set(),
    ensures
        forall|i: int| 0 <= i < names.len() ==> seen.contains(#[trigger] names[i]),
{
    assert forall|i: int| 0 <= i < names.len() implies seen.contains(#[trigger] names[i]) by {
        assert(names.to_set().contains(names[i]));
        assert(seen.to_set().contains(names[i]));
    }
}

/// `idx` lists, in ascending order, the positions in `names` of the names
/// not in `known`, each at its first occurrence in `names`.
pub open spec fn reports_new(known: Set<Seq<char>>, names: Seq<Seq<char>>, idx: Seq<usize>) -> bool {
    &&& forall|k: int, l: int| 0 <= k < l < idx.len() ==> idx[k] < idx[l]
    &&& forall|k: int| 0 <= k < idx.len() ==> idx[k] < names.len()
    &&& forall|i: int|
        0 <= i < names.len() ==> (idx.contains(i as usize) <==> {
            &&& !known.contains(names[i])
            &&& forall|j: int| 0 <= j < i ==> names[j] != names[i]
        })
}

/// The names of a listing round: those of the devices listed, or none when
/// listing failed.
pub open spec fn listing_view(listing: Result<Vec<String>, CaptureError>) -> Option<Seq<Seq<char>>> {
    match listing {
        Ok(names) => Some(names_view(names@)),
        Err(_) => None,
    }
}

/// What a tracker knows after a listing round: the names of a successful
/// listing; a failed listing changes nothing.
pub open spec fn next_known(known: Set<Seq<char>>, listing: Option<Seq<Seq<char>>>) -> Set<Seq<char>> {
    match listing {
        Some(names) => names.to_set(),
        None => known,
    }
}

/// What a new tracker knows after the listing rounds `rounds`, in order.
pub open spec fn known_after(rounds: Seq<Option<Seq<Seq<char>>>>) -> Set<Seq<char>>
    decreases rounds.len(),
{
    if rounds.len() == 0 {
        Set::empty()
    } else {
        next_known(known_after(rounds.drop_last()), rounds.last())
    }
}

/// Tracking law over many rounds: after any sequence of listing rounds a
/// tracker knows exactly the names of the last successful listing, and
/// nothing when no listing succeeded; a failed listing changes nothing, so
/// a device that left and comes back is new again.
pub proof fn law_known_is_last_successful_listing(rounds: Seq<Option<Seq<Seq<char>>>>)
    ensures
        (forall|j: int| 0 <= j < rounds.len() ==> rounds[j] is None) ==> known_after(rounds)
            == Set::<Seq<char>>::empty(),
        forall|j: int|
            0 <= j < rounds.len() && #[trigger] rounds[j] is Some && (forall|k: int|
                j < k < rounds.len() ==> rounds[k] is None) ==> known_after(rounds) == rounds[j].unwrap().to_set(),
    decreases rounds.len(),
{
    if rounds.len() > 0 {
        let t = rounds.drop_last();
        law_known_is_last_successful_listing(t);
        let n = rounds.len() - 1;
        if rounds[n] is Some {
            assert forall|j: int|
                0 <= j < rounds.len() && #[trigger] rounds[j] is Some && (forall|k: int|
                    j < k < rounds.len() ==> rounds[k] is None) implies known_after(rounds)
                == rounds[j].unwrap().to_set() by {
                if j < n {
                    assert(rounds[n] is None);
                }
            }
        } else {
            if forall|j: int| 0 <= j < rounds.len() ==> rounds[j] is None {
                assert forall|j: int| 0 <= j < t.len() implies t[j] is None by {
                    assert(rounds[j] is None);
                }
            }
            assert forall|j: int|
                0 <= j < rounds.len() && #[trigger] rounds[j] is Some && (forall|k: int|
                    j < k < rounds.len() ==> rounds[k] is None) implies known_after(rounds)
                == rounds[j].unwrap().to_set() by {
                assert(t[j] == rounds[j]);
                assert forall|k: int| j < k < t.len() implies t[k] is None by {
                    assert(rounds[k] is None);
                }
            }
        }
    }
}

/// The devices listed in an earlier round, for finding new ones.
pub struct DeviceTracker {
    pub seen: Vec<String>,
}

impl DeviceTracker {
    /// The names the tracker knows.
    pub open spec fn known(&self) -> Set<Seq<char>> {
        names_view(self.seen@).to_set()
    }

    /// A tracker that has seen no device.
    pub fn new() -> (r: DeviceTracker)
        ensures
            r.seen@.len() == 0,
            r.known() == known_after(Seq::empty()),
    {
        let r = DeviceTracker { seen: Vec::new() };
        assert(r.known() =~= Set::empty());
        r
    }

    /// One round of watching for devices: a successful listing is observed
    /// as by [`DeviceTracker::observe`] and the positions of its new devices
    /// are returned; a failed listing is passed on and changes nothing.
    pub fn on_listing(&mut self, listing: Result<Vec<String>, CaptureError>) -> (r: Result<Vec<usize>, CaptureError>)
        ensures
            final(self).known() == next_known(old(self).known(), listing_view(listing)),
            match listing {
                Ok(names) => r matches Ok(idx) && reports_new(old(self).known(), names_view(names@), idx@),
                Err(e) => r == Err::<Vec<usize>, CaptureError>(e),
            },
    {
        match listing {
            Ok(names) => Ok(self.observe(&names)),
            Err(e) => Err(e),
        }
    }

    /// One listing round with the names of the devices present: devices no
    /// longer present are forgotten, and the positions of the devices not
    /// seen before (the first of several with one name) are returned, in
    /// order. Afterwards exactly the present devices are known.
    pub fn observe(&mut self, names: &Vec<String>) -> (r: Vec<usize>)
        ensures
            final(self).known() == names_view(names@).to_set(),
            reports_new(old(self).known(), names_view(names@), r@),
    {
        let ghost old_seen = names_view(self.seen@);
        let mut kept: Vec<String> = Vec::new();
        let mut i: usize = 0;
        while i < self.seen.len()
            invariant
                i <= self.seen@.len(),
                old_seen == names_view(self.seen@),
                forall|k: int| 0 <= k < kept@.len() ==> names_view(names@).contains(#[trigger] kept@[k]@),
                forall|k: int| 0 <= k < kept@.len() ==> old_seen.contains(#[trigger] kept@[k]@),
                forall|j: int| 0 <= j < i && names_view(names@).contains(#[trigger] old_seen[j])
                    ==> names_view(kept@).contains(old_seen[j]),
            decreases self.seen.len() - i,
        {
            let present = contains_name(names, self.seen[i].as_str());
            if present {
                let ghost before = kept@;
                kept.push(self.seen[i].clone());
                proof {
                    assert(kept@[kept@.len() - 1]@ == self.seen@[i as int]@);
                    assert(old_seen[i as int] == self.seen@[i as int]@);
                    assert forall|j: int| 0 <= j < i + 1 && names_view(names@).contains(#[trigger] old_seen[j])
                        implies names_view(kept@).contains(old_seen[j]) by {
                        if j < i {
                            let k = choose|k: int| 0 <= k < before.len() && names_view(before)[k] == old_seen[j];
                            assert(names_view(kept@)[k] == old_seen[j]);
                        } else {
                            assert(names_view(kept@)[kept@.len() - 1] == old_seen[j]);
                        }
                    }
                }
            }
            i = i + 1;
        }
        proof {
            assert forall|x: Seq<char>| names_view(kept@).contains(x) <==> (old_seen.contains(x)
                && names_view(names@).contains(x)) by {
                if names_view(kept@).contains(x) {
                    let k = choose|k: int| 0 <= k < kept@.len() && names_view(kept@)[k] == x;
                    assert(kept@[k]@ == x);
                }
                if old_seen.contains(x) && names_view(names@).contains(x) {
                    let j = choose|j: int| 0 <= j < old_seen.len() && old_seen[j] == x;
                }
            }
        }
        let ghost nv = names_view(names@);
        let mut r: Vec<usize> = Vec::new();
        let mut i: usize = 0;
        while i < names.len()
            invariant
                i <= names@.len(),
                nv == names_view(names@),
                forall|x: Seq<char>| #[trigger] names_view(kept@).contains(x) <==> ((old_seen.contains(x)
                    && nv.contains(x)) || nv.take(i as int).contains(x)),
                forall|k: int| 0 <= k < r@.len() ==> r@[k] < i,
                forall|k: int, l: int| 0 <= k < l < r@.len() ==> r@[k] < r@[l],
                forall|j: int|
                    0 <= j < i ==> (r@.contains(j as usize) <==> {
                        &&& !old_seen.contains(names@[j]@)
                        &&& forall|k: int| 0 <= k < j ==> names@[k]@ != names@[j]@
                    }),
            decreases names.len() - i,
        {
            let ghost kept0 = kept@;
            let known = contains_name(&kept, names[i].as_str());
            proof {
                assert(nv[i as int] == names@[i as int]@);
                assert(nv.contains(names@[i as int]@));
                if nv.take(i as int).contains(names@[i as int]@) {
                    let k = choose|k: int| 0 <= k < i && nv.take(i as int)[k] == names@[i as int]@;
                    assert(names@[k]@ == nv[k]);
                }
                if exists|k: int| 0 <= k < i && names@[k]@ == names@[i as int]@ {
                    let k = choose|k: int| 0 <= k < i && names@[k]@ == names@[i as int]@;
                    assert(nv.take(i as int)[k] == names@[i as int]@);
                }
                let t0 = nv.take(i as int);
                let t1 = nv.take(i as int + 1);
                assert forall|x: Seq<char>| t1.contains(x) <==> (t0.contains(x) || x == names@[i as int]@) by {
                    if t1.contains(x) {
                        let k = choose|k: int| 0 <= k < t1.len() && t1[k] == x;
                        if k < i {
                            assert(t0[k] == x);
                        }
                    }
                    if t0.contains(x) {
                        let k = choose|k: int| 0 <= k < t0.len() && t0[k] == x;
                        assert(t1[k] == x);
                    }
                    if x == names@[i as int]@ {
                        assert(t1[i as int] == x);
                    }
                }
            }
            if !known {
                let ghost before = kept@;
                kept.push(names[i].clone());
                let ghost before_r = r@;
                r.push(i);
                proof {
                    assert(names_view(kept@) =~= names_view(before).push(names@[i as int]@));
                    assert forall|x: Seq<char>| names_view(kept@).contains(x) <==> (names_view(before).contains(x)
                        || x == names@[i as int]@) by {
                        if names_view(kept@).contains(x) {
                            let k = choose|k: int| 0 <= k < names_view(kept@).len() && names_view(kept@)[k] == x;
                            if k < before.len() {
                                assert(names_view(before)[k] == x);
                            }
                        }
                        if names_view(before).contains(x) {
                            let k = choose|k: int| 0 <= k < names_view(before).len() && names_view(before)[k] == x;
                            assert(names_view(kept@)[k] == x);
                        }
                        if x == names@[i as int]@ {
                            assert(names_view(kept@)[before.len() as int] == x);
                        }
                    }
                    assert forall|j: usize| j <= i implies (#[trigger] r@.contains(j) <==> before_r.contains(j)
                        || j == i) by {
                        if r@.contains(j) {
                            let k = choose|k: int| 0 <= k < r@.len() && r@[k] == j;
                            if k < before_r.len() {
                                assert(before_r[k] == j);
                            }
                        }
                        if before_r.contains(j) {
                            let k = choose|k: int| 0 <= k < before_r.len() && before_r[k] == j;
                            assert(r@[k] == j);
                        }
                        if j == i {
                            assert(r@[before_r.len() as int] == j);
                        }
                    }
                    assert(!before_r.contains(i as usize));
                }
            } else {
                proof {
                    assert(!r@.contains(i as usize));
                }
            }
            proof {
                let t1 = nv.take(i as int + 1);
                assert(names_view(kept@).contains(names@[i as int]@));
                let t0 = nv.take(i as int);
                assert forall|x: Seq<char>| #[trigger] names_view(kept@).contains(x) <==> ((old_seen.contains(x)
                    && nv.contains(x)) || t1.contains(x)) by {
                    assert(t1.contains(x) == (t0.contains(x) || x == names@[i as int]@));
                    assert(names_view(kept0).contains(x) <==> ((old_seen.contains(x) && nv.contains(x))
                        || t0.contains(x)));
                    if known {
                        assert(kept@ == kept0);
                    } else {
                        assert(names_view(kept@).contains(x) <==> (names_view(kept0).contains(x)
                            || x == names@[i as int]@));
                    }
                }
            }
            i = i + 1;
        }
        proof {
            assert(nv.take(names@.len() as int) =~= nv);
            assert forall|x: Seq<char>| names_view(kept@).contains(x) <==> nv.contains(x) by {}
            assert(names_view(kept@).to_set() =~= nv.to_set());
            assert forall|m: int| 0 <= m < nv.len() implies (r@.contains(m as usize) <==> {
                &&& !old_seen.to_set().contains(nv[m])
                &&& forall|j: int| 0 <= j < m ==> nv[j] != nv[m]
            }) by {
                assert(nv[m] == names@[m]@);
                assert(r@.contains(m as usize) <==> {
                    &&& !old_seen.contains(names@[m]@)
                    &&& forall|k: int| 0 <= k < m ==> names@[k]@ != names@[m]@
                });
                if forall|k: int| 0 <= k < m ==> names@[k]@ != names@[m]@ {
                    assert forall|j: int| 0 <= j < m implies nv[j] != nv[m] by {
                        assert(nv[j] == names@[j]@);
                    }
                }
                if forall|j: int| 0 <= j < m ==> nv[j] != nv[m] {
                    assert forall|k: int| 0 <= k < m implies names@[k]@ != names@[m]@ by {
                        assert(nv[k] == names@[k]@);
                    }
                }
            }
        }
        self.seen = kept;
        r
    }
}

/// The libpcap capture backend: it listens on every usable device.
pub struct PcapBackend;

/// The Windows packet monitor backend: it captures on all interfaces at
/// once.
pub struct PktmonBackend;

/// The one device of the packet monitor backend.
#[derive(Debug)]
pub struct PktmonCaptureDevice;

impl PktmonBackend {
    /// The packet monitor needs no device choice: its single device.
    pub fn list_devices(&self) -> (r: Vec<PktmonCaptureDevice>)
        ensures
            r@.len() == 1,
    {
        vec![PktmonCaptureDevice]
    }
}

/// Reads packets from a recorded trace file.
pub struct EtlBackend {
    pub etl_path: String,
}

/// The one device of a trace file: the file itself.
#[derive(Debug)]
pub struct EtlCaptureDevice {
    pub etl_path: String,
}

impl EtlBackend {
    /// A trace file needs no device choice: its single device reads the
    /// same file.
    pub fn list_devices(&self) -> (r: Vec<EtlCaptureDevice>)
        ensures
            r@.len() == 1,
            r@[0].etl_path@ == self.etl_path@,
    {
        vec![EtlCaptureDevice { etl_path: self.etl_path.clone() }]
    }
}

/// Reads packets from a recorded capture file; it is its own device.
#[derive(Debug)]
pub struct PcapFile {
    pub file: String,
}

impl PcapFile {
    /// The capture of the file at `file`.
    pub fn new(file: String) -> (r: PcapFile)
        ensures
            r.file@ == file@,
    {
        PcapFile { file }
    }

    /// The device's name: the file's path.
    pub fn name(&self) -> (r: &str)
        ensures
            r@ == self.file@,
    {
        self.file.as_str()
    }

    /// A capture of the same file.
    pub fn create_capture(&self) -> (r: PcapFile)
        ensures
            r.file@ == self.file@,
    {
        PcapFile { file: self.file.clone() }
    }
}

/// A change of the watched capture file or folder.
#[derive(Debug, Clone, Copy, PartialEq, Eq, Structural)]
pub enum FileEventKind {
    /// A file was created (or the watched file is first seen).
    CreateFile,
    /// A file was removed.
    RemoveFile,
    /// Anything else.
    Other,
}

/// The capture device a watch event brings: a created file is a new capture
/// file (the event's first path), a failed watch is a device error, and
/// other events bring nothing.
pub fn device_for_event(event: Result<(FileEventKind, Vec<String>), String>) -> (r: Option<Result<PcapFile, CaptureError>>)
    requires
        event matches Ok((FileEventKind::CreateFile, paths)) ==> paths@.len() > 0,
    ensures
        match event {
            Ok((FileEventKind::CreateFile, paths)) => r matches Some(Ok(f)) && f.file@ == paths@[0]@,
            Ok(_) => r is None,
            Err(e) => r matches Some(Err(CaptureError::Device(m))) && m@ == e@,
        },
{
    match event {
        Ok((FileEventKind::CreateFile, paths)) => Some(Ok(PcapFile { file: paths[0].clone() })),
        Ok(_) => None,
        Err(e) => Some(Err(CaptureError::Device(e))),
    }
}

/// A packet monitor filter: UDP traffic on one port.
#[derive(Debug, Clone)]
pub struct PortFilter {
    pub name: String,
    pub port: u16,
}

/// The packet monitor filters for the game's traffic: one per port of
/// [`PORT_RANGE`], in order.
pub fn pktmon_filters() -> (r: Vec<PortFilter>)
    ensures
        r@.len() == 2,
        r@[0].port == PORT_RANGE.0,
        r@[1].port == PORT_RANGE.1,
        r@[0].name@ == "UDP Filter"@,
        r@[1].name@ == "UDP Filter"@,
{
    let first = PortFilter { name: String::from_str("UDP Filter"), port: PORT_RANGE.0 };
    let second = PortFilter { name: String::from_str("UDP Filter"), port: PORT_RANGE.1 };
    vec![first, second]
}

} // verus!
