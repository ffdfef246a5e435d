use vstd::prelude::*;
use crate::crypto::push_char;
use crate::device::{Device, DeviceManager, offline_named};
use vstd::string::StrSliceExecFns;

verus! {

/// The multicast service type under which peers advertise themselves.
pub const SERVICE_TYPE: &'static str = "_lantransfer._tcp.local.";

/// The control port written in the advertised record.
pub const CONTROL_PORT: u16 = 8080;

/// A resolved service record, as the discovery daemon reports it: its full
/// name, its type and the TXT attributes that this service reads.
#[derive(Debug, Clone)]
pub struct ServiceRecord {
    pub fullname: String,
    pub service_type: String,
    pub device_id: Option<String>,
    pub device_type: Option<String>,
    pub ip: Option<String>,
}

/// What the discovery daemon reports.
#[derive(Debug, Clone)]
pub enum DiscoveryEvent {
    Resolved(ServiceRecord),
    /// A record went away; it carries the record's full name.
    Removed(String),
    /// The periodic housekeeping tick. Peers go offline when their record is
    /// removed; a tick evicts nothing.
    Tick,
    /// Receiving from the daemon failed.
    ReceiveError,
}

/// What the discovery loop does after an event.
#[derive(Debug)]
pub enum DiscoveryAction {
    /// A peer was found and stored: tell the user interface.
    Announce(Device),
    /// Nothing to tell.
    Ignore,
    /// Stop the loop.
    Stop,
}

/// The instance name of a full service name: the full name without the
/// `"." + service_type` that ends it; a name that does not end so is kept whole.
pub open spec fn instance_of(fullname: Seq<char>, service_type: Seq<char>) -> Seq<char> {
    let suffix = "."@ + service_type;
    if suffix.len() <= fullname.len() && fullname.subrange(
        fullname.len() - suffix.len(),
        fullname.len() as int,
    ) == suffix {
        fullname.subrange(0, fullname.len() - suffix.len())
    } else {
        fullname
    }
}

/// The characters of `s` with every space turned into a dash.
pub open spec fn dashed(s: Seq<char>) -> Seq<char> {
    s.map_values(|c: char| if c == ' ' { '-' } else { c })
}

/// The host name advertised for a device name: spaces become dashes, and
/// ".local." follows.
pub fn service_host_name(name: &str) -> (r: String)
    ensures
        r@ == dashed(name@) + ".local."@,
{
    let len = name.unicode_len();
    let mut out = String::new();
    let mut i: usize = 0;
    while i < len
        invariant
            len == name@.len(),
            i <= len,
            out@ == dashed(name@.subrange(0, i as int)),
        decreases len - i,
    {
        let c = name.get_char(i);
        push_char(&mut out, if c == ' ' { '-' } else { c });
        i = i + 1;
        assert(out@ =~= dashed(name@.subrange(0, i as int)));
    }
    assert(name@.subrange(0, len as int) =~= name@);
    out.concat(".local.")
}

/// The TXT attributes advertised for a device, as (key, value) pairs.
pub fn service_properties(device: &Device) -> (r: Vec<(String, String)>)
    ensures
        r@.len() == 3,
        r@[0].0@ == "device_id"@ && r@[0].1 == device.id,
        r@[1].0@ == "device_type"@ && r@[1].1 == device.device_type,
        r@[2].0@ == "ip"@ && r@[2].1 == device.ip,
{
    let mut v: Vec<(String, String)> = Vec::new();
    v.push((String::from_str("device_id"), device.id.clone()));
    v.push((String::from_str("device_type"), device.device_type.clone()));
    v.push((String::from_str("ip"), device.ip.clone()));
    v
}

/// The instance name of a full service name.
pub fn instance_name(fullname: &str, service_type: &str) -> (r: String)
    ensures
        r@ == instance_of(fullname@, service_type@),
{
    let suffix = String::from_str(".").concat(service_type);
    let suf: &str = suffix.as_str();
    let full_len = fullname.unicode_len();
    let suf_len = suf.unicode_len();
    if suf_len <= full_len {
        let start = full_len - suf_len;
        let mut same = true;
        let mut k: usize = 0;
        while k < suf_len
            invariant
                full_len == fullname@.len(),
                suf_len == suf@.len(),
                suf@ == "."@ + service_type@,
                start == full_len - suf_len,
                k <= suf_len,
                same == (forall|j: int| 0 <= j < k ==> fullname@[start + j] == suf@[j]),
            decreases suf_len - k,
        {
            if fullname.get_char(start + k) != suf.get_char(k) {
                same = false;
            }
            k = k + 1;
        }
        if same {
            assert(fullname@.subrange(start as int, full_len as int) =~= suf@);
            return fullname.substring_char(0, start).to_owned();
        } else {
            proof {
                let j = choose|j: int| 0 <= j < suf_len && fullname@[start + j] != suf@[j];
                assert(fullname@.subrange(start as int, full_len as int)[j] != suf@[j]);
            }
        }
    }
    fullname.to_owned()
}

/// A record whose full name is an instance name, a dot and the service type
/// gives back that instance name.
pub proof fn lemma_instance_of_record(name: Seq<char>, service_type: Seq<char>)
    ensures
        instance_of(name + ("."@ + service_type), service_type) == name,
{
    let suffix = "."@ + service_type;
    let full = name + suffix;
    assert(full.subrange(full.len() - suffix.len(), full.len() as int) =~= suffix);
    assert(full.subrange(0, full.len() - suffix.len()) =~= name);
}

/// The peer that a record describes, or `None` when an attribute is missing or
/// when the record is the local device's own.
pub fn parse_device_info(record: &ServiceRecord, current_device_id: &str) -> (r: Option<Device>)
    ensures
        r is Some <==> (record.device_id is Some && record.device_type is Some && record.ip is Some
            && record.device_id->Some_0@ != current_device_id@),
        r matches Some(d) ==> d.id == record.device_id->Some_0 && d.device_type
            == record.device_type->Some_0 && d.ip == record.ip->Some_0 && d.name@ == instance_of(
            record.fullname@,
            record.service_type@,
        ) && d.is_online,
{
    let device_id = match &record.device_id {
        Some(v) => v.clone(),
        None => return None,
    };
    let device_type = match &record.device_type {
        Some(v) => v.clone(),
        None => return None,
    };
    let ip = match &record.ip {
        Some(v) => v.clone(),
        None => return None,
    };
    if device_id == current_device_id.to_owned() {
        return None;
    }
    Some(
        Device {
            id: device_id,
            name: instance_name(record.fullname.as_str(), record.service_type.as_str()),
            ip,
            device_type,
            is_online: true,
        },
    )
}

/// One step of the discovery loop: a resolved peer other than the local device
/// is stored and announced; a removed one is marked offline; a receive error
/// stops the loop.
pub fn handle_discovery_event(registry: &mut DeviceManager, event: DiscoveryEvent) -> (r:
    DiscoveryAction)
    requires
        old(registry).wf(),
    ensures
        final(registry).wf(),
        final(registry).current() == old(registry).current(),
        r matches DiscoveryAction::Announce(d) ==> d.id@ != old(registry).current().id@,
        event is ReceiveError ==> r is Stop && final(registry).discovered() == old(registry).discovered(),
        event is Tick ==> r is Ignore && final(registry).discovered() == old(registry).discovered(),
        event matches DiscoveryEvent::Resolved(rec) ==> match parse_spec(
            rec,
            old(registry).current().id@,
        ) {
            true => r matches DiscoveryAction::Announce(d) && d.id == rec.device_id->Some_0
                && final(registry).discovered() == crate::device::upsert_spec(
                old(registry).discovered(),
                d,
            ),
            false => r is Ignore && final(registry).discovered() == old(registry).discovered(),
        },
        event matches DiscoveryEvent::Removed(full) ==> r is Ignore,
        event matches DiscoveryEvent::Removed(full) ==> final(registry).discovered()
            == offline_named(old(registry).discovered(), instance_of(full@, SERVICE_TYPE@)),
{
    match event {
        DiscoveryEvent::Resolved(rec) => {
            let self_id = registry.get_current_device().id.clone();
            match parse_device_info(&rec, self_id.as_str()) {
                Some(d) => {
                    registry.add_device(d.snapshot());
                    DiscoveryAction::Announce(d)
                },
                None => DiscoveryAction::Ignore,
            }
        },
        DiscoveryEvent::Removed(full) => {
            let name = instance_name(full.as_str(), SERVICE_TYPE);
            registry.mark_offline_by_name(name.as_str());
            DiscoveryAction::Ignore
        },
        DiscoveryEvent::Tick => DiscoveryAction::Ignore,
        DiscoveryEvent::ReceiveError => DiscoveryAction::Stop,
    }
}

/// Whether a record yields a peer for a local device of the given id.
pub open spec fn parse_spec(rec: ServiceRecord, self_id: Seq<char>) -> bool {
    rec.device_id is Some && rec.device_type is Some && rec.ip is Some && rec.device_id->Some_0@
        != self_id
}

/// A record that carries the local device's own id never yields a device, so
/// the local device is never announced as discovered.
pub proof fn lemma_self_never_discovered(rec: ServiceRecord, self_id: Seq<char>)
    requires
        rec.device_id matches Some(id) && id@ == self_id,
    ensures
        !parse_spec(rec, self_id),
{
}

} // verus!
