use vstd::prelude::*;

verus! {

/// A peer on the local network: the local machine itself or one found by discovery.
#[derive(Debug, Clone)]
pub struct Device {
    pub id: String,
    pub name: String,
    pub ip: String,
    pub device_type: String,
    pub is_online: bool,
}

impl Device {
    /// A field-by-field copy, equal to the original.
    pub fn snapshot(&self) -> (r: Device)
        ensures
            r == *self,
    {
        Device {
            id: self.id.clone(),
            name: self.name.clone(),
            ip: self.ip.clone(),
            device_type: self.device_type.clone(),
            is_online: self.is_online,
        }
    }
}

/// No two devices of the sequence share an id.
pub open spec fn ids_distinct(s: Seq<Device>) -> bool {
    forall|i: int, j: int| 0 <= i < j < s.len() ==> s[i].id@ != s[j].id@
}

/// The sequence holds a device with this id.
pub open spec fn has_id(s: Seq<Device>, id: Seq<char>) -> bool {
    exists|i: int| 0 <= i < s.len() && s[i].id@ == id
}

/// Insert-or-replace by id: a device with the same id is replaced in place,
/// otherwise the new one goes to the end.
pub open spec fn upsert_spec(s: Seq<Device>, d: Device) -> Seq<Device> {
    if has_id(s, d.id@) {
        let i = choose|i: int| 0 <= i < s.len() && s[i].id@ == d.id@;
        s.update(i, d)
    } else {
        s.push(d)
    }
}

/// Every device but the one with the given id, in the same order.
pub open spec fn without_id(s: Seq<Device>, id: Seq<char>) -> Seq<Device> {
    if has_id(s, id) {
        let i = choose|i: int| 0 <= i < s.len() && s[i].id@ == id;
        s.remove(i)
    } else {
        s
    }
}

/// The same devices, with the online flag of the one with the given id set.
pub open spec fn with_status(s: Seq<Device>, id: Seq<char>, online: bool) -> Seq<Device> {
    s.map_values(|d: Device| if d.id@ == id { Device { is_online: online, ..d } } else { d })
}

/// The same devices, with every one of the given name marked offline.
pub open spec fn offline_named(s: Seq<Device>, name: Seq<char>) -> Seq<Device> {
    s.map_values(|d: Device| if d.name@ == name { Device { is_online: false, ..d } } else { d })
}

/// The device kind of an operating system, by its name as Rust reports it.
pub open spec fn device_type_of(os: Seq<char>) -> Seq<char> {
    if os == "windows"@ || os == "macos"@ || os == "linux"@ {
        "desktop"@
    } else if os == "android"@ || os == "ios"@ {
        "mobile"@
    } else {
        "unknown"@
    }
}

/// The local device and the peers that were discovered, in the order they came.
pub struct DeviceManager {
    current_device: Device,
    discovered_devices: Vec<Device>,
}

impl DeviceManager {
    pub closed spec fn current(&self) -> Device {
        self.current_device
    }

    pub closed spec fn discovered(&self) -> Seq<Device> {
        self.discovered_devices@
    }

    pub open spec fn wf(&self) -> bool {
        ids_distinct(self.discovered())
    }

    /// A registry of the given local device and no peers yet.
    pub fn new(current_device: Device) -> (r: DeviceManager)
        ensures
            r.wf(),
            r.current() == current_device,
            r.discovered() == Seq::<Device>::empty(),
    {
        DeviceManager { current_device, discovered_devices: Vec::new() }
    }

    /// The local device, from its id, the host name and the local address when
    /// they could be read, and the operating system's name.
    pub fn create_current_device(
        device_id: String,
        host_name: Option<String>,
        local_ip: Option<String>,
        os: &str,
    ) -> (r: Device)
        ensures
            r.id == device_id,
            r.name@ == (match host_name {
                Some(h) => h@,
                None => "Unknown Device"@,
            }),
            r.ip@ == (match local_ip {
                Some(a) => a@,
                None => "127.0.0.1"@,
            }),
            r.device_type@ == device_type_of(os@),
            r.is_online,
    {
        let name = match host_name {
            Some(h) => h,
            None => String::from_str("Unknown Device"),
        };
        let ip = match local_ip {
            Some(a) => a,
            None => String::from_str("127.0.0.1"),
        };
        Device {
            id: device_id,
            name,
            ip,
            device_type: Self::detect_device_type(os),
            is_online: true,
        }
    }

    /// "desktop" on Windows, macOS and Linux, "mobile" on Android and iOS,
    /// "unknown" elsewhere.
    pub fn detect_device_type(os: &str) -> (r: String)
        ensures
            r@ == device_type_of(os@),
    {
        let o = os.to_owned();
        if o == String::from_str("windows") || o == String::from_str("macos") || o
            == String::from_str("linux") {
            String::from_str("desktop")
        } else if o == String::from_str("android") || o == String::from_str("ios") {
            String::from_str("mobile")
        } else {
            String::from_str("unknown")
        }
    }

    pub fn get_current_device(&self) -> (r: &Device)
        ensures
            *r == self.current(),
    {
        &self.current_device
    }

    /// Position of the discovered device with the given id, if there is one.
    fn position_of(&self, device_id: &String) -> (r: Option<usize>)
        ensures
            match r {
                Some(i) => i < self.discovered().len() && self.discovered()[i as int].id@
                    == device_id@,
                None => !has_id(self.discovered(), device_id@),
            },
    {
        let mut i: usize = 0;
        while i < self.discovered_devices.len()
            invariant
                i <= self.discovered_devices@.len(),
                forall|k: int| 0 <= k < i ==> self.discovered_devices@[k].id@ != device_id@,
            decreases self.discovered_devices@.len() - i,
        {
            if self.discovered_devices[i].id == *device_id {
                return Some(i);
            }
            i = i + 1;
        }
        None
    }

    /// Inserts the device, or replaces the discovered one that has its id.
    pub fn add_device(&mut self, device: Device)
        requires
            old(self).wf(),
        ensures
            final(self).wf(),
            final(self).current() == old(self).current(),
            final(self).discovered() == upsert_spec(old(self).discovered(), device),
    {
        match self.position_of(&device.id) {
            Some(i) => {
                let ghost s = self.discovered_devices@;
                let ghost id = device.id@;
                self.discovered_devices.set(i, device);
                proof {
                    let c = choose|c: int| 0 <= c < s.len() && s[c].id@ == id;
                    assert(c == i as int);
                }
            },
            None => {
                self.discovered_devices.push(device);
            },
        }
    }

    /// Forgets the discovered device with the given id, if any.
    pub fn remove_device(&mut self, device_id: &str)
        requires
            old(self).wf(),
        ensures
            final(self).wf(),
            final(self).current() == old(self).current(),
            final(self).discovered() == without_id(old(self).discovered(), device_id@),
    {
        let id = device_id.to_owned();
        match self.position_of(&id) {
            Some(i) => {
                let ghost s = self.discovered_devices@;
                self.discovered_devices.remove(i);
                proof {
                    let c = choose|c: int| 0 <= c < s.len() && s[c].id@ == id@;
                    assert(c == i as int);
                    let r = s.remove(i as int);
                    assert forall|j: int, k: int| 0 <= j < k < r.len() implies r[j].id@
                        != r[k].id@ by {
                        let jj = if j < i { j } else { j + 1 };
                        let kk = if k < i { k } else { k + 1 };
                        assert(r[j] == s[jj] && r[k] == s[kk]);
                    }
                }
            },
            None => {},
        }
    }

    /// Sets the online flag of a discovered device; an unknown id changes nothing.
    pub fn update_device_status(&mut self, device_id: &str, is_online: bool)
        requires
            old(self).wf(),
        ensures
            final(self).wf(),
            final(self).current() == old(self).current(),
            final(self).discovered() == with_status(old(self).discovered(), device_id@, is_online),
    {
        let id = device_id.to_owned();
        match self.position_of(&id) {
            Some(i) => {
                let ghost s = self.discovered_devices@;
                let mut d = self.discovered_devices[i].snapshot();
                d.is_online = is_online;
                self.discovered_devices.set(i, d);
                proof {
                    assert forall|k: int| 0 <= k < s.len() implies s[k].id@ == id@ <==> k
                        == i by {};
                    assert(self.discovered_devices@ =~= with_status(s, id@, is_online));
                }
            },
            None => {
                assert(self.discovered_devices@ =~= with_status(
                    self.discovered_devices@,
                    id@,
                    is_online,
                ));
            },
        }
    }

    /// Marks every discovered device of the given name offline.
    pub fn mark_offline_by_name(&mut self, name: &str)
        requires
            old(self).wf(),
        ensures
            final(self).wf(),
            final(self).current() == old(self).current(),
            final(self).discovered() == offline_named(old(self).discovered(), name@),
    {
        let n = name.to_owned();
        let ghost s = self.discovered_devices@;
        let mut i: usize = 0;
        while i < self.discovered_devices.len()
            invariant
                self.discovered_devices@.len() == s.len(),
                i <= s.len(),
                n@ == name@,
                self.current_device == old(self).current_device,
                s == old(self).discovered_devices@,
                forall|k: int| 0 <= k < i ==> self.discovered_devices@[k] == offline_named(s, n@)[k],
                forall|k: int| i <= k < s.len() ==> self.discovered_devices@[k] == s[k],
            decreases s.len() - i,
        {
            if self.discovered_devices[i].name == n {
                let mut d = self.discovered_devices[i].snapshot();
                d.is_online = false;
                self.discovered_devices.set(i, d);
            }
            i = i + 1;
        }
        assert(self.discovered_devices@ =~= offline_named(s, n@));
        proof {
            let t = self.discovered_devices@;
            assert forall|x: int, y: int| 0 <= x < y < t.len() implies t[x].id@ != t[y].id@ by {
                assert(t[x].id == s[x].id && t[y].id == s[y].id);
            }
        }
    }

    /// The local device first, then the discovered ones in insertion order.
    pub fn get_devices(&self) -> (r: Vec<Device>)
        ensures
            r@ == seq![self.current()] + self.discovered(),
    {
        let mut devices: Vec<Device> = Vec::new();
        devices.push(self.current_device.snapshot());
        let mut i: usize = 0;
        while i < self.discovered_devices.len()
            invariant
                i <= self.discovered_devices@.len(),
                devices@ == seq![self.current_device] + self.discovered_devices@.subrange(
                    0,
                    i as int,
                ),
            decreases self.discovered_devices@.len() - i,
        {
            devices.push(self.discovered_devices[i].snapshot());
            i = i + 1;
            assert(devices@ =~= seq![self.current_device] + self.discovered_devices@.subrange(
                0,
                i as int,
            ));
        }
        assert(self.discovered_devices@.subrange(0, i as int) =~= self.discovered_devices@);
        devices
    }

    /// The local device when the id is its own, else the discovered device with
    /// that id.
    pub fn get_device_by_id(&self, device_id: &str) -> (r: Option<&Device>)
        requires
            self.wf(),
        ensures
            self.current().id@ == device_id@ ==> r == Some(&self.current()),
            self.current().id@ != device_id@ ==> match r {
                Some(d) => exists|i: int|
                    0 <= i < self.discovered().len() && self.discovered()[i] == *d
                        && d.id@ == device_id@,
                None => !has_id(self.discovered(), device_id@),
            },
    {
        let id = device_id.to_owned();
        if self.current_device.id == id {
            Some(&self.current_device)
        } else {
            match self.position_of(&id) {
                Some(i) => Some(&self.discovered_devices[i]),
                None => None,
            }
        }
    }
}

} // verus!
