//! The playback devices the account can reach, and which one is active.
use crate::spotify::NameAndId;
use vstd::prelude::*;
use vstd::string::StringExecFns;

verus! {

/// The label shown for the active device: the name between starred markers.
pub open spec fn starred_label(name: Seq<char>) -> Seq<char> {
    seq!['*', ' '] + name + seq![' ', '*']
}

/// The menu labels for the available devices, in order: the active device's
/// name starred, the others plain; nothing at all while no device is known
/// to be active.
pub open spec fn device_labels(devices: Seq<(Seq<char>, Seq<char>)>, current: Option<Seq<char>>) -> Seq<
    Seq<char>,
> {
    match current {
        Option::Some(cur) => devices.map_values(
            |d: (Seq<char>, Seq<char>)|
                if d.0 == cur {
                    starred_label(d.0)
                } else {
                    d.0
                },
        ),
        Option::None => Seq::<Seq<char>>::empty(),
    }
}

/// Inserts a name-and-id pair into a device table, replacing the entry of
/// the same name when one exists, so that names stay unique.
#[verifier::loop_isolation(false)]
fn upsert_device(devices: &mut Vec<NameAndId>, name: String, id: String)
    requires
        forall|a: int, b: int|
            0 <= a < b < old(devices)@.len() ==> old(devices)@[a].0@ != old(devices)@[b].0@,
    ensures
        forall|a: int, b: int|
            0 <= a < b < final(devices)@.len() ==> final(devices)@[a].0@ != final(devices)@[b].0@,
{
    let n = devices.len();
    let mut i: usize = 0;
    while i < n
        invariant
            n == devices@.len(),
            i <= n,
            devices@ == old(devices)@,
            forall|k: int| 0 <= k < i ==> devices@[k].0@ != name@,
        decreases n - i,
    {
        if devices[i].0.eq(&name) {
            let ghost before = devices@;
            devices.set(i, (name, id));
            proof {
                let ds = devices@;
                assert forall|a: int, b: int|
                    0 <= a < b < ds.len() implies ds[a].0@ != ds[b].0@ by {
                    if a == i as int {
                        assert(old(devices)@[i as int].0@ != old(devices)@[b].0@);
                        assert(ds[a].0@ == before[i as int].0@);
                        assert(ds[b] == before[b]);
                    } else if b == i as int {
                        assert(old(devices)@[a].0@ != old(devices)@[i as int].0@);
                        assert(ds[b].0@ == before[i as int].0@);
                        assert(ds[a] == before[a]);
                    } else {
                        assert(old(devices)@[a].0@ != old(devices)@[b].0@);
                        assert(ds[a] == before[a]);
                        assert(ds[b] == before[b]);
                    }
                };
            }
            return ;
        }
        i = i + 1;
    }
    devices.push((name, id));
}

#[derive(Clone, Debug)]
pub struct Device {
    /// Device name paired with device id, each name at most once.
    pub available_devices: Vec<NameAndId>,
    pub current_device_name: Option<String>,
}

impl Default for Device {
    fn default() -> (r: Device)
        ensures
            r.available_devices@.len() == 0,
            r.current_device_name is None,
            r.wf(),
    {
        Device { available_devices: Vec::<NameAndId>::new(), current_device_name: None }
    }
}

impl Device {
    /// The device names are unique: each name keys at most one entry.
    pub open spec fn wf(self) -> bool {
        forall|i: int, j: int|
            0 <= i < j < self.available_devices@.len() ==> self.available_devices@[i].0@
                != self.available_devices@[j].0@
    }

    /// The menu labels for the available devices, the active one starred.
    pub fn get_available_devices_names(&self) -> (r: Vec<String>)
        ensures
            r.deep_view() == device_labels(
                self.available_devices.deep_view(),
                match self.current_device_name {
                    Option::Some(cur) => Option::Some(cur@),
                    Option::None => Option::None,
                },
            ),
    {
        let mut names = Vec::<String>::new();
        match &self.current_device_name {
            Option::Some(current) => {
                let ghost cur = current@;
                let ghost devs = self.available_devices.deep_view();
                for i in 0..self.available_devices.len()
                    invariant
                        devs == self.available_devices.deep_view(),
                        devs.len() == self.available_devices@.len(),
                        cur == current@,
                        names@.len() == i,
                        forall|j: int|
                            0 <= j < i ==> names@[j]@ == device_labels(
                                devs,
                                Option::Some(cur),
                            )[j],
                {
                    proof {
                        assert(devs[i as int] == (
                            self.available_devices@[i as int].0@,
                            self.available_devices@[i as int].1@,
                        ));
                    }
                    let name = &self.available_devices[i].0;
                    if name.eq(current) {
                        let mut label = String::new();
                        crate::strings::push_char(&mut label, '*');
                        crate::strings::push_char(&mut label, ' ');
                        label.append(name.as_str());
                        crate::strings::push_char(&mut label, ' ');
                        crate::strings::push_char(&mut label, '*');
                        proof {
                            assert(label@ =~= starred_label(devs[i as int].0));
                        }
                        names.push(label);
                    } else {
                        names.push(name.clone());
                    }
                    proof {
                        assert(names@[i as int]@ == device_labels(
                            devs,
                            Option::Some(cur),
                        )[i as int]);
                    }
                }
                proof {
                    assert(forall|j: int|
                        0 <= j < names@.len() ==> names.deep_view()[j] == names@[j]@);
                    assert(names.deep_view() =~= device_labels(devs, Option::Some(cur)));
                }
            },
            Option::None => {
                proof {
                    assert(names.deep_view() =~= Seq::<Seq<char>>::empty());
                }
            },
        }
        names
    }

    /// The id recorded for a device name, if the name is known.
    pub fn id_for_name(&self, name: &String) -> (r: Option<String>)
        ensures
            match r {
                Option::Some(id) => exists|i: int|
                    0 <= i < self.available_devices@.len() && self.available_devices@[i].0@ == name@
                        && self.available_devices@[i].1@ == id@,
                Option::None => forall|i: int|
                    0 <= i < self.available_devices@.len() ==> self.available_devices@[i].0@
                        != name@,
            },
    {
        for i in 0..self.available_devices.len()
            invariant
                forall|j: int| 0 <= j < i ==> self.available_devices@[j].0@ != name@,
        {
            if self.available_devices[i].0.eq(name) {
                return Option::Some(self.available_devices[i].1.clone());
            }
        }
        Option::None
    }

    /// A fresh snapshot read out of the devices response: the device table
    /// keyed by name, a later entry of the same name replacing the earlier,
    /// and the active device's name recorded — or the old one kept when no
    /// entry is active. Anything but a 200 leaves the device alone.
    pub fn refreshed_from_response(&self, status: u16, body: &str) -> (r: Result<
        Device,
        crate::error::AppError,
    >)
        ensures
            status != 200 ==> (r matches Ok(d) && d.available_devices@ == self.available_devices@
                && d.current_device_name == self.current_device_name && (self.wf() ==> d.wf())),
            status == 200 ==> (r is Ok <==> crate::json::json_parse_ok(body@)),
            status == 200 ==> (r matches Ok(d) ==> d.wf()),
    {
        if status != 200 {
            return Ok(
                Device {
                    available_devices: crate::spotify::clone_name_ids(&self.available_devices),
                    current_device_name: crate::config::clone_opt_string(
                        &self.current_device_name,
                    ),
                },
            );
        }
        let json = match crate::json::parse_body(body) {
            Result::Ok(v) => v,
            Result::Err(e) => {
                return Err(e);
            },
        };
        let devices_array = crate::json::get_array_or_default(&json, "devices");
        let mut available_devices = Vec::<NameAndId>::new();
        let mut current_device_name = crate::config::clone_opt_string(&self.current_device_name);
        let n = devices_array.len();
        let mut i: usize = 0;
        while i < n
            invariant
                n == devices_array@.len(),
                i <= n,
                forall|a: int, b: int|
                    0 <= a < b < available_devices@.len() ==> available_devices@[a].0@
                        != available_devices@[b].0@,
            decreases n - i,
        {
            let name = crate::json::get_string_or_default(&devices_array[i], "name");
            let id = crate::json::get_string_or_default(&devices_array[i], "id");
            let is_active = crate::json::get_bool_or_default(&devices_array[i], "is_active");
            if is_active {
                current_device_name = Some(name.clone());
            }
            upsert_device(&mut available_devices, name, id);
            i = i + 1;
        }
        Ok(Device { available_devices, current_device_name })
    }

    /// The value after a refresh: both fields taken from the fetched
    /// snapshot.
    pub open spec fn spec_refreshed(self, fresh: Device) -> Device {
        fresh
    }

    /// Overwrites the device table and active name from a freshly fetched
    /// snapshot.
    pub fn refresh_from(&mut self, fresh: Device)
        ensures
            *final(self) == old(self).spec_refreshed(fresh),
    {
        *self = fresh;
    }
}

} // verus!
