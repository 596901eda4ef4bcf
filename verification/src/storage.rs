//! The in-memory device store: the table of paired devices, keyed by id,
//! with token-hash lookup. Persisting the table to disk is the caller's
//! business; every change here leaves the table well-formed.

use vstd::prelude::*;

verus! {

use vstd::string::StringSliceAdditionalSpecFns;
use crate::device::{clone_device, dev_eqv, Device, DeviceId};

/// Storage errors.
#[derive(Debug, Clone)]
pub enum StorageError {
    /// An input/output failure
    Io(String),
    /// A serialization failure
    Json(String),
    /// No device under the given id
    NotFound(String),
    /// The configuration directory could not be determined
    NoConfigDir,
}

/// Some device in the table carries this id.
pub open spec fn contains_id(devices: Seq<Device>, id: Seq<char>) -> bool {
    exists|i: int| 0 <= i < devices.len() && #[trigger] devices[i].id.0@ == id
}

/// Some device in the table carries this token hash.
pub open spec fn contains_hash(devices: Seq<Device>, hash: Seq<char>) -> bool {
    exists|i: int| 0 <= i < devices.len() && #[trigger] devices[i].token_hash@ == hash
}

/// The table of paired devices.
pub struct DeviceStorage {
    /// The devices, ids unique
    pub devices: Vec<Device>,
}

impl DeviceStorage {
    /// Well-formed: no two devices share an id.
    pub open spec fn wf(&self) -> bool {
        forall|i: int, j: int|
            0 <= i < j < self.devices@.len() ==> #[trigger] self.devices@[i].id.0@
                != #[trigger] self.devices@[j].id.0@
    }

    /// An empty store.
    pub fn new() -> (r: Self)
        ensures
            r.wf(),
            r.devices@.len() == 0,
    {
        DeviceStorage { devices: Vec::new() }
    }

    /// The index of the device with this id, when present.
    fn find_index(&self, id: &str) -> (r: Option<usize>)
        ensures
            match r {
                Some(i) => i < self.devices@.len() && self.devices@[i as int].id.0@ == id@,
                None => !contains_id(self.devices@, id@),
            },
    {
        let mut i: usize = 0;
        while i < self.devices.len()
            invariant
                i <= self.devices@.len(),
                forall|j: int| 0 <= j < i ==> #[trigger] self.devices@[j].id.0@ != id@,
            decreases self.devices@.len() - i,
        {
            if crate::text::bytes_eq(self.devices[i].id.0.as_str().as_bytes(), id.as_bytes()) {
                proof {
                    crate::text::lemma_utf8_eq(self.devices@[i as int].id.0@, id@);
                }
                return Some(i);
            }
            proof {
                assert(self.devices@[i as int].id.0@ != id@);
            }
            i = i + 1;
        }
        None
    }

    /// Adds the device, or replaces the one already carrying its id.
    pub fn save_device(&mut self, device: Device) -> (r: Result<(), StorageError>)
        requires
            old(self).wf(),
        ensures
            r is Ok,
            final(self).wf(),
            (exists|i: int|
                0 <= i < old(self).devices@.len() && old(self).devices@[i].id.0@ == device.id.0@
                    && final(self).devices@ == old(self).devices@.update(i, device)) || (
            !contains_id(old(self).devices@, device.id.0@) && final(self).devices@ == old(
                self,
            ).devices@.push(device)),
            contains_id(final(self).devices@, device.id.0@),
    {
        let ghost gdev = device;
        match self.find_index(device.id.0.as_str()) {
            Some(i) => {
                self.devices.remove(i);
                self.devices.insert(i, device);
                proof {
                    assert(self.devices@ =~= old(self).devices@.update(i as int, gdev));
                    assert(self.devices@[i as int].id.0@ == gdev.id.0@);
                    assert(contains_id(self.devices@, gdev.id.0@));
                }
            },
            None => {
                self.devices.push(device);
                proof {
                    assert(self.devices@[self.devices@.len() - 1].id.0@ == gdev.id.0@);
                    assert(contains_id(self.devices@, gdev.id.0@));
                }
            },
        }
        Ok(())
    }

    /// The device carrying this id, when one does.
    pub fn get_device(&self, id: &DeviceId) -> (r: Option<Device>)
        ensures
            match r {
                Some(d) => exists|i: int|
                    0 <= i < self.devices@.len() && #[trigger] self.devices@[i].id.0@ == id.0@
                        && dev_eqv(self.devices@[i], d),
                None => !contains_id(self.devices@, id.0@),
            },
    {
        match self.find_index(id.0.as_str()) {
            Some(i) => Some(clone_device(&self.devices[i])),
            None => None,
        }
    }

    /// The first device carrying this token hash, when one does.
    pub fn get_device_by_token_hash(&self, token_hash: &str) -> (r: Option<Device>)
        ensures
            match r {
                Some(d) => d.token_hash@ == token_hash@ && exists|i: int|
                    0 <= i < self.devices@.len() && dev_eqv(#[trigger] self.devices@[i], d),
                None => !contains_hash(self.devices@, token_hash@),
            },
    {
        let mut i: usize = 0;
        while i < self.devices.len()
            invariant
                i <= self.devices@.len(),
                forall|j: int| 0 <= j < i ==> #[trigger] self.devices@[j].token_hash@ != token_hash@,
            decreases self.devices@.len() - i,
        {
            if crate::text::bytes_eq(
                self.devices[i].token_hash.as_str().as_bytes(),
                token_hash.as_bytes(),
            ) {
                proof {
                    crate::text::lemma_utf8_eq(
                        self.devices@[i as int].token_hash@,
                        token_hash@,
                    );
                }
                return Some(clone_device(&self.devices[i]));
            }
            proof {
                assert(self.devices@[i as int].token_hash@ != token_hash@);
            }
            i = i + 1;
        }
        None
    }

    /// Copies of all paired devices, in table order.
    pub fn list_devices(&self) -> (r: Vec<Device>)
        ensures
            r@.len() == self.devices@.len(),
            forall|i: int| 0 <= i < r@.len() ==> dev_eqv(#[trigger] r@[i], self.devices@[i]),
    {
        let mut r: Vec<Device> = Vec::new();
        let mut i: usize = 0;
        while i < self.devices.len()
            invariant
                i <= self.devices@.len(),
                r@.len() == i,
                forall|j: int| 0 <= j < i ==> dev_eqv(#[trigger] r@[j], self.devices@[j]),
            decreases self.devices@.len() - i,
        {
            r.push(clone_device(&self.devices[i]));
            i = i + 1;
        }
        r
    }

    /// Removes the device carrying this id; `NotFound` exactly when no
    /// device does. After a successful removal no device carries the id.
    pub fn remove_device(&mut self, id: &DeviceId) -> (r: Result<(), StorageError>)
        requires
            old(self).wf(),
        ensures
            final(self).wf(),
            r is Ok <==> contains_id(old(self).devices@, id.0@),
            r is Ok ==> exists|i: int|
                0 <= i < old(self).devices@.len() && old(self).devices@[i].id.0@ == id.0@
                    && final(self).devices@ == old(self).devices@.remove(i),
            r is Ok ==> !contains_id(final(self).devices@, id.0@),
            r matches Err(e) ==> e is NotFound && final(self).devices@ == old(self).devices@,
    {
        match self.find_index(id.0.as_str()) {
            Some(i) => {
                self.devices.remove(i);
                proof {
                    assert forall|j: int|
                        0 <= j < self.devices@.len() implies #[trigger] self.devices@[j].id.0@
                        != id.0@ by {
                        if j < i {
                            assert(self.devices@[j] == old(self).devices@[j]);
                        } else {
                            assert(self.devices@[j] == old(self).devices@[j + 1]);
                        }
                    }
                }
                Ok(())
            },
            None => Err(StorageError::NotFound(id.0.clone())),
        }
    }

    /// Moves a device's last-seen timestamp forward; `NotFound` exactly
    /// when no device carries the id.
    pub fn touch_device(&mut self, id: &DeviceId) -> (r: Result<(), StorageError>)
        requires
            old(self).wf(),
        ensures
            final(self).wf(),
            r is Ok <==> contains_id(old(self).devices@, id.0@),
            r is Ok ==> final(self).devices@.len() == old(self).devices@.len() && exists|i: int|
                {
                    &&& 0 <= i < old(self).devices@.len()
                    &&& old(self).devices@[i].id.0@ == id.0@
                    &&& (forall|j: int|
                        0 <= j < old(self).devices@.len() && j != i ==> final(self).devices@[j]
                            == old(self).devices@[j])
                    &&& final(self).devices@[i].id.0@ == old(self).devices@[i].id.0@
                    &&& final(self).devices@[i].name@ == old(self).devices@[i].name@
                    &&& final(self).devices@[i].device_type == old(self).devices@[i].device_type
                    &&& final(self).devices@[i].paired_at == old(self).devices@[i].paired_at
                    &&& final(self).devices@[i].token_hash@ == old(self).devices@[i].token_hash@
                    &&& final(self).devices@[i].last_seen >= old(self).devices@[i].last_seen
                },
            r matches Err(e) ==> e is NotFound && final(self).devices@ == old(self).devices@,
    {
        match self.find_index(id.0.as_str()) {
            Some(i) => {
                let mut d = self.devices.remove(i);
                d.touch();
                self.devices.insert(i, d);
                proof {
                    assert(forall|j: int|
                        0 <= j < old(self).devices@.len() && j != i ==> final(self).devices@[j]
                            == old(self).devices@[j]);
                }
                Ok(())
            },
            None => Err(StorageError::NotFound(id.0.clone())),
        }
    }

    /// How many devices are paired.
    pub fn device_count(&self) -> (r: usize)
        ensures
            r == self.devices@.len(),
    {
        self.devices.len()
    }

    /// Whether any device is paired.
    pub fn has_devices(&self) -> (r: bool)
        ensures
            r == (self.devices@.len() > 0),
    {
        self.devices.len() > 0
    }

    /// Removes every paired device.
    pub fn clear(&mut self) -> (r: Result<(), StorageError>)
        ensures
            r is Ok,
            final(self).wf(),
            final(self).devices@.len() == 0,
    {
        self.devices.clear();
        Ok(())
    }
}

} // verus!
