//! The table that gives each touch device a number.
//!
//! The window system names devices by identifiers that can only be compared.
//! The GUI wants numbers. The table numbers the devices from 1 in the order
//! in which they are first seen, and never forgets one.
use crate::event::DeviceId;
use vstd::prelude::*;

verus! {

/// The table after `id` was seen: as before where the table knows `id`, with
/// `id` at its end where it does not.
pub open spec fn register(devices: Seq<DeviceId>, id: DeviceId) -> Seq<DeviceId> {
    if devices.contains(id) {
        devices
    } else {
        devices.push(id)
    }
}

/// The number of `id` in the table: one more than the place at which it
/// stands, and 0 for a device that the table does not know.
pub open spec fn device_number(devices: Seq<DeviceId>, id: DeviceId) -> nat {
    match devices.index_of_first(id) {
        Some(place) => (place + 1) as nat,
        None => 0,
    }
}

/// A device stands at `place` and nowhere before it.
pub open spec fn first_at(devices: Seq<DeviceId>, id: DeviceId, place: int) -> bool {
    &&& 0 <= place < devices.len()
    &&& devices[place] == id
    &&& forall|j: int| 0 <= j < place ==> devices[j] != id
}

/// The number of a device is fixed by the first place at which it stands.
pub proof fn lemma_number_at(devices: Seq<DeviceId>, id: DeviceId, place: int)
    requires
        first_at(devices, id, place),
    ensures
        device_number(devices, id) == place + 1,
{
    devices.index_of_first_ensures(id);
}

/// A device has a number of its own if and only if the table knows it, and
/// then the number leads back to the device.
pub proof fn lemma_number_known(devices: Seq<DeviceId>, id: DeviceId)
    ensures
        devices.contains(id) <==> device_number(devices, id) != 0,
        devices.contains(id) ==> 1 <= device_number(devices, id) <= devices.len(),
        devices.contains(id) ==> devices[device_number(devices, id) - 1] == id,
{
    devices.index_of_first_ensures(id);
}

/// Seeing a device gives it a number and takes none away: every device that
/// the table knew keeps the number it had.
pub proof fn lemma_register_keeps(devices: Seq<DeviceId>, seen: DeviceId, id: DeviceId)
    requires
        devices.contains(id),
    ensures
        device_number(register(devices, seen), id) == device_number(devices, id),
        register(devices, seen).contains(seen),
{
    lemma_register_knows(devices, seen);
    if !devices.contains(seen) {
        devices.index_of_first_ensures(id);
        let place = devices.index_of_first(id).unwrap();
        let grown = devices.push(seen);
        assert(first_at(grown, id, place));
        lemma_number_at(grown, id, place);
    }
}

/// After a device was seen the table knows it. A device that is new to the
/// table gets the next number.
pub proof fn lemma_register_knows(devices: Seq<DeviceId>, seen: DeviceId)
    ensures
        register(devices, seen).contains(seen),
        !devices.contains(seen) ==> device_number(register(devices, seen), seen) == devices.len()
            + 1,
        devices.no_duplicates() ==> register(devices, seen).no_duplicates(),
{
    if !devices.contains(seen) {
        let grown = devices.push(seen);
        assert(first_at(grown, seen, devices.len() as int));
        lemma_number_at(grown, seen, devices.len() as int);
    }
}

/// Two devices that the table knows have the same number only if they are
/// the same device. That holds of the numbers as the GUI is given them too,
/// for any table that a machine can hold.
pub proof fn lemma_numbers_differ(devices: Seq<DeviceId>, a: DeviceId, b: DeviceId)
    requires
        devices.contains(a),
        devices.contains(b),
        a != b,
    ensures
        device_number(devices, a) != device_number(devices, b),
        devices.len() <= u64::MAX ==> device_number(devices, a) as u64 != device_number(
            devices,
            b,
        ) as u64,
{
    lemma_number_known(devices, a);
    lemma_number_known(devices, b);
}

/// The devices seen so far, in the order in which they were first seen. No
/// device stands in it twice.
pub struct DeviceTable {
    devices: Vec<DeviceId>,
}

impl View for DeviceTable {
    type V = Seq<DeviceId>;

    closed spec fn view(&self) -> Seq<DeviceId> {
        self.devices@
    }
}

impl DeviceTable {
    /// A table that knows no device.
    pub fn new() -> (table: DeviceTable)
        ensures
            table@ == Seq::<DeviceId>::empty(),
            table@.no_duplicates(),
    {
        DeviceTable { devices: Vec::new() }
    }

    /// How many devices the table knows.
    pub fn len(&self) -> (len: usize)
        ensures
            len == self@.len(),
    {
        self.devices.len()
    }

    /// The number of `id`, which is entered into the table if it is new.
    pub fn register(&mut self, id: DeviceId) -> (number: u64)
        ensures
            final(self)@ == register(old(self)@, id),
            number == device_number(final(self)@, id),
            number >= 1,
            old(self)@.no_duplicates() ==> final(self)@.no_duplicates(),
    {
        let len = self.devices.len();
        let mut place: usize = 0;
        while place < len
            invariant
                len == self.devices@.len(),
                place <= len,
                *self == *old(self),
                forall|j: int| 0 <= j < place ==> self.devices@[j] != id,
            decreases len - place,
        {
            if self.devices[place] == id {
                proof {
                    lemma_number_at(self.devices@, id, place as int);
                }
                return place as u64 + 1;
            }
            place += 1;
        }
        proof {
            lemma_register_knows(self.devices@, id);
        }
        self.devices.push(id);
        self.devices.len() as u64
    }
}

} // verus!
