//! The host's dataref table and accessor dispatch.
//!
//! The host resolves names to opaque references, and services reads and
//! writes against the slot a reference names. [`Host`] models that table
//! explicitly: each slot is a boxed allocation in the table, and the
//! opaque reference is the key under which it was registered. A reference
//! value of zero is never issued. Unregistering a slot frees its backing
//! storage; the key is never reused, so a late dispatch against a stale
//! reference finds nothing and is a no-op.
//!
//! All dispatch happens on one logical thread of control: every entry
//! point here is a plain synchronous call, and no callback can run while
//! another is in progress.

use vstd::prelude::*;
use vstd::pervasive::VecAdditionalExecFns;
use vstd::slice::slice_to_vec;
use vstd::pervasive::unreached;

use super::name_ok;
use super::wire_bit;
use super::FloatBits;
use super::SlotValue;
use super::SlotValueModel;
use super::TYPE_DATA;
use super::TYPE_DOUBLE;
use super::TYPE_FLOAT;
use super::TYPE_FLOAT_ARRAY;
use super::TYPE_INT;
use super::TYPE_INT_ARRAY;
use super::owned::array_read;
use super::owned::array_write;
use super::owned::spec_read_count;
use super::owned::spec_write;

verus! {

/// Which accessor callbacks are registered for a slot.
///
/// When a slot is created, a callback is supplied for every combination of
/// wire type and direction that applies: a read callback for each type bit
/// the slot declares, and a write callback only when the slot is also
/// externally writable. Combinations that do not apply are omitted, and
/// the host treats that operation as unsupported for the slot.
#[derive(Debug, Clone, Copy, PartialEq, Eq, Structural)]
pub struct AccessorTable {
    /// Read callback for 32-bit integer access
    pub read_int: bool,
    /// Write callback for 32-bit integer access
    pub write_int: bool,
    /// Read callback for 32-bit float access
    pub read_float: bool,
    /// Write callback for 32-bit float access
    pub write_float: bool,
    /// Read callback for 64-bit float access
    pub read_double: bool,
    /// Write callback for 64-bit float access
    pub write_double: bool,
    /// Read callback for integer array access
    pub read_int_array: bool,
    /// Write callback for integer array access
    pub write_int_array: bool,
    /// Read callback for float array access
    pub read_float_array: bool,
    /// Write callback for float array access
    pub write_float_array: bool,
    /// Read callback for byte blob access
    pub read_data: bool,
    /// Write callback for byte blob access
    pub write_data: bool,
}

/// The callback set registered for a slot with the given declared type
/// bits and external writability
pub open spec fn table_for(type_id: i32, writable: bool) -> AccessorTable {
    AccessorTable {
        read_int: type_id & TYPE_INT != 0,
        write_int: type_id & TYPE_INT != 0 && writable,
        read_float: type_id & TYPE_FLOAT != 0,
        write_float: type_id & TYPE_FLOAT != 0 && writable,
        read_double: type_id & TYPE_DOUBLE != 0,
        write_double: type_id & TYPE_DOUBLE != 0 && writable,
        read_int_array: type_id & TYPE_INT_ARRAY != 0,
        write_int_array: type_id & TYPE_INT_ARRAY != 0 && writable,
        read_float_array: type_id & TYPE_FLOAT_ARRAY != 0,
        write_float_array: type_id & TYPE_FLOAT_ARRAY != 0 && writable,
        read_data: type_id & TYPE_DATA != 0,
        write_data: type_id & TYPE_DATA != 0 && writable,
    }
}

/// True for scalar wire values
pub open spec fn is_scalar(v: SlotValueModel) -> bool {
    v is Int || v is Float || v is Double
}

/// True for array wire values
pub open spec fn is_array(v: SlotValueModel) -> bool {
    v is IntArray || v is FloatArray || v is Data
}

/// The element count of an array wire value
pub open spec fn array_len(v: SlotValueModel) -> int {
    match v {
        SlotValueModel::IntArray(s) => s.len() as int,
        SlotValueModel::FloatArray(s) => s.len() as int,
        SlotValueModel::Data(s) => s.len() as int,
        _ => 0,
    }
}

/// The stored value after an owner-side write.
///
/// A scalar write replaces the stored value. An array write copies into
/// the existing storage from index 0, clamped to the storage's length:
/// extra source elements are dropped and the storage never grows.
pub open spec fn owned_merge(stored: SlotValueModel, v: SlotValueModel) -> SlotValueModel {
    match (stored, v) {
        (SlotValueModel::IntArray(d), SlotValueModel::IntArray(s)) => SlotValueModel::IntArray(
            spec_write(d, s, 0, s.len() as int),
        ),
        (SlotValueModel::FloatArray(d), SlotValueModel::FloatArray(s)) => SlotValueModel::FloatArray(
            spec_write(d, s, 0, s.len() as int),
        ),
        (SlotValueModel::Data(d), SlotValueModel::Data(s)) => SlotValueModel::Data(
            spec_write(d, s, 0, s.len() as int),
        ),
        _ => v,
    }
}

/// The model of one registered slot
pub struct SlotModel {
    /// The slot's name
    pub name: Seq<u8>,
    /// The declared wire type bits
    pub type_id: i32,
    /// Whether parties other than the creator may write the slot
    pub writable: bool,
    /// The accessor callbacks registered for the slot
    pub callbacks: AccessorTable,
    /// The stored value
    pub value: SlotValueModel,
}

/// One registered slot: its identity, capabilities, callbacks and backing
/// storage
struct SlotEntry {
    /// The slot's name
    name: Vec<u8>,
    /// The declared wire type bits
    type_id: i32,
    /// Whether parties other than the creator may write the slot
    writable: bool,
    /// The accessor callbacks registered for the slot
    callbacks: AccessorTable,
    /// The backing storage
    value: SlotValue,
}

impl SlotEntry {
    /// The mathematical model of this slot
    spec fn model(&self) -> SlotModel {
        SlotModel {
            name: self.name@,
            type_id: self.type_id,
            writable: self.writable,
            callbacks: self.callbacks,
            value: self.value@,
        }
    }

    /// Internal consistency of one slot
    spec fn inv(&self) -> bool {
        &&& name_ok(self.name@)
        &&& self.type_id == wire_bit(self.value@)
        &&& self.callbacks == table_for(self.type_id, self.writable)
    }
}

/// The host's table of registered data slots, keyed by the opaque
/// reference issued at registration.
///
/// Unregistered slots leave an empty cell behind so that a reference is
/// never reused; a stale reference then dangles harmlessly.
pub struct Host {
    /// The registered slots; the opaque reference of the slot in cell `i`
    /// is `i + 1`, and reference 0 is never issued
    slots: Vec<Option<SlotEntry>>,
}

impl View for Host {
    type V = Map<u64, SlotModel>;

    /// The table as a map from opaque reference to slot model
    closed spec fn view(&self) -> Map<u64, SlotModel> {
        Map::new(
            |id: u64| 1 <= id <= self.slots@.len() && self.slots@[id - 1] is Some,
            |id: u64| (self.slots@[id - 1]->Some_0).model(),
        )
    }
}

impl Host {
    /// Every registered slot is internally consistent and no two live
    /// slots share a name
    pub closed spec fn wf(&self) -> bool {
        &&& forall|i: int|
            0 <= i < self.slots@.len() && self.slots@[i] is Some ==> (
            #[trigger] self.slots@[i]->Some_0).inv()
        &&& forall|i: int, j: int|
            0 <= i < j < self.slots@.len() && self.slots@[i] is Some && self.slots@[j] is Some
                ==> (#[trigger] self.slots@[i]->Some_0).name@ != (
            #[trigger] self.slots@[j]->Some_0).name@
    }

    /// How many opaque references have been issued so far
    pub closed spec fn ids_used(&self) -> int {
        self.slots@.len() as int
    }

    /// An empty table
    pub fn new() -> (r: Host)
        ensures
            r@ == Map::<u64, SlotModel>::empty(),
            r.wf(),
            r.ids_used() == 0,
    {
        let r = Host { slots: Vec::new() };
        proof {
            assert(r@ =~= Map::<u64, SlotModel>::empty());
        }
        r
    }

    /// Finds the table cell a reference names, shared by the lookup and
    /// dispatch entry points
    fn cell_of(&self, id: u64) -> (r: Option<usize>)
        ensures
            match r {
                Some(i) => self@.contains_key(id) && i == id - 1 && i < self.slots@.len()
                    && self.slots@[i as int] is Some && self@[id] == (
                self.slots@[i as int]->Some_0).model(),
                None => !self@.contains_key(id),
            },
    {
        if id == 0 || id > self.slots.len() as u64 {
            return None;
        }
        let i = (id - 1) as usize;
        if self.slots[i].is_some() {
            Some(i)
        } else {
            None
        }
    }

    /// Resolves a name to the opaque reference of the slot registered
    /// under it, if any
    pub fn find_data_ref(&self, name: &[u8]) -> (r: Option<u64>)
        requires
            self.wf(),
        ensures
            match r {
                Some(id) => self@.contains_key(id) && self@[id].name == name@,
                None => forall|id: u64| self@.contains_key(id) ==> self@[id].name != name@,
            },
    {
        let n = self.slots.len();
        let mut i: usize = 0;
        while i < n
            invariant
                n == self.slots@.len(),
                0 <= i <= n,
                forall|j: int|
                    0 <= j < i && self.slots@[j] is Some ==> (
                    #[trigger] self.slots@[j]->Some_0).name@ != name@,
            decreases n - i,
        {
            match &self.slots[i] {
                Some(entry) => {
                    if bytes_eq(entry.name.as_slice(), name) {
                        return Some((i as u64) + 1);
                    }
                },
                None => {},
            }
            i += 1;
        }
        proof {
            assert forall|id: u64| self@.contains_key(id) implies self@[id].name != name@ by {
                assert(self.slots@[id - 1] is Some);
            }
        }
        None
    }

    /// Reports the declared wire type bits of the slot a reference names
    pub fn get_data_ref_types(&self, id: u64) -> (r: i32)
        requires
            self.wf(),
            self@.contains_key(id),
        ensures
            r == self@[id].type_id,
    {
        match self.cell_of(id) {
            Some(i) => match &self.slots[i] {
                Some(entry) => entry.type_id,
                None => unreached(),
            },
            None => unreached(),
        }
    }

    /// Reports whether the slot a reference names may be written by
    /// parties other than its creator
    pub fn can_write_data_ref(&self, id: u64) -> (r: bool)
        requires
            self.wf(),
            self@.contains_key(id),
        ensures
            r == self@[id].writable,
    {
        match self.cell_of(id) {
            Some(i) => match &self.slots[i] {
                Some(entry) => entry.writable,
                None => unreached(),
            },
            None => unreached(),
        }
    }
    /// Registers a new slot and issues its opaque reference.
    ///
    /// The caller supplies the slot's name, its declared type bits, its
    /// external writability, the callback set for that combination, and
    /// the initial backing storage, which the table owns from here on.
    pub fn register_data_accessor(
        &mut self,
        name: &[u8],
        type_id: i32,
        writable: bool,
        callbacks: AccessorTable,
        value: SlotValue,
    ) -> (id: u64)
        requires
            old(self).wf(),
            old(self).ids_used() < u64::MAX,
            name_ok(name@),
            forall|other: u64| old(self)@.contains_key(other) ==> old(self)@[other].name != name@,
            type_id == wire_bit(value@),
            callbacks == table_for(type_id, writable),
        ensures
            final(self).wf(),
            !old(self)@.contains_key(id),
            id >= 1,
            final(self)@ == old(self)@.insert(
                id,
                (SlotModel { name: name@, type_id, writable, callbacks, value: value@ }),
            ),
            final(self).ids_used() == old(self).ids_used() + 1,
    {
        let entry = SlotEntry { name: slice_to_vec(name), type_id, writable, callbacks, value };
        let id = (self.slots.len() as u64) + 1;
        self.slots.push(Some(entry));
        proof {
            let pre = old(self)@;
            let m = SlotModel { name: name@, type_id, writable, callbacks, value: value@ };
            assert forall|j: int|
                0 <= j < old(self).slots@.len() && old(self).slots@[j] is Some implies (
            old(self).slots@[j]->Some_0).name@ != name@ by {
                let jid = (j + 1) as u64;
                assert(pre.contains_key(jid));
                assert(pre[jid].name == (old(self).slots@[j]->Some_0).name@);
            }
            assert(self@ =~= pre.insert(id, m));
        }
        id
    }

    /// Removes the slot a reference names and frees its backing storage.
    ///
    /// The reference is never reused: later dispatches against it find
    /// nothing.
    pub fn unregister_data_accessor(&mut self, id: u64)
        requires
            old(self).wf(),
            old(self)@.contains_key(id),
        ensures
            final(self).wf(),
            final(self)@ == old(self)@.remove(id),
            final(self).ids_used() == old(self).ids_used(),
    {
        match self.cell_of(id) {
            Some(i) => {
                self.slots.set(i, None);
                proof {
                    assert(self@ =~= old(self)@.remove(id));
                }
            },
            None => unreached(),
        }
    }

    /// Reads the backing storage of the slot a reference names, as the
    /// slot's creator does: directly, with no access check
    pub fn read_value(&self, id: u64) -> (r: &SlotValue)
        requires
            self.wf(),
            self@.contains_key(id),
        ensures
            r@ == self@[id].value,
    {
        match self.cell_of(id) {
            Some(i) => match &self.slots[i] {
                Some(entry) => &entry.value,
                None => unreached(),
            },
            None => unreached(),
        }
    }

    /// Writes the backing storage of the slot a reference names, as the
    /// slot's creator does: directly, with no access check.
    ///
    /// A scalar write replaces the stored value; an array write copies
    /// into the existing storage from index 0, clamped to its length.
    pub fn write_owned(&mut self, id: u64, value: &SlotValue)
        requires
            old(self).wf(),
            old(self)@.contains_key(id),
            wire_bit(value@) == old(self)@[id].type_id,
        ensures
            final(self).wf(),
            final(self).ids_used() == old(self).ids_used(),
            final(self)@ == old(self)@.insert(
                id,
                (SlotModel {
                    value: owned_merge(old(self)@[id].value, value@),
                    ..old(self)@[id]
                }),
            ),
    {
        let i = match self.cell_of(id) {
            Some(i) => i,
            None => unreached(),
        };
        let mut cell: Option<SlotEntry> = None;
        self.slots.set_and_swap(i, &mut cell);
        let mut entry = match cell {
            Some(e) => e,
            None => unreached(),
        };
        match value {
            SlotValue::Int(v) => {
                entry.value = SlotValue::Int(*v);
            },
            SlotValue::Float(v) => {
                entry.value = SlotValue::Float(*v);
            },
            SlotValue::Double(v) => {
                entry.value = SlotValue::Double(*v);
            },
            SlotValue::IntArray(vs) => {
                match &mut entry.value {
                    SlotValue::IntArray(stored) => {
                        array_write(stored, vs.as_slice(), 0, vs.len());
                    },
                    _ => {
                        proof {
                            assert(false);
                        }
                    },
                }
            },
            SlotValue::FloatArray(vs) => {
                match &mut entry.value {
                    SlotValue::FloatArray(stored) => {
                        array_write(stored, vs.as_slice(), 0, vs.len());
                    },
                    _ => {
                        proof {
                            assert(false);
                        }
                    },
                }
            },
            SlotValue::Data(vs) => {
                match &mut entry.value {
                    SlotValue::Data(stored) => {
                        array_write(stored, vs.as_slice(), 0, vs.len());
                    },
                    _ => {
                        proof {
                            assert(false);
                        }
                    },
                }
            },
        }
        self.slots.set(i, Some(entry));
        proof {
            assert(self@ =~= old(self)@.insert(
                id,
                (SlotModel {
                    value: owned_merge(old(self)@[id].value, value@),
                    ..old(self)@[id]
                }),
            ));
        }
    }

    /// A host-initiated scalar read against a reference: dispatches the
    /// slot's scalar read callback if the reference is live and such a
    /// callback was registered; a stale reference is a no-op
    pub fn read_scalar(&self, id: u64) -> (r: Option<SlotValue>)
        requires
            self.wf(),
        ensures
            match r {
                Some(v) => self@.contains_key(id) && is_scalar(self@[id].value) && v@
                    == self@[id].value,
                None => !self@.contains_key(id) || !is_scalar(self@[id].value),
            },
    {
        match self.cell_of(id) {
            Some(i) => match &self.slots[i] {
                Some(entry) => match &entry.value {
                    SlotValue::Int(v) => Some(SlotValue::Int(*v)),
                    SlotValue::Float(v) => Some(SlotValue::Float(*v)),
                    SlotValue::Double(v) => Some(SlotValue::Double(*v)),
                    _ => None,
                },
                None => unreached(),
            },
            None => None,
        }
    }

    /// A host-initiated scalar write against a reference: dispatches the
    /// slot's scalar write callback if the reference is live and a write
    /// callback for the value's type was registered, and reports whether
    /// it did; a stale reference is a no-op
    pub fn write_scalar(&mut self, id: u64, v: SlotValue) -> (r: bool)
        requires
            old(self).wf(),
            is_scalar(v@),
        ensures
            final(self).wf(),
            final(self).ids_used() == old(self).ids_used(),
            r == (old(self)@.contains_key(id) && old(self)@[id].writable && wire_bit(v@) == old(
                self,
            )@[id].type_id),
            r ==> final(self)@ == old(self)@.insert(
                id,
                (SlotModel { value: v@, ..old(self)@[id] }),
            ),
            !r ==> final(self)@ == old(self)@,
    {
        let i = match self.cell_of(id) {
            Some(i) => i,
            None => {
                return false;
            },
        };
        let accepted = match &self.slots[i] {
            Some(entry) => entry.writable && match (&entry.value, &v) {
                (SlotValue::Int(_), SlotValue::Int(_)) => true,
                (SlotValue::Float(_), SlotValue::Float(_)) => true,
                (SlotValue::Double(_), SlotValue::Double(_)) => true,
                _ => false,
            },
            None => unreached(),
        };
        if !accepted {
            return false;
        }
        let mut cell: Option<SlotEntry> = None;
        self.slots.set_and_swap(i, &mut cell);
        let mut entry = match cell {
            Some(e) => e,
            None => unreached(),
        };
        entry.value = v;
        self.slots.set(i, Some(entry));
        proof {
            assert(self@ =~= old(self)@.insert(id, (SlotModel { value: v@, ..old(self)@[id] })));
        }
        true
    }

    /// The null-destination length query: a host-initiated array read
    /// with no destination copies nothing and returns the stored element
    /// count; a stale reference is a no-op
    pub fn query_len(&self, id: u64) -> (r: Option<usize>)
        requires
            self.wf(),
        ensures
            match r {
                Some(n) => self@.contains_key(id) && is_array(self@[id].value) && n == array_len(
                    self@[id].value,
                ),
                None => !self@.contains_key(id) || !is_array(self@[id].value),
            },
    {
        match self.cell_of(id) {
            Some(i) => match &self.slots[i] {
                Some(entry) => match &entry.value {
                    SlotValue::IntArray(vs) => Some(vs.len()),
                    SlotValue::FloatArray(vs) => Some(vs.len()),
                    SlotValue::Data(vs) => Some(vs.len()),
                    _ => None,
                },
                None => unreached(),
            },
            None => None,
        }
    }

    /// A host-initiated read of an integer array slot: copies up to `max`
    /// elements starting at `offset` into the start of `dest` and returns
    /// the count copied; a stale reference or a slot of another type
    /// leaves `dest` alone and reports nothing
    pub fn read_ints(&self, id: u64, dest: &mut Vec<i32>, offset: usize, max: usize) -> (r: Option<
        usize,
    >)
        requires
            self.wf(),
        ensures
            final(dest)@.len() == old(dest)@.len(),
            match r {
                Some(count) => self@.contains_key(id) && self@[id].value is IntArray && {
                    let data = self@[id].value->IntArray_0;
                    &&& count == spec_read_count(
                        data.len() as int,
                        old(dest)@.len() as int,
                        offset as int,
                        max as int,
                    )
                    &&& (forall|k: int| 0 <= k < count ==> final(dest)@[k] == data[offset + k])
                    &&& (forall|k: int|
                        count <= k < old(dest)@.len() ==> final(dest)@[k] == old(dest)@[k])
                },
                None => (!self@.contains_key(id) || !(self@[id].value is IntArray)) && final(dest)@
                    == old(dest)@,
            },
    {
        match self.cell_of(id) {
            Some(i) => match &self.slots[i] {
                Some(entry) => match &entry.value {
                    SlotValue::IntArray(data) => Some(array_read(data, dest, offset, max)),
                    _ => None,
                },
                None => unreached(),
            },
            None => None,
        }
    }

    /// A host-initiated read of a float array slot; see [`Host::read_ints`]
    pub fn read_floats(&self, id: u64, dest: &mut Vec<FloatBits>, offset: usize, max: usize) -> (r:
        Option<usize>)
        requires
            self.wf(),
        ensures
            final(dest)@.len() == old(dest)@.len(),
            match r {
                Some(count) => self@.contains_key(id) && self@[id].value is FloatArray && {
                    let data = self@[id].value->FloatArray_0;
                    &&& count == spec_read_count(
                        data.len() as int,
                        old(dest)@.len() as int,
                        offset as int,
                        max as int,
                    )
                    &&& (forall|k: int| 0 <= k < count ==> final(dest)@[k] == data[offset + k])
                    &&& (forall|k: int|
                        count <= k < old(dest)@.len() ==> final(dest)@[k] == old(dest)@[k])
                },
                None => (!self@.contains_key(id) || !(self@[id].value is FloatArray))
                    && final(dest)@ == old(dest)@,
            },
    {
        match self.cell_of(id) {
            Some(i) => match &self.slots[i] {
                Some(entry) => match &entry.value {
                    SlotValue::FloatArray(data) => Some(array_read(data, dest, offset, max)),
                    _ => None,
                },
                None => unreached(),
            },
            None => None,
        }
    }

    /// A host-initiated read of a byte blob slot; see [`Host::read_ints`]
    pub fn read_bytes(&self, id: u64, dest: &mut Vec<u8>, offset: usize, max: usize) -> (r: Option<
        usize,
    >)
        requires
            self.wf(),
        ensures
            final(dest)@.len() == old(dest)@.len(),
            match r {
                Some(count) => self@.contains_key(id) && self@[id].value is Data && {
                    let data = self@[id].value->Data_0;
                    &&& count == spec_read_count(
                        data.len() as int,
                        old(dest)@.len() as int,
                        offset as int,
                        max as int,
                    )
                    &&& (forall|k: int| 0 <= k < count ==> final(dest)@[k] == data[offset + k])
                    &&& (forall|k: int|
                        count <= k < old(dest)@.len() ==> final(dest)@[k] == old(dest)@[k])
                },
                None => (!self@.contains_key(id) || !(self@[id].value is Data)) && final(dest)@
                    == old(dest)@,
            },
    {
        match self.cell_of(id) {
            Some(i) => match &self.slots[i] {
                Some(entry) => match &entry.value {
                    SlotValue::Data(data) => Some(array_read(data, dest, offset, max)),
                    _ => None,
                },
                None => unreached(),
            },
            None => None,
        }
    }

    /// A host-initiated write of an integer array slot: copies up to
    /// `max` elements of `values` into the stored array starting at index
    /// `offset`, clamped to the stored length, and reports whether the
    /// slot's write callback was dispatched; a stale reference, a slot of
    /// another type, or a slot not externally writable is a no-op
    pub fn write_ints(&mut self, id: u64, values: &[i32], offset: usize, max: usize) -> (r: bool)
        requires
            old(self).wf(),
        ensures
            final(self).wf(),
            final(self).ids_used() == old(self).ids_used(),
            r == (old(self)@.contains_key(id) && old(self)@[id].value is IntArray && old(
                self,
            )@[id].writable),
            r ==> final(self)@ == old(self)@.insert(
                id,
                (SlotModel {
                    value: SlotValueModel::IntArray(
                        spec_write(
                            old(self)@[id].value->IntArray_0,
                            values@,
                            offset as int,
                            max as int,
                        ),
                    ),
                    ..old(self)@[id]
                }),
            ),
            !r ==> final(self)@ == old(self)@,
    {
        let i = match self.cell_of(id) {
            Some(i) => i,
            None => {
                return false;
            },
        };
        let accepted = match &self.slots[i] {
            Some(entry) => entry.writable && match &entry.value {
                SlotValue::IntArray(_) => true,
                _ => false,
            },
            None => unreached(),
        };
        if !accepted {
            return false;
        }
        let mut cell: Option<SlotEntry> = None;
        self.slots.set_and_swap(i, &mut cell);
        let mut entry = match cell {
            Some(e) => e,
            None => unreached(),
        };
        match &mut entry.value {
            SlotValue::IntArray(stored) => {
                array_write(stored, values, offset, max);
            },
            _ => {
                proof {
                    assert(false);
                }
            },
        }
        self.slots.set(i, Some(entry));
        proof {
            assert(self@ =~= old(self)@.insert(
                id,
                (SlotModel {
                    value: SlotValueModel::IntArray(
                        spec_write(
                            old(self)@[id].value->IntArray_0,
                            values@,
                            offset as int,
                            max as int,
                        ),
                    ),
                    ..old(self)@[id]
                }),
            ));
        }
        true
    }

    /// A host-initiated write of a float array slot; see
    /// [`Host::write_ints`]
    pub fn write_floats(&mut self, id: u64, values: &[FloatBits], offset: usize, max: usize) -> (r:
        bool)
        requires
            old(self).wf(),
        ensures
            final(self).wf(),
            final(self).ids_used() == old(self).ids_used(),
            r == (old(self)@.contains_key(id) && old(self)@[id].value is FloatArray && old(
                self,
            )@[id].writable),
            r ==> final(self)@ == old(self)@.insert(
                id,
                (SlotModel {
                    value: SlotValueModel::FloatArray(
                        spec_write(
                            old(self)@[id].value->FloatArray_0,
                            values@,
                            offset as int,
                            max as int,
                        ),
                    ),
                    ..old(self)@[id]
                }),
            ),
            !r ==> final(self)@ == old(self)@,
    {
        let i = match self.cell_of(id) {
            Some(i) => i,
            None => {
                return false;
            },
        };
        let accepted = match &self.slots[i] {
            Some(entry) => entry.writable && match &entry.value {
                SlotValue::FloatArray(_) => true,
                _ => false,
            },
            None => unreached(),
        };
        if !accepted {
            return false;
        }
        let mut cell: Option<SlotEntry> = None;
        self.slots.set_and_swap(i, &mut cell);
        let mut entry = match cell {
            Some(e) => e,
            None => unreached(),
        };
        match &mut entry.value {
            SlotValue::FloatArray(stored) => {
                array_write(stored, values, offset, max);
            },
            _ => {
                proof {
                    assert(false);
                }
            },
        }
        self.slots.set(i, Some(entry));
        proof {
            assert(self@ =~= old(self)@.insert(
                id,
                (SlotModel {
                    value: SlotValueModel::FloatArray(
                        spec_write(
                            old(self)@[id].value->FloatArray_0,
                            values@,
                            offset as int,
                            max as int,
                        ),
                    ),
                    ..old(self)@[id]
                }),
            ));
        }
        true
    }

    /// A host-initiated write of a byte blob slot; see
    /// [`Host::write_ints`]
    pub fn write_bytes(&mut self, id: u64, values: &[u8], offset: usize, max: usize) -> (r: bool)
        requires
            old(self).wf(),
        ensures
            final(self).wf(),
            final(self).ids_used() == old(self).ids_used(),
            r == (old(self)@.contains_key(id) && old(self)@[id].value is Data && old(
                self,
            )@[id].writable),
            r ==> final(self)@ == old(self)@.insert(
                id,
                (SlotModel {
                    value: SlotValueModel::Data(
                        spec_write(old(self)@[id].value->Data_0, values@, offset as int, max as int),
                    ),
                    ..old(self)@[id]
                }),
            ),
            !r ==> final(self)@ == old(self)@,
    {
        let i = match self.cell_of(id) {
            Some(i) => i,
            None => {
                return false;
            },
        };
        let accepted = match &self.slots[i] {
            Some(entry) => entry.writable && match &entry.value {
                SlotValue::Data(_) => true,
                _ => false,
            },
            None => unreached(),
        };
        if !accepted {
            return false;
        }
        let mut cell: Option<SlotEntry> = None;
        self.slots.set_and_swap(i, &mut cell);
        let mut entry = match cell {
            Some(e) => e,
            None => unreached(),
        };
        match &mut entry.value {
            SlotValue::Data(stored) => {
                array_write(stored, values, offset, max);
            },
            _ => {
                proof {
                    assert(false);
                }
            },
        }
        self.slots.set(i, Some(entry));
        proof {
            assert(self@ =~= old(self)@.insert(
                id,
                (SlotModel {
                    value: SlotValueModel::Data(
                        spec_write(old(self)@[id].value->Data_0, values@, offset as int, max as int),
                    ),
                    ..old(self)@[id]
                }),
            ));
        }
        true
    }
}

/// Every slot of a well-formed table is internally consistent: its
/// declared type bits are the single bit of its stored value, its
/// callback set is exactly the one for its type and writability, and its
/// name carries no embedded terminator.
pub proof fn lemma_wf_slot(host: Host, id: u64)
    requires
        host.wf(),
        host@.contains_key(id),
    ensures
        host@[id].type_id == wire_bit(host@[id].value),
        host@[id].callbacks == table_for(host@[id].type_id, host@[id].writable),
        name_ok(host@[id].name),
{
    assert(host.slots@[id - 1] is Some);
}

/// In a well-formed table no two live slots share a name, so a name
/// resolves to at most one reference.
pub proof fn lemma_names_unique(host: Host, id1: u64, id2: u64)
    requires
        host.wf(),
        host@.contains_key(id1),
        host@.contains_key(id2),
        host@[id1].name == host@[id2].name,
    ensures
        id1 == id2,
{
    assert(host.slots@[id1 - 1] is Some);
    assert(host.slots@[id2 - 1] is Some);
    if id1 != id2 {
        let i = if id1 < id2 { id1 - 1 } else { id2 - 1 };
        let j = if id1 < id2 { id2 - 1 } else { id1 - 1 };
        assert((host.slots@[i]->Some_0).name@ != (host.slots@[j]->Some_0).name@);
    }
}

/// Once a slot has been unregistered, the table no longer contains its
/// reference, so every dispatch entry point reports no slot and leaves the
/// table unchanged: unregistration happens-before any later dispatch in
/// program order, and a late callback can never observe freed storage.
pub proof fn lemma_unregistered_ref_dangles(m: Map<u64, SlotModel>, id: u64)
    ensures
        !m.remove(id).contains_key(id),
{
}

/// Compares two byte strings for equality
fn bytes_eq(a: &[u8], b: &[u8]) -> (r: bool)
    ensures
        r == (a@ == b@),
{
    if a.len() != b.len() {
        return false;
    }
    let mut i: usize = 0;
    while i < a.len()
        invariant
            a@.len() == b@.len(),
            0 <= i <= a@.len(),
            forall|j: int| 0 <= j < i ==> a@[j] == b@[j],
        decreases a@.len() - i,
    {
        if a[i] != b[i] {
            return false;
        }
        i += 1;
    }
    proof {
        assert(a@ =~= b@);
    }
    true
}

} // verus!
