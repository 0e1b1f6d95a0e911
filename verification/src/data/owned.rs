//! Datarefs created by this plugin.
//!
//! An owned dataref has backing storage registered with the host; the host
//! services reads and writes from other parties by dispatching accessor
//! callbacks against that storage. The bounds-clamped copy steps those
//! callbacks perform are [`array_read`] and [`array_write`].

use core::marker::PhantomData;
use vstd::prelude::*;
use vstd::utf8::decode_utf8;
use vstd::utf8::valid_utf8;
use vstd::pervasive::VecAdditionalExecFns;
use vstd::pervasive::unreached;
use vstd::slice::slice_to_vec;
use vstd::string::StringSliceAdditionalSpecFns;

use crate::ffi::first_null;
use crate::ffi::EncodingError;
use crate::ffi::StringBuffer;

use super::host::array_len;
use super::host::lemma_wf_slot;
use super::host::table_for;
use super::host::AccessorTable;
use super::host::Host;
use super::host::SlotModel;
use super::name_ok;
use super::NulByteError;
use super::valid_name;
use super::wire_bit;
use super::Access;
use super::DataType;
use super::FloatBits;
use super::ReadOnly;
use super::ScalarType;
use super::SlotValue;
use super::SlotValueModel;
use super::TYPE_DATA;
use super::TYPE_DOUBLE;
use super::TYPE_FLOAT;
use super::TYPE_FLOAT_ARRAY;
use super::TYPE_INT;
use super::TYPE_INT_ARRAY;

verus! {

/// The smaller of two values
pub open spec fn imin(a: int, b: int) -> int {
    if a <= b {
        a
    } else {
        b
    }
}

/// How many elements a host-initiated read copies out of a slot.
///
/// The overlap of the requested window `[offset, offset + max)` with the
/// stored data `[0, data_len)`, further limited by the destination's room:
/// nothing if the offset is past the end.
pub open spec fn spec_read_count(data_len: int, dest_len: int, offset: int, max: int) -> int {
    if offset >= data_len {
        0
    } else {
        imin(imin(max, dest_len), data_len - offset)
    }
}

/// How many elements a host-initiated write copies into a slot.
///
/// Writes past the end of the stored data are dropped; the slot never
/// grows.
pub open spec fn spec_write_count(data_len: int, values_len: int, offset: int, max: int) -> int {
    if offset >= data_len {
        0
    } else {
        imin(imin(max, values_len), data_len - offset)
    }
}

/// The stored data after a host-initiated write of `values` at `offset`
pub open spec fn spec_write<T>(data: Seq<T>, values: Seq<T>, offset: int, max: int) -> Seq<T> {
    Seq::new(
        data.len(),
        |i: int| if offset <= i < offset + spec_write_count(
            data.len() as int,
            values.len() as int,
            offset,
            max,
        ) {
            values[i - offset]
        } else {
            data[i]
        },
    )
}

/// Copies up to `max` elements of `data`, starting at `offset`, into the
/// start of `dest`, and returns the number copied.
///
/// If `offset` is at or past the end of `data`, nothing is copied and the
/// count is 0; otherwise the count is `max` clamped to both the elements
/// remaining from `offset` and the destination's length. Elements of
/// `dest` beyond the count are left unmodified. A host passes a
/// destination with room for `max` elements, so the destination clamp is
/// idle then.
pub fn array_read<T: Copy>(data: &Vec<T>, dest: &mut Vec<T>, offset: usize, max: usize) -> (count:
    usize)
    ensures
        final(dest)@.len() == old(dest)@.len(),
        count == spec_read_count(
            data@.len() as int,
            old(dest)@.len() as int,
            offset as int,
            max as int,
        ),
        forall|i: int| 0 <= i < count ==> final(dest)@[i] == data@[offset + i],
        forall|i: int| count <= i < old(dest)@.len() ==> final(dest)@[i] == old(dest)@[i],
{
    if offset >= data.len() {
        return 0;
    }
    let avail = data.len() - offset;
    let mut limit = if max < dest.len() {
        max
    } else {
        dest.len()
    };
    if avail < limit {
        limit = avail;
    }
    let mut i: usize = 0;
    while i < limit
        invariant
            limit == spec_read_count(
                data@.len() as int,
                old(dest)@.len() as int,
                offset as int,
                max as int,
            ),
            0 <= i <= limit,
            offset + limit <= data@.len(),
            data@.len() <= usize::MAX,
            limit <= dest@.len(),
            dest@.len() == old(dest)@.len(),
            forall|j: int| 0 <= j < i ==> dest@[j] == data@[offset + j],
            forall|j: int| i <= j < dest@.len() ==> dest@[j] == old(dest)@[j],
        decreases limit - i,
    {
        dest.set(i, data[offset + i]);
        i += 1;
    }
    limit
}

/// Copies up to `max` elements of `values` into `data`, starting at index
/// `offset` of `data`.
///
/// If `offset` is at or past the end of `data`, nothing is written;
/// otherwise `max` is clamped to both the elements available in `values`
/// and the room remaining in `data`, and that many elements are
/// overwritten in place. `data` keeps its length: writes past its end are
/// dropped, never grow it.
pub fn array_write<T: Copy>(data: &mut Vec<T>, values: &[T], offset: usize, max: usize)
    ensures
        final(data)@ == spec_write(old(data)@, values@, offset as int, max as int),
{
    if offset >= data.len() {
        assert(final(data)@ =~= spec_write(old(data)@, values@, offset as int, max as int));
        return ;
    }
    let room = data.len() - offset;
    let mut limit = if max < values.len() {
        max
    } else {
        values.len()
    };
    if room < limit {
        limit = room;
    }
    let mut i: usize = 0;
    while i < limit
        invariant
            limit == spec_write_count(
                old(data)@.len() as int,
                values@.len() as int,
                offset as int,
                max as int,
            ),
            0 <= i <= limit,
            offset + limit <= data@.len(),
            data@.len() <= usize::MAX,
            limit <= values@.len(),
            data@.len() == old(data)@.len(),
            forall|j: int| offset <= j < offset + i ==> data@[j] == values@[j - offset],
            forall|j: int|
                0 <= j < data@.len() && !(offset <= j < offset + i) ==> data@[j] == old(data)@[j],
        decreases limit - i,
    {
        data.set(offset + i, values[i]);
        i += 1;
    }
    assert(final(data)@ =~= spec_write(old(data)@, values@, offset as int, max as int));
}

/// Errors that can occur when creating datarefs
#[derive(Debug, Clone, Copy, PartialEq, Eq, Structural)]
pub enum CreateError {
    /// The provided dataref name contained a null byte
    Null,
    /// The dataref already exists
    Exists,
}

/// Validates a name, checks it is not taken, and registers a new slot.
///
/// This is the shared trunk of every typed constructor. The name is
/// checked before any host call; registering a name the host already
/// knows is refused rather than silently shadowing another component's
/// slot.
fn create_slot(
    host: &mut Host,
    name: &str,
    type_id: i32,
    writable: bool,
    callbacks: AccessorTable,
    value: SlotValue,
) -> (r: Result<u64, CreateError>)
    requires
        old(host).wf(),
        old(host).ids_used() < u64::MAX,
        type_id == wire_bit(value@),
        callbacks == table_for(type_id, writable),
    ensures
        final(host).wf(),
        match r {
            Ok(id) => name_ok(name.spec_bytes()) && !old(host)@.contains_key(id) && (forall|
                other: u64,
            |
                old(host)@.contains_key(other) ==> old(host)@[other].name != name.spec_bytes())
                && final(host)@ == old(host)@.insert(
                id,
                (SlotModel { name: name.spec_bytes(), type_id, writable, callbacks, value: value@ }),
            ) && final(host).ids_used() == old(host).ids_used() + 1,
            Err(e) => final(host)@ == old(host)@ && final(host).ids_used() == old(host).ids_used()
                && {
                ||| (e == CreateError::Null && !name_ok(name.spec_bytes()))
                ||| (e == CreateError::Exists && name_ok(name.spec_bytes()) && (exists|other: u64|
                    #[trigger] old(host)@.contains_key(other) && old(host)@[other].name
                        == name.spec_bytes()))
            },
        },
{
    let bytes = name.as_bytes();
    if !valid_name(bytes) {
        return Err(CreateError::Null);
    }
    match host.find_data_ref(bytes) {
        Some(existing) => {
            proof {
                assert(old(host)@.contains_key(existing) && old(host)@[existing].name
                    == name.spec_bytes());
            }
            Err(CreateError::Exists)
        },
        None => {
            let id = host.register_data_accessor(bytes, type_id, writable, callbacks, value);
            Ok(id)
        },
    }
}

/// A dataref owned by this plugin.
///
/// The access parameter of this type determines whether the host and
/// other plugins can write this dataref. Owned datarefs can always be
/// written by this plugin.
///
/// Registration is synchronous and issues the slot's opaque reference as
/// it returns, so the reference is recorded in this handle before any
/// callback can be dispatched at the slot; there is no window in which a
/// callback could observe a half-initialized slot.
pub struct OwnedData<T, A = ReadOnly> {
    /// The opaque reference the host issued when the slot was registered,
    /// kept to unregister it
    pub id: u64,
    /// Type phantom data
    pub type_phantom: PhantomData<T>,
    /// Data access phantom data
    pub access_phantom: PhantomData<A>,
}

impl<T: DataType, A> OwnedData<T, A> {
    /// The handle's slot is registered and declares exactly this type's
    /// wire bit, as creation left it
    pub open spec fn valid(self, host: Host) -> bool {
        &&& host@.contains_key(self.id)
        &&& host@[self.id].type_id == T::wire_type()
    }

    /// Unregisters this dataref and frees its backing storage, in that
    /// order.
    ///
    /// Unregistering first guarantees that no later dispatch can observe
    /// freed storage: the reference is gone from the table before the
    /// storage goes away (see
    /// [`super::host::lemma_unregistered_ref_dangles`]).
    pub fn destroy(self, host: &mut Host)
        requires
            old(host).wf(),
            self.valid(*old(host)),
        ensures
            final(host).wf(),
            final(host)@ == old(host)@.remove(self.id),
            final(host).ids_used() == old(host).ids_used(),
    {
        host.unregister_data_accessor(self.id);
    }
}

impl<T: DataType, A: Access> OwnedData<T, A> {
    /// Whether an integer read callback applies to this slot
    fn int_read() -> (r: bool)
        ensures
            r == table_for(T::wire_type(), A::spec_writeable()).read_int,
    {
        T::sim_type() & TYPE_INT != 0
    }

    /// Whether an integer write callback applies to this slot
    fn int_write() -> (r: bool)
        ensures
            r == table_for(T::wire_type(), A::spec_writeable()).write_int,
    {
        T::sim_type() & TYPE_INT != 0 && A::writeable()
    }

    /// Whether a float read callback applies to this slot
    fn float_read() -> (r: bool)
        ensures
            r == table_for(T::wire_type(), A::spec_writeable()).read_float,
    {
        T::sim_type() & TYPE_FLOAT != 0
    }

    /// Whether a float write callback applies to this slot
    fn float_write() -> (r: bool)
        ensures
            r == table_for(T::wire_type(), A::spec_writeable()).write_float,
    {
        T::sim_type() & TYPE_FLOAT != 0 && A::writeable()
    }

    /// Whether a double read callback applies to this slot
    fn double_read() -> (r: bool)
        ensures
            r == table_for(T::wire_type(), A::spec_writeable()).read_double,
    {
        T::sim_type() & TYPE_DOUBLE != 0
    }

    /// Whether a double write callback applies to this slot
    fn double_write() -> (r: bool)
        ensures
            r == table_for(T::wire_type(), A::spec_writeable()).write_double,
    {
        T::sim_type() & TYPE_DOUBLE != 0 && A::writeable()
    }

    /// Whether an integer array read callback applies to this slot
    fn int_array_read() -> (r: bool)
        ensures
            r == table_for(T::wire_type(), A::spec_writeable()).read_int_array,
    {
        T::sim_type() & TYPE_INT_ARRAY != 0
    }

    /// Whether an integer array write callback applies to this slot
    fn int_array_write() -> (r: bool)
        ensures
            r == table_for(T::wire_type(), A::spec_writeable()).write_int_array,
    {
        T::sim_type() & TYPE_INT_ARRAY != 0 && A::writeable()
    }

    /// Whether a float array read callback applies to this slot
    fn float_array_read() -> (r: bool)
        ensures
            r == table_for(T::wire_type(), A::spec_writeable()).read_float_array,
    {
        T::sim_type() & TYPE_FLOAT_ARRAY != 0
    }

    /// Whether a float array write callback applies to this slot
    fn float_array_write() -> (r: bool)
        ensures
            r == table_for(T::wire_type(), A::spec_writeable()).write_float_array,
    {
        T::sim_type() & TYPE_FLOAT_ARRAY != 0 && A::writeable()
    }

    /// Whether a byte array read callback applies to this slot
    fn byte_array_read() -> (r: bool)
        ensures
            r == table_for(T::wire_type(), A::spec_writeable()).read_data,
    {
        T::sim_type() & TYPE_DATA != 0
    }

    /// Whether a byte array write callback applies to this slot
    fn byte_array_write() -> (r: bool)
        ensures
            r == table_for(T::wire_type(), A::spec_writeable()).write_data,
    {
        T::sim_type() & TYPE_DATA != 0 && A::writeable()
    }

    /// Builds, for every combination of wire type and direction that
    /// applies to this slot, the callback reference to register;
    /// combinations that do not apply are omitted, so the host treats
    /// those operations as unsupported
    fn build_callbacks() -> (r: AccessorTable)
        ensures
            r == table_for(T::wire_type(), A::spec_writeable()),
    {
        AccessorTable {
            read_int: Self::int_read(),
            write_int: Self::int_write(),
            read_float: Self::float_read(),
            write_float: Self::float_write(),
            read_double: Self::double_read(),
            write_double: Self::double_write(),
            read_int_array: Self::int_array_read(),
            write_int_array: Self::int_array_write(),
            read_float_array: Self::float_array_read(),
            write_float_array: Self::float_array_write(),
            read_data: Self::byte_array_read(),
            write_data: Self::byte_array_write(),
        }
    }
}

impl<T: ScalarType, A: Access> OwnedData<T, A> {
    /// Creates a new dataref with the provided name containing the
    /// default value of `T`
    pub fn create(host: &mut Host, name: &str) -> (r: Result<Self, CreateError>)
        requires
            old(host).wf(),
            old(host).ids_used() < u64::MAX,
        ensures
            final(host).wf(),
            match r {
                Ok(o) => name_ok(name.spec_bytes()) && !old(host)@.contains_key(o.id) && (forall|
                    other: u64,
                |
                    old(host)@.contains_key(other) ==> old(host)@[other].name != name.spec_bytes())
                    && final(host)@ == old(host)@.insert(
                    o.id,
                    (SlotModel {
                        name: name.spec_bytes(),
                        type_id: T::wire_type(),
                        writable: A::spec_writeable(),
                        callbacks: table_for(T::wire_type(), A::spec_writeable()),
                        value: T::spec_default().to_slot_spec(),
                    }),
                ) && o.valid(*final(host)) && final(host).ids_used() == old(host).ids_used() + 1,
                Err(e) => final(host)@ == old(host)@ && final(host).ids_used() == old(
                    host,
                ).ids_used() && {
                    ||| (e == CreateError::Null && !name_ok(name.spec_bytes()))
                    ||| (e == CreateError::Exists && name_ok(name.spec_bytes()) && (exists|
                        other: u64,
                    |
                        #[trigger] old(host)@.contains_key(other) && old(host)@[other].name
                            == name.spec_bytes()))
                },
            },
    {
        Self::create_with_value(host, name, &T::default_value())
    }

    /// Creates a new dataref with the provided name and value
    pub fn create_with_value(host: &mut Host, name: &str, value: &T) -> (r: Result<
        Self,
        CreateError,
    >)
        requires
            old(host).wf(),
            old(host).ids_used() < u64::MAX,
        ensures
            final(host).wf(),
            match r {
                Ok(o) => name_ok(name.spec_bytes()) && !old(host)@.contains_key(o.id) && (forall|
                    other: u64,
                |
                    old(host)@.contains_key(other) ==> old(host)@[other].name != name.spec_bytes())
                    && final(host)@ == old(host)@.insert(
                    o.id,
                    (SlotModel {
                        name: name.spec_bytes(),
                        type_id: T::wire_type(),
                        writable: A::spec_writeable(),
                        callbacks: table_for(T::wire_type(), A::spec_writeable()),
                        value: (*value).to_slot_spec(),
                    }),
                ) && o.valid(*final(host)) && final(host).ids_used() == old(host).ids_used() + 1,
                Err(e) => final(host)@ == old(host)@ && final(host).ids_used() == old(
                    host,
                ).ids_used() && {
                    ||| (e == CreateError::Null && !name_ok(name.spec_bytes()))
                    ||| (e == CreateError::Exists && name_ok(name.spec_bytes()) && (exists|
                        other: u64,
                    |
                        #[trigger] old(host)@.contains_key(other) && old(host)@[other].name
                            == name.spec_bytes()))
                },
            },
    {
        proof {
            T::lemma_wire(*value);
        }
        let callbacks = Self::build_callbacks();
        match create_slot(host, name, T::sim_type(), A::writeable(), callbacks, value.to_slot()) {
            Ok(id) => Ok(OwnedData { id, type_phantom: PhantomData, access_phantom: PhantomData }),
            Err(e) => Err(e),
        }
    }
}

impl<T: ScalarType, A> OwnedData<T, A> {
    /// Reads the value stored in this dataref: the owner reads its own
    /// backing storage directly
    pub fn get(&self, host: &Host) -> (r: T)
        requires
            host.wf(),
            self.valid(*host),
        ensures
            r == T::from_slot_spec(host@[self.id].value),
    {
        T::from_slot(host.read_value(self.id))
    }

    /// Writes the value stored in this dataref. Owned datarefs can always
    /// be written by this plugin, whatever their external access.
    pub fn set(&mut self, host: &mut Host, value: T)
        requires
            old(host).wf(),
            old(self).valid(*old(host)),
        ensures
            *final(self) == *old(self),
            final(host).wf(),
            final(host).ids_used() == old(host).ids_used(),
            final(host)@ == old(host)@.insert(
                old(self).id,
                (SlotModel { value: value.to_slot_spec(), ..old(host)@[old(self).id] }),
            ),
    {
        proof {
            lemma_wf_slot(*host, self.id);
            T::lemma_wire(value);
            T::lemma_scalar_wire();
        }
        host.write_owned(self.id, &value.to_slot());
    }
}

impl<A: Access> OwnedData<Vec<i32>, A> {
    /// Creates a new dataref with the provided name, holding an empty
    /// array
    pub fn create(host: &mut Host, name: &str) -> (r: Result<Self, CreateError>)
        requires
            old(host).wf(),
            old(host).ids_used() < u64::MAX,
        ensures
            final(host).wf(),
            match r {
                Ok(o) => name_ok(name.spec_bytes()) && !old(host)@.contains_key(o.id) && (forall|
                    other: u64,
                |
                    old(host)@.contains_key(other) ==> old(host)@[other].name != name.spec_bytes())
                    && final(host)@ == old(host)@.insert(
                    o.id,
                    (SlotModel {
                        name: name.spec_bytes(),
                        type_id: TYPE_INT_ARRAY,
                        writable: A::spec_writeable(),
                        callbacks: table_for(TYPE_INT_ARRAY, A::spec_writeable()),
                        value: SlotValueModel::IntArray(Seq::empty()),
                    }),
                ) && o.valid(*final(host)) && final(host).ids_used() == old(host).ids_used() + 1,
                Err(e) => final(host)@ == old(host)@ && final(host).ids_used() == old(
                    host,
                ).ids_used() && {
                    ||| (e == CreateError::Null && !name_ok(name.spec_bytes()))
                    ||| (e == CreateError::Exists && name_ok(name.spec_bytes()) && (exists|
                        other: u64,
                    |
                        #[trigger] old(host)@.contains_key(other) && old(host)@[other].name
                            == name.spec_bytes()))
                },
            },
    {
        let empty: Vec<i32> = Vec::new();
        let r = Self::create_with_value(host, name, empty.as_slice());
        proof {
            assert(Seq::<i32>::empty() =~= empty@);
        }
        r
    }

    /// Creates a new dataref with the provided name and elements
    pub fn create_with_value(host: &mut Host, name: &str, value: &[i32]) -> (r: Result<
        Self,
        CreateError,
    >)
        requires
            old(host).wf(),
            old(host).ids_used() < u64::MAX,
        ensures
            final(host).wf(),
            match r {
                Ok(o) => name_ok(name.spec_bytes()) && !old(host)@.contains_key(o.id) && (forall|
                    other: u64,
                |
                    old(host)@.contains_key(other) ==> old(host)@[other].name != name.spec_bytes())
                    && final(host)@ == old(host)@.insert(
                    o.id,
                    (SlotModel {
                        name: name.spec_bytes(),
                        type_id: TYPE_INT_ARRAY,
                        writable: A::spec_writeable(),
                        callbacks: table_for(TYPE_INT_ARRAY, A::spec_writeable()),
                        value: SlotValueModel::IntArray(value@),
                    }),
                ) && o.valid(*final(host)) && final(host).ids_used() == old(host).ids_used() + 1,
                Err(e) => final(host)@ == old(host)@ && final(host).ids_used() == old(
                    host,
                ).ids_used() && {
                    ||| (e == CreateError::Null && !name_ok(name.spec_bytes()))
                    ||| (e == CreateError::Exists && name_ok(name.spec_bytes()) && (exists|
                        other: u64,
                    |
                        #[trigger] old(host)@.contains_key(other) && old(host)@[other].name
                            == name.spec_bytes()))
                },
            },
    {
        let callbacks = Self::build_callbacks();
        match create_slot(
            host,
            name,
            <Vec<i32> as DataType>::sim_type(),
            A::writeable(),
            callbacks,
            SlotValue::IntArray(slice_to_vec(value)),
        ) {
            Ok(id) => Ok(OwnedData { id, type_phantom: PhantomData, access_phantom: PhantomData }),
            Err(e) => Err(e),
        }
    }
}

impl<A> OwnedData<Vec<i32>, A> {
    /// Reads values from this dataref's backing storage into the start of
    /// the provided buffer and returns how many were read: the smaller of
    /// the buffer's length and the stored length. The buffer's tail is
    /// not modified.
    pub fn get(&self, host: &Host, dest: &mut Vec<i32>) -> (count: usize)
        requires
            host.wf(),
            self.valid(*host),
        ensures
            host@[self.id].value is IntArray,
            final(dest)@.len() == old(dest)@.len(),
            count == imin(old(dest)@.len() as int, array_len(host@[self.id].value)),
            forall|k: int| 0 <= k < count ==> final(dest)@[k] == host@[self.id].value->IntArray_0[k],
            forall|k: int| count <= k < old(dest)@.len() ==> final(dest)@[k] == old(dest)@[k],
    {
        proof {
            lemma_wf_slot(*host, self.id);
        }
        match host.read_ints(self.id, dest, 0, dest.len()) {
            Some(n) => n,
            None => unreached(),
        }
    }

    /// Returns the length of the data array
    pub fn len(&self, host: &Host) -> (n: usize)
        requires
            host.wf(),
            self.valid(*host),
        ensures
            host@[self.id].value is IntArray,
            n == array_len(host@[self.id].value),
    {
        proof {
            lemma_wf_slot(*host, self.id);
        }
        match host.query_len(self.id) {
            Some(n) => n,
            None => unreached(),
        }
    }

    /// Returns all values in this dataref as a Vec
    pub fn as_vec(&self, host: &Host) -> (values: Vec<i32>)
        requires
            host.wf(),
            self.valid(*host),
        ensures
            host@[self.id].value is IntArray,
            values@ == host@[self.id].value->IntArray_0,
    {
        let n = self.len(host);
        let mut values: Vec<i32> = Vec::new();
        let mut i: usize = 0;
        while i < n
            invariant
                0 <= i <= n,
                values@.len() == i,
            decreases n - i,
        {
            values.push(0i32);
            i += 1;
        }
        let count = self.get(host, &mut values);
        proof {
            assert(values@ =~= host@[self.id].value->IntArray_0);
        }
        values
    }

    /// Writes values into this dataref's backing storage, starting at its
    /// first element. Owned datarefs can always be written by this
    /// plugin, whatever their external access.
    ///
    /// The storage keeps its length: extra source elements are dropped
    /// and a short source leaves the tail unchanged.
    pub fn set(&mut self, host: &mut Host, values: &[i32])
        requires
            old(host).wf(),
            old(self).valid(*old(host)),
        ensures
            *final(self) == *old(self),
            final(host).wf(),
            final(host).ids_used() == old(host).ids_used(),
            final(host)@ == old(host)@.insert(
                old(self).id,
                (SlotModel {
                    value: SlotValueModel::IntArray(
                        spec_write(
                            old(host)@[old(self).id].value->IntArray_0,
                            values@,
                            0,
                            values@.len() as int,
                        ),
                    ),
                    ..old(host)@[old(self).id]
                }),
            ),
    {
        proof {
            lemma_wf_slot(*host, self.id);
        }
        host.write_owned(self.id, &SlotValue::IntArray(slice_to_vec(values)));
    }
}

impl<A: Access> OwnedData<Vec<FloatBits>, A> {
    /// Creates a new dataref with the provided name, holding an empty
    /// array
    pub fn create(host: &mut Host, name: &str) -> (r: Result<Self, CreateError>)
        requires
            old(host).wf(),
            old(host).ids_used() < u64::MAX,
        ensures
            final(host).wf(),
            match r {
                Ok(o) => name_ok(name.spec_bytes()) && !old(host)@.contains_key(o.id) && (forall|
                    other: u64,
                |
                    old(host)@.contains_key(other) ==> old(host)@[other].name != name.spec_bytes())
                    && final(host)@ == old(host)@.insert(
                    o.id,
                    (SlotModel {
                        name: name.spec_bytes(),
                        type_id: TYPE_FLOAT_ARRAY,
                        writable: A::spec_writeable(),
                        callbacks: table_for(TYPE_FLOAT_ARRAY, A::spec_writeable()),
                        value: SlotValueModel::FloatArray(Seq::empty()),
                    }),
                ) && o.valid(*final(host)) && final(host).ids_used() == old(host).ids_used() + 1,
                Err(e) => final(host)@ == old(host)@ && final(host).ids_used() == old(
                    host,
                ).ids_used() && {
                    ||| (e == CreateError::Null && !name_ok(name.spec_bytes()))
                    ||| (e == CreateError::Exists && name_ok(name.spec_bytes()) && (exists|
                        other: u64,
                    |
                        #[trigger] old(host)@.contains_key(other) && old(host)@[other].name
                            == name.spec_bytes()))
                },
            },
    {
        let empty: Vec<FloatBits> = Vec::new();
        let r = Self::create_with_value(host, name, empty.as_slice());
        proof {
            assert(Seq::<FloatBits>::empty() =~= empty@);
        }
        r
    }

    /// Creates a new dataref with the provided name and elements
    pub fn create_with_value(host: &mut Host, name: &str, value: &[FloatBits]) -> (r: Result<
        Self,
        CreateError,
    >)
        requires
            old(host).wf(),
            old(host).ids_used() < u64::MAX,
        ensures
            final(host).wf(),
            match r {
                Ok(o) => name_ok(name.spec_bytes()) && !old(host)@.contains_key(o.id) && (forall|
                    other: u64,
                |
                    old(host)@.contains_key(other) ==> old(host)@[other].name != name.spec_bytes())
                    && final(host)@ == old(host)@.insert(
                    o.id,
                    (SlotModel {
                        name: name.spec_bytes(),
                        type_id: TYPE_FLOAT_ARRAY,
                        writable: A::spec_writeable(),
                        callbacks: table_for(TYPE_FLOAT_ARRAY, A::spec_writeable()),
                        value: SlotValueModel::FloatArray(value@),
                    }),
                ) && o.valid(*final(host)) && final(host).ids_used() == old(host).ids_used() + 1,
                Err(e) => final(host)@ == old(host)@ && final(host).ids_used() == old(
                    host,
                ).ids_used() && {
                    ||| (e == CreateError::Null && !name_ok(name.spec_bytes()))
                    ||| (e == CreateError::Exists && name_ok(name.spec_bytes()) && (exists|
                        other: u64,
                    |
                        #[trigger] old(host)@.contains_key(other) && old(host)@[other].name
                            == name.spec_bytes()))
                },
            },
    {
        let callbacks = Self::build_callbacks();
        match create_slot(
            host,
            name,
            <Vec<FloatBits> as DataType>::sim_type(),
            A::writeable(),
            callbacks,
            SlotValue::FloatArray(slice_to_vec(value)),
        ) {
            Ok(id) => Ok(OwnedData { id, type_phantom: PhantomData, access_phantom: PhantomData }),
            Err(e) => Err(e),
        }
    }
}

impl<A> OwnedData<Vec<FloatBits>, A> {
    /// Reads values from this dataref's backing storage into the start of
    /// the provided buffer and returns how many were read: the smaller of
    /// the buffer's length and the stored length. The buffer's tail is
    /// not modified.
    pub fn get(&self, host: &Host, dest: &mut Vec<FloatBits>) -> (count: usize)
        requires
            host.wf(),
            self.valid(*host),
        ensures
            host@[self.id].value is FloatArray,
            final(dest)@.len() == old(dest)@.len(),
            count == imin(old(dest)@.len() as int, array_len(host@[self.id].value)),
            forall|k: int| 0 <= k < count ==> final(dest)@[k] == host@[self.id].value->FloatArray_0[k],
            forall|k: int| count <= k < old(dest)@.len() ==> final(dest)@[k] == old(dest)@[k],
    {
        proof {
            lemma_wf_slot(*host, self.id);
        }
        match host.read_floats(self.id, dest, 0, dest.len()) {
            Some(n) => n,
            None => unreached(),
        }
    }

    /// Returns the length of the data array
    pub fn len(&self, host: &Host) -> (n: usize)
        requires
            host.wf(),
            self.valid(*host),
        ensures
            host@[self.id].value is FloatArray,
            n == array_len(host@[self.id].value),
    {
        proof {
            lemma_wf_slot(*host, self.id);
        }
        match host.query_len(self.id) {
            Some(n) => n,
            None => unreached(),
        }
    }

    /// Returns all values in this dataref as a Vec
    pub fn as_vec(&self, host: &Host) -> (values: Vec<FloatBits>)
        requires
            host.wf(),
            self.valid(*host),
        ensures
            host@[self.id].value is FloatArray,
            values@ == host@[self.id].value->FloatArray_0,
    {
        let n = self.len(host);
        let mut values: Vec<FloatBits> = Vec::new();
        let mut i: usize = 0;
        while i < n
            invariant
                0 <= i <= n,
                values@.len() == i,
            decreases n - i,
        {
            values.push((FloatBits { bits: 0 }));
            i += 1;
        }
        let count = self.get(host, &mut values);
        proof {
            assert(values@ =~= host@[self.id].value->FloatArray_0);
        }
        values
    }

    /// Writes values into this dataref's backing storage, starting at its
    /// first element. Owned datarefs can always be written by this
    /// plugin, whatever their external access.
    ///
    /// The storage keeps its length: extra source elements are dropped
    /// and a short source leaves the tail unchanged.
    pub fn set(&mut self, host: &mut Host, values: &[FloatBits])
        requires
            old(host).wf(),
            old(self).valid(*old(host)),
        ensures
            *final(self) == *old(self),
            final(host).wf(),
            final(host).ids_used() == old(host).ids_used(),
            final(host)@ == old(host)@.insert(
                old(self).id,
                (SlotModel {
                    value: SlotValueModel::FloatArray(
                        spec_write(
                            old(host)@[old(self).id].value->FloatArray_0,
                            values@,
                            0,
                            values@.len() as int,
                        ),
                    ),
                    ..old(host)@[old(self).id]
                }),
            ),
    {
        proof {
            lemma_wf_slot(*host, self.id);
        }
        host.write_owned(self.id, &SlotValue::FloatArray(slice_to_vec(values)));
    }
}

impl<A: Access> OwnedData<Vec<u8>, A> {
    /// Creates a new dataref with the provided name, holding an empty
    /// array
    pub fn create(host: &mut Host, name: &str) -> (r: Result<Self, CreateError>)
        requires
            old(host).wf(),
            old(host).ids_used() < u64::MAX,
        ensures
            final(host).wf(),
            match r {
                Ok(o) => name_ok(name.spec_bytes()) && !old(host)@.contains_key(o.id) && (forall|
                    other: u64,
                |
                    old(host)@.contains_key(other) ==> old(host)@[other].name != name.spec_bytes())
                    && final(host)@ == old(host)@.insert(
                    o.id,
                    (SlotModel {
                        name: name.spec_bytes(),
                        type_id: TYPE_DATA,
                        writable: A::spec_writeable(),
                        callbacks: table_for(TYPE_DATA, A::spec_writeable()),
                        value: SlotValueModel::Data(Seq::empty()),
                    }),
                ) && o.valid(*final(host)) && final(host).ids_used() == old(host).ids_used() + 1,
                Err(e) => final(host)@ == old(host)@ && final(host).ids_used() == old(
                    host,
                ).ids_used() && {
                    ||| (e == CreateError::Null && !name_ok(name.spec_bytes()))
                    ||| (e == CreateError::Exists && name_ok(name.spec_bytes()) && (exists|
                        other: u64,
                    |
                        #[trigger] old(host)@.contains_key(other) && old(host)@[other].name
                            == name.spec_bytes()))
                },
            },
    {
        let empty: Vec<u8> = Vec::new();
        let r = Self::create_with_value(host, name, empty.as_slice());
        proof {
            assert(Seq::<u8>::empty() =~= empty@);
        }
        r
    }

    /// Creates a new dataref with the provided name and elements
    pub fn create_with_value(host: &mut Host, name: &str, value: &[u8]) -> (r: Result<
        Self,
        CreateError,
    >)
        requires
            old(host).wf(),
            old(host).ids_used() < u64::MAX,
        ensures
            final(host).wf(),
            match r {
                Ok(o) => name_ok(name.spec_bytes()) && !old(host)@.contains_key(o.id) && (forall|
                    other: u64,
                |
                    old(host)@.contains_key(other) ==> old(host)@[other].name != name.spec_bytes())
                    && final(host)@ == old(host)@.insert(
                    o.id,
                    (SlotModel {
                        name: name.spec_bytes(),
                        type_id: TYPE_DATA,
                        writable: A::spec_writeable(),
                        callbacks: table_for(TYPE_DATA, A::spec_writeable()),
                        value: SlotValueModel::Data(value@),
                    }),
                ) && o.valid(*final(host)) && final(host).ids_used() == old(host).ids_used() + 1,
                Err(e) => final(host)@ == old(host)@ && final(host).ids_used() == old(
                    host,
                ).ids_used() && {
                    ||| (e == CreateError::Null && !name_ok(name.spec_bytes()))
                    ||| (e == CreateError::Exists && name_ok(name.spec_bytes()) && (exists|
                        other: u64,
                    |
                        #[trigger] old(host)@.contains_key(other) && old(host)@[other].name
                            == name.spec_bytes()))
                },
            },
    {
        let callbacks = Self::build_callbacks();
        match create_slot(
            host,
            name,
            <Vec<u8> as DataType>::sim_type(),
            A::writeable(),
            callbacks,
            SlotValue::Data(slice_to_vec(value)),
        ) {
            Ok(id) => Ok(OwnedData { id, type_phantom: PhantomData, access_phantom: PhantomData }),
            Err(e) => Err(e),
        }
    }
}

impl<A> OwnedData<Vec<u8>, A> {
    /// Reads values from this dataref's backing storage into the start of
    /// the provided buffer and returns how many were read: the smaller of
    /// the buffer's length and the stored length. The buffer's tail is
    /// not modified.
    pub fn get(&self, host: &Host, dest: &mut Vec<u8>) -> (count: usize)
        requires
            host.wf(),
            self.valid(*host),
        ensures
            host@[self.id].value is Data,
            final(dest)@.len() == old(dest)@.len(),
            count == imin(old(dest)@.len() as int, array_len(host@[self.id].value)),
            forall|k: int| 0 <= k < count ==> final(dest)@[k] == host@[self.id].value->Data_0[k],
            forall|k: int| count <= k < old(dest)@.len() ==> final(dest)@[k] == old(dest)@[k],
    {
        proof {
            lemma_wf_slot(*host, self.id);
        }
        match host.read_bytes(self.id, dest, 0, dest.len()) {
            Some(n) => n,
            None => unreached(),
        }
    }

    /// Returns the length of the data array
    pub fn len(&self, host: &Host) -> (n: usize)
        requires
            host.wf(),
            self.valid(*host),
        ensures
            host@[self.id].value is Data,
            n == array_len(host@[self.id].value),
    {
        proof {
            lemma_wf_slot(*host, self.id);
        }
        match host.query_len(self.id) {
            Some(n) => n,
            None => unreached(),
        }
    }

    /// Returns all values in this dataref as a Vec
    pub fn as_vec(&self, host: &Host) -> (values: Vec<u8>)
        requires
            host.wf(),
            self.valid(*host),
        ensures
            host@[self.id].value is Data,
            values@ == host@[self.id].value->Data_0,
    {
        let n = self.len(host);
        let mut values: Vec<u8> = Vec::new();
        let mut i: usize = 0;
        while i < n
            invariant
                0 <= i <= n,
                values@.len() == i,
            decreases n - i,
        {
            values.push(0u8);
            i += 1;
        }
        let count = self.get(host, &mut values);
        proof {
            assert(values@ =~= host@[self.id].value->Data_0);
        }
        values
    }

    /// Writes values into this dataref's backing storage, starting at its
    /// first element. Owned datarefs can always be written by this
    /// plugin, whatever their external access.
    ///
    /// The storage keeps its length: extra source elements are dropped
    /// and a short source leaves the tail unchanged.
    pub fn set(&mut self, host: &mut Host, values: &[u8])
        requires
            old(host).wf(),
            old(self).valid(*old(host)),
        ensures
            *final(self) == *old(self),
            final(host).wf(),
            final(host).ids_used() == old(host).ids_used(),
            final(host)@ == old(host)@.insert(
                old(self).id,
                (SlotModel {
                    value: SlotValueModel::Data(
                        spec_write(
                            old(host)@[old(self).id].value->Data_0,
                            values@,
                            0,
                            values@.len() as int,
                        ),
                    ),
                    ..old(host)@[old(self).id]
                }),
            ),
    {
        proof {
            lemma_wf_slot(*host, self.id);
        }
        host.write_owned(self.id, &SlotValue::Data(slice_to_vec(values)));
    }
}

impl<A> OwnedData<Vec<u8>, A> {
    /// Reads this byte dataref as text: the stored bytes, trimmed at the
    /// first null byte and decoded. An error is returned if they are not
    /// valid UTF-8.
    pub fn get_as_string(&self, host: &Host) -> (r: Result<String, EncodingError>)
        requires
            host.wf(),
            self.valid(*host),
        ensures
            host@[self.id].value is Data,
            ({
                let data = host@[self.id].value->Data_0;
                match r {
                    Ok(s) => valid_utf8(data.take(first_null(data))) && s@ == decode_utf8(
                        data.take(first_null(data)),
                    ),
                    Err(_) => !valid_utf8(data.take(first_null(data))),
                }
            }),
    {
        let len = self.len(host);
        let mut buffer = StringBuffer::new(len);
        let count = self.get(host, buffer.as_bytes_mut());
        proof {
            assert(buffer@ =~= host@[self.id].value->Data_0);
        }
        buffer.into_string()
    }

    /// Sets the value of this dataref from a string.
    ///
    /// The text's bytes and a trailing null terminator are copied into
    /// the backing storage from index 0, which keeps its length. Returns
    /// an error if the string contains a null byte.
    pub fn set_as_string(&mut self, host: &mut Host, value: &str) -> (r: Result<(), NulByteError>)
        requires
            old(host).wf(),
            old(self).valid(*old(host)),
        ensures
            *final(self) == *old(self),
            final(host).wf(),
            final(host).ids_used() == old(host).ids_used(),
            match r {
                Ok(_) => name_ok(value.spec_bytes()) && final(host)@ == old(host)@.insert(
                    old(self).id,
                    (SlotModel {
                        value: SlotValueModel::Data(
                            spec_write(
                                old(host)@[old(self).id].value->Data_0,
                                value.spec_bytes().push(0),
                                0,
                                value.spec_bytes().len() as int + 1,
                            ),
                        ),
                        ..old(host)@[old(self).id]
                    }),
                ),
                Err(_) => !name_ok(value.spec_bytes()) && final(host)@ == old(host)@,
            },
    {
        let bytes = value.as_bytes();
        if !valid_name(bytes) {
            return Err(NulByteError);
        }
        let mut v = slice_to_vec(bytes);
        v.push(0);
        self.set(host, v.as_slice());
        Ok(())
    }
}

/// Round-trip law across creation and discovery.
///
/// Whenever the table holds the stored image of a value — as it does
/// after a slot was created with that value — a typed read of the slot
/// returns exactly that value, whichever handle performs it; and after
/// either the owner or a discovered read-write handle writes another
/// value (both leave its image in the table, per their contracts), a read
/// through the other handle returns the new value.
pub proof fn lemma_round_trip_read<T: ScalarType>(m: Map<u64, SlotModel>, id: u64, v: T, w: T)
    requires
        m.contains_key(id),
        m[id].value == v.to_slot_spec(),
    ensures
        T::from_slot_spec(m[id].value) == v,
        T::from_slot_spec(
            m.insert(id, (SlotModel { value: w.to_slot_spec(), ..m[id] }))[id].value,
        ) == w,
{
    T::lemma_round_trip(v);
    T::lemma_round_trip(w);
}

} // verus!
