//! Datarefs created by the host or other plugins.
//!
//! A [`DataRef`] is a capability, not a resource: it wraps the opaque
//! reference the host issued for a named slot, tagged at the type level
//! with the wire type and access mode that were checked when it was made.
//! The checks happen exactly once — the wire type at [`DataRef::find`],
//! writability at [`DataRef::writeable`] — and are never repeated on a
//! read or write. Dropping a handle has no effect on the slot.

use core::marker::PhantomData;
use vstd::prelude::*;
use vstd::slice::slice_to_vec;
use vstd::utf8::decode_utf8;
use vstd::utf8::valid_utf8;
use vstd::pervasive::unreached;
use vstd::string::StringSliceAdditionalSpecFns;

use crate::ffi::first_null;
use crate::ffi::EncodingError;
use crate::ffi::StringBuffer;

use super::host::array_len;
use super::host::lemma_wf_slot;
use super::host::Host;
use super::host::SlotModel;
use super::lemma_wire_bit_overlap;
use super::name_ok;
use super::NulByteError;
use super::owned::spec_read_count;
use super::owned::spec_write;
use super::valid_name;
use super::DataType;
use super::FloatBits;
use super::ReadOnly;
use super::ReadWrite;
use super::ScalarType;
use super::SlotValueModel;
use super::TYPE_DATA;
use super::TYPE_FLOAT_ARRAY;
use super::TYPE_INT_ARRAY;

verus! {

/// Errors that can occur when finding datarefs
#[derive(Debug, Clone, Copy, PartialEq, Eq, Structural)]
pub enum FindError {
    /// The provided dataref name contained a null byte
    Null,
    /// The dataref was not found
    NotFound,
    /// The dataref was found, but it is not writable
    NotWritable,
    /// The dataref was found, but it does not have the correct type
    WrongType,
}

/// The largest element count a single array operation can name: counts
/// are carried in a signed 32-bit value on the wire
pub open spec fn spec_array_size(size: int) -> int {
    if size > 0x7fff_ffff {
        0x7fff_ffff
    } else {
        size
    }
}

/// Converts a usize into an i32. Returns the largest i32 if the provided
/// size is too large for an i32: lengths are clamped, never wrapped.
pub fn array_size(size: usize) -> (r: i32)
    ensures
        r == spec_array_size(size as int),
{
    if size > 0x7fff_ffff {
        0x7fff_ffff
    } else {
        size as i32
    }
}

/// A dataref created by the host or another plugin.
///
/// `T` is the data type stored in the dataref. `A` is the access level
/// ([`ReadOnly`] or [`ReadWrite`]).
pub struct DataRef<T, A = ReadOnly> {
    /// The opaque reference the host issued for the slot
    pub id: u64,
    /// Type phantom data
    pub type_phantom: PhantomData<T>,
    /// Data access phantom data
    pub access_phantom: PhantomData<A>,
}

impl<T: DataType, A> DataRef<T, A> {
    /// The handle names a live slot whose declared type overlaps the
    /// handle's wire type.
    ///
    /// Every handle is valid when made; it stays valid as long as the
    /// slot is registered. Host-side removal of a slot out from under a
    /// live handle is a host contract violation, so reads and writes
    /// require validity rather than re-checking it.
    pub open spec fn valid(self, host: Host) -> bool {
        &&& host@.contains_key(self.id)
        &&& host@[self.id].type_id & T::wire_type() != 0
    }
}

impl<T: DataType> DataRef<T, ReadOnly> {
    /// Finds a readable dataref by its name.
    ///
    /// The name is checked first: one with an embedded terminator byte is
    /// rejected without consulting the host. A resolved slot must then
    /// declare a wire type that overlaps `T`'s.
    pub fn find(host: &Host, name: &str) -> (r: Result<Self, FindError>)
        requires
            host.wf(),
        ensures
            match r {
                Ok(h) => name_ok(name.spec_bytes()) && h.valid(*host) && host@[h.id].name
                    == name.spec_bytes(),
                Err(e) => {
                    ||| (e == FindError::Null && !name_ok(name.spec_bytes()))
                    ||| (e == FindError::NotFound && name_ok(name.spec_bytes()) && (forall|
                        id: u64,
                    |
                        host@.contains_key(id) ==> host@[id].name != name.spec_bytes()))
                    ||| (e == FindError::WrongType && name_ok(name.spec_bytes()) && (exists|
                        id: u64,
                    |
                        #[trigger] host@.contains_key(id) && host@[id].name == name.spec_bytes()
                            && host@[id].type_id & T::wire_type() == 0))
                },
            },
    {
        let bytes = name.as_bytes();
        if !valid_name(bytes) {
            return Err(FindError::Null);
        }
        match host.find_data_ref(bytes) {
            None => Err(FindError::NotFound),
            Some(id) => {
                let types = host.get_data_ref_types(id);
                if types & T::sim_type() != 0 {
                    Ok(DataRef { id, type_phantom: PhantomData, access_phantom: PhantomData })
                } else {
                    Err(FindError::WrongType)
                }
            },
        }
    }

    /// Makes this dataref writable.
    ///
    /// The host's writability for the slot is checked here, exactly once:
    /// a slot the host reports read-only refuses the upgrade even when
    /// the wire type matches exactly. There is no path back from
    /// read-write to read-only.
    pub fn writeable(self, host: &Host) -> (r: Result<DataRef<T, ReadWrite>, FindError>)
        requires
            host.wf(),
            self.valid(*host),
        ensures
            match r {
                Ok(h) => host@[self.id].writable && h.id == self.id && h.valid(*host),
                Err(e) => e == FindError::NotWritable && !host@[self.id].writable,
            },
    {
        let writable = host.can_write_data_ref(self.id);
        if writable {
            Ok(DataRef { id: self.id, type_phantom: PhantomData, access_phantom: PhantomData })
        } else {
            Err(FindError::NotWritable)
        }
    }
}

impl<T: ScalarType, A> DataRef<T, A> {
    /// Reads the value of this dataref.
    ///
    /// A single host call; no error is possible once the handle exists.
    pub fn get(&self, host: &Host) -> (r: T)
        requires
            host.wf(),
            self.valid(*host),
        ensures
            r == T::from_slot_spec(host@[self.id].value),
    {
        proof {
            lemma_wf_slot(*host, self.id);
            T::lemma_wire_single();
            T::lemma_scalar_wire();
            lemma_wire_bit_overlap(host@[self.id].type_id, T::wire_type());
        }
        match host.read_scalar(self.id) {
            Some(v) => T::from_slot(&v),
            None => unreached(),
        }
    }
}

impl<T: ScalarType> DataRef<T, ReadWrite> {
    /// Sets the value of this dataref with a single host call
    pub fn set(&mut self, host: &mut Host, value: T)
        requires
            old(host).wf(),
            old(self).valid(*old(host)),
            old(host)@[old(self).id].writable,
        ensures
            *final(self) == *old(self),
            final(host).wf(),
            final(host).ids_used() == old(host).ids_used(),
            final(host)@ == old(host)@.insert(
                old(self).id,
                (SlotModel { value: value.to_slot_spec(), ..old(host)@[old(self).id] }),
            ),
    {
        proof {
            lemma_wf_slot(*host, self.id);
            T::lemma_wire_single();
            T::lemma_scalar_wire();
            T::lemma_wire(value);
            lemma_wire_bit_overlap(host@[self.id].type_id, T::wire_type());
        }
        let accepted = host.write_scalar(self.id, value.to_slot());
        proof {
            assert(accepted);
        }
    }
}

impl<A> DataRef<Vec<i32>, A> {
    /// Reads values into the provided buffer, starting at the slot's
    /// first element, and returns how many were read.
    ///
    /// If the dataref holds more values than the buffer, values beyond
    /// the buffer's length are ignored; if it holds fewer, the buffer's
    /// tail is not modified. A single operation reads at most the wire
    /// bound of elements.
    pub fn get(&self, host: &Host, dest: &mut Vec<i32>) -> (count: usize)
        requires
            host.wf(),
            self.valid(*host),
        ensures
            host@[self.id].value is IntArray,
            final(dest)@.len() == old(dest)@.len(),
            count == spec_read_count(
                array_len(host@[self.id].value),
                old(dest)@.len() as int,
                0,
                spec_array_size(old(dest)@.len() as int),
            ),
            forall|k: int| 0 <= k < count ==> final(dest)@[k] == host@[self.id].value->IntArray_0[k],
            forall|k: int| count <= k < old(dest)@.len() ==> final(dest)@[k] == old(dest)@[k],
    {
        proof {
            lemma_wf_slot(*host, self.id);
            lemma_wire_bit_overlap(host@[self.id].type_id, TYPE_INT_ARRAY);
        }
        let size = array_size(dest.len());
        match host.read_ints(self.id, dest, 0, size as usize) {
            Some(n) => n,
            None => unreached(),
        }
    }

    /// Returns the length of the data array: the first phase of the
    /// two-phase protocol, a read with a null destination
    pub fn len(&self, host: &Host) -> (n: usize)
        requires
            host.wf(),
            self.valid(*host),
        ensures
            host@[self.id].value is IntArray,
            n == array_len(host@[self.id].value),
    {
        proof {
            lemma_wf_slot(*host, self.id);
            lemma_wire_bit_overlap(host@[self.id].type_id, TYPE_INT_ARRAY);
        }
        match host.query_len(self.id) {
            Some(n) => n,
            None => unreached(),
        }
    }

    /// Returns all values in this accessor as a Vec.
    ///
    /// The length is queried first, then the elements are read: between
    /// the two calls a host-owned slot may resize, which callers accept
    /// as best-effort. Elements past the wire bound cannot be read and
    /// are returned as zero.
    pub fn as_vec(&self, host: &Host) -> (values: Vec<i32>)
        requires
            host.wf(),
            self.valid(*host),
        ensures
            host@[self.id].value is IntArray,
            values@.len() == array_len(host@[self.id].value),
            forall|k: int|
                0 <= k < spec_array_size(values@.len() as int) ==> values@[k]
                    == host@[self.id].value->IntArray_0[k],
            forall|k: int|
                spec_array_size(values@.len() as int) <= k < values@.len() ==> values@[k] == 0i32,
    {
        let n = self.len(host);
        let mut values: Vec<i32> = Vec::new();
        let mut i: usize = 0;
        while i < n
            invariant
                0 <= i <= n,
                values@.len() == i,
                forall|k: int| 0 <= k < i ==> values@[k] == 0i32,
            decreases n - i,
        {
            values.push(0i32);
            i += 1;
        }
        let count = self.get(host, &mut values);
        values
    }
}

impl DataRef<Vec<i32>, ReadWrite> {
    /// Writes values to this dataref, starting at its first element.
    ///
    /// If the dataref holds more values than the slice, values beyond the
    /// slice's length are not changed; if it holds fewer, the extra
    /// values in the slice are ignored. A slice longer than the wire
    /// bound is clamped to it — trailing elements are silently dropped,
    /// never wrapped.
    pub fn set(&mut self, host: &mut Host, values: &[i32])
        requires
            old(host).wf(),
            old(self).valid(*old(host)),
            old(host)@[old(self).id].writable,
        ensures
            *final(self) == *old(self),
            final(host).wf(),
            final(host).ids_used() == old(host).ids_used(),
            final(host)@ == old(host)@.insert(
                old(self).id,
                (SlotModel {
                    value: SlotValueModel::IntArray(
                        spec_write(
                            old(host)@[old(self).id].value->IntArray_0,
                            values@,
                            0,
                            spec_array_size(values@.len() as int),
                        ),
                    ),
                    ..old(host)@[old(self).id]
                }),
            ),
    {
        proof {
            lemma_wf_slot(*host, self.id);
            lemma_wire_bit_overlap(host@[self.id].type_id, TYPE_INT_ARRAY);
        }
        let size = array_size(values.len());
        let accepted = host.write_ints(self.id, values, 0, size as usize);
        proof {
            assert(accepted);
        }
    }
}

impl<A> DataRef<Vec<FloatBits>, A> {
    /// Reads values into the provided buffer, starting at the slot's
    /// first element, and returns how many were read.
    ///
    /// If the dataref holds more values than the buffer, values beyond
    /// the buffer's length are ignored; if it holds fewer, the buffer's
    /// tail is not modified. A single operation reads at most the wire
    /// bound of elements.
    pub fn get(&self, host: &Host, dest: &mut Vec<FloatBits>) -> (count: usize)
        requires
            host.wf(),
            self.valid(*host),
        ensures
            host@[self.id].value is FloatArray,
            final(dest)@.len() == old(dest)@.len(),
            count == spec_read_count(
                array_len(host@[self.id].value),
                old(dest)@.len() as int,
                0,
                spec_array_size(old(dest)@.len() as int),
            ),
            forall|k: int| 0 <= k < count ==> final(dest)@[k] == host@[self.id].value->FloatArray_0[k],
            forall|k: int| count <= k < old(dest)@.len() ==> final(dest)@[k] == old(dest)@[k],
    {
        proof {
            lemma_wf_slot(*host, self.id);
            lemma_wire_bit_overlap(host@[self.id].type_id, TYPE_FLOAT_ARRAY);
        }
        let size = array_size(dest.len());
        match host.read_floats(self.id, dest, 0, size as usize) {
            Some(n) => n,
            None => unreached(),
        }
    }

    /// Returns the length of the data array: the first phase of the
    /// two-phase protocol, a read with a null destination
    pub fn len(&self, host: &Host) -> (n: usize)
        requires
            host.wf(),
            self.valid(*host),
        ensures
            host@[self.id].value is FloatArray,
            n == array_len(host@[self.id].value),
    {
        proof {
            lemma_wf_slot(*host, self.id);
            lemma_wire_bit_overlap(host@[self.id].type_id, TYPE_FLOAT_ARRAY);
        }
        match host.query_len(self.id) {
            Some(n) => n,
            None => unreached(),
        }
    }

    /// Returns all values in this accessor as a Vec.
    ///
    /// The length is queried first, then the elements are read: between
    /// the two calls a host-owned slot may resize, which callers accept
    /// as best-effort. Elements past the wire bound cannot be read and
    /// are returned as zero.
    pub fn as_vec(&self, host: &Host) -> (values: Vec<FloatBits>)
        requires
            host.wf(),
            self.valid(*host),
        ensures
            host@[self.id].value is FloatArray,
            values@.len() == array_len(host@[self.id].value),
            forall|k: int|
                0 <= k < spec_array_size(values@.len() as int) ==> values@[k]
                    == host@[self.id].value->FloatArray_0[k],
            forall|k: int|
                spec_array_size(values@.len() as int) <= k < values@.len() ==> values@[k] == (FloatBits { bits: 0 }),
    {
        let n = self.len(host);
        let mut values: Vec<FloatBits> = Vec::new();
        let mut i: usize = 0;
        while i < n
            invariant
                0 <= i <= n,
                values@.len() == i,
                forall|k: int| 0 <= k < i ==> values@[k] == (FloatBits { bits: 0 }),
            decreases n - i,
        {
            values.push((FloatBits { bits: 0 }));
            i += 1;
        }
        let count = self.get(host, &mut values);
        values
    }
}

impl DataRef<Vec<FloatBits>, ReadWrite> {
    /// Writes values to this dataref, starting at its first element.
    ///
    /// If the dataref holds more values than the slice, values beyond the
    /// slice's length are not changed; if it holds fewer, the extra
    /// values in the slice are ignored. A slice longer than the wire
    /// bound is clamped to it — trailing elements are silently dropped,
    /// never wrapped.
    pub fn set(&mut self, host: &mut Host, values: &[FloatBits])
        requires
            old(host).wf(),
            old(self).valid(*old(host)),
            old(host)@[old(self).id].writable,
        ensures
            *final(self) == *old(self),
            final(host).wf(),
            final(host).ids_used() == old(host).ids_used(),
            final(host)@ == old(host)@.insert(
                old(self).id,
                (SlotModel {
                    value: SlotValueModel::FloatArray(
                        spec_write(
                            old(host)@[old(self).id].value->FloatArray_0,
                            values@,
                            0,
                            spec_array_size(values@.len() as int),
                        ),
                    ),
                    ..old(host)@[old(self).id]
                }),
            ),
    {
        proof {
            lemma_wf_slot(*host, self.id);
            lemma_wire_bit_overlap(host@[self.id].type_id, TYPE_FLOAT_ARRAY);
        }
        let size = array_size(values.len());
        let accepted = host.write_floats(self.id, values, 0, size as usize);
        proof {
            assert(accepted);
        }
    }
}

impl<A> DataRef<Vec<u8>, A> {
    /// Reads values into the provided buffer, starting at the slot's
    /// first element, and returns how many were read.
    ///
    /// If the dataref holds more values than the buffer, values beyond
    /// the buffer's length are ignored; if it holds fewer, the buffer's
    /// tail is not modified. A single operation reads at most the wire
    /// bound of elements.
    pub fn get(&self, host: &Host, dest: &mut Vec<u8>) -> (count: usize)
        requires
            host.wf(),
            self.valid(*host),
        ensures
            host@[self.id].value is Data,
            final(dest)@.len() == old(dest)@.len(),
            count == spec_read_count(
                array_len(host@[self.id].value),
                old(dest)@.len() as int,
                0,
                spec_array_size(old(dest)@.len() as int),
            ),
            forall|k: int| 0 <= k < count ==> final(dest)@[k] == host@[self.id].value->Data_0[k],
            forall|k: int| count <= k < old(dest)@.len() ==> final(dest)@[k] == old(dest)@[k],
    {
        proof {
            lemma_wf_slot(*host, self.id);
            lemma_wire_bit_overlap(host@[self.id].type_id, TYPE_DATA);
        }
        let size = array_size(dest.len());
        match host.read_bytes(self.id, dest, 0, size as usize) {
            Some(n) => n,
            None => unreached(),
        }
    }

    /// Returns the length of the data array: the first phase of the
    /// two-phase protocol, a read with a null destination
    pub fn len(&self, host: &Host) -> (n: usize)
        requires
            host.wf(),
            self.valid(*host),
        ensures
            host@[self.id].value is Data,
            n == array_len(host@[self.id].value),
    {
        proof {
            lemma_wf_slot(*host, self.id);
            lemma_wire_bit_overlap(host@[self.id].type_id, TYPE_DATA);
        }
        match host.query_len(self.id) {
            Some(n) => n,
            None => unreached(),
        }
    }

    /// Returns all values in this accessor as a Vec.
    ///
    /// The length is queried first, then the elements are read: between
    /// the two calls a host-owned slot may resize, which callers accept
    /// as best-effort. Elements past the wire bound cannot be read and
    /// are returned as zero.
    pub fn as_vec(&self, host: &Host) -> (values: Vec<u8>)
        requires
            host.wf(),
            self.valid(*host),
        ensures
            host@[self.id].value is Data,
            values@.len() == array_len(host@[self.id].value),
            forall|k: int|
                0 <= k < spec_array_size(values@.len() as int) ==> values@[k]
                    == host@[self.id].value->Data_0[k],
            forall|k: int|
                spec_array_size(values@.len() as int) <= k < values@.len() ==> values@[k] == 0u8,
    {
        let n = self.len(host);
        let mut values: Vec<u8> = Vec::new();
        let mut i: usize = 0;
        while i < n
            invariant
                0 <= i <= n,
                values@.len() == i,
                forall|k: int| 0 <= k < i ==> values@[k] == 0u8,
            decreases n - i,
        {
            values.push(0u8);
            i += 1;
        }
        let count = self.get(host, &mut values);
        values
    }
}

impl DataRef<Vec<u8>, ReadWrite> {
    /// Writes values to this dataref, starting at its first element.
    ///
    /// If the dataref holds more values than the slice, values beyond the
    /// slice's length are not changed; if it holds fewer, the extra
    /// values in the slice are ignored. A slice longer than the wire
    /// bound is clamped to it — trailing elements are silently dropped,
    /// never wrapped.
    pub fn set(&mut self, host: &mut Host, values: &[u8])
        requires
            old(host).wf(),
            old(self).valid(*old(host)),
            old(host)@[old(self).id].writable,
        ensures
            *final(self) == *old(self),
            final(host).wf(),
            final(host).ids_used() == old(host).ids_used(),
            final(host)@ == old(host)@.insert(
                old(self).id,
                (SlotModel {
                    value: SlotValueModel::Data(
                        spec_write(
                            old(host)@[old(self).id].value->Data_0,
                            values@,
                            0,
                            spec_array_size(values@.len() as int),
                        ),
                    ),
                    ..old(host)@[old(self).id]
                }),
            ),
    {
        proof {
            lemma_wf_slot(*host, self.id);
            lemma_wire_bit_overlap(host@[self.id].type_id, TYPE_DATA);
        }
        let size = array_size(values.len());
        let accepted = host.write_bytes(self.id, values, 0, size as usize);
        proof {
            assert(accepted);
        }
    }
}

impl<A> DataRef<Vec<u8>, A> {
    /// Reads this byte dataref as text.
    ///
    /// The bytes are fetched with the two-phase protocol, trimmed at the
    /// first null byte, and decoded. An error is returned if they are not
    /// valid UTF-8. Bytes past the wire bound cannot be fetched and read
    /// as null.
    pub fn get_as_string(&self, host: &Host) -> (r: Result<String, EncodingError>)
        requires
            host.wf(),
            self.valid(*host),
        ensures
            host@[self.id].value is Data,
            ({
                let data = host@[self.id].value->Data_0;
                let filled = Seq::new(
                    data.len(),
                    |i: int|
                        if i < spec_array_size(data.len() as int) {
                            data[i]
                        } else {
                            0u8
                        },
                );
                match r {
                    Ok(s) => valid_utf8(filled.take(first_null(filled))) && s@ == decode_utf8(
                        filled.take(first_null(filled)),
                    ),
                    Err(_) => !valid_utf8(filled.take(first_null(filled))),
                }
            }),
    {
        let len = self.len(host);
        let mut buffer = StringBuffer::new(len);
        let count = self.get(host, buffer.as_bytes_mut());
        proof {
            let data = host@[self.id].value->Data_0;
            assert(buffer@ =~= Seq::new(
                data.len(),
                |i: int|
                    if i < spec_array_size(data.len() as int) {
                        data[i]
                    } else {
                        0u8
                    },
            ));
        }
        buffer.into_string()
    }
}

impl DataRef<Vec<u8>, ReadWrite> {
    /// Sets the value of this dataref from a string.
    ///
    /// The text's bytes and a trailing null terminator are written from
    /// offset 0, with the usual host-side clamp. Returns an error if the
    /// string contains a null byte.
    pub fn set_as_string(&mut self, host: &mut Host, value: &str) -> (r: Result<(), NulByteError>)
        requires
            old(host).wf(),
            old(self).valid(*old(host)),
            old(host)@[old(self).id].writable,
        ensures
            *final(self) == *old(self),
            final(host).wf(),
            final(host).ids_used() == old(host).ids_used(),
            match r {
                Ok(_) => name_ok(value.spec_bytes()) && final(host)@ == old(host)@.insert(
                    old(self).id,
                    (SlotModel {
                        value: SlotValueModel::Data(
                            spec_write(
                                old(host)@[old(self).id].value->Data_0,
                                value.spec_bytes().push(0),
                                0,
                                spec_array_size(value.spec_bytes().len() as int + 1),
                            ),
                        ),
                        ..old(host)@[old(self).id]
                    }),
                ),
                Err(_) => !name_ok(value.spec_bytes()) && final(host)@ == old(host)@,
            },
    {
        let bytes = value.as_bytes();
        if !valid_name(bytes) {
            return Err(NulByteError);
        }
        let mut v = slice_to_vec(bytes);
        v.push(0);
        self.set(host, v.as_slice());
        Ok(())
    }
}

} // verus!
