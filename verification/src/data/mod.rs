//! Typed access to named data slots ("datarefs").
//!
//! A dataref is a named location in the host's state space holding a single
//! typed value or array. A plugin can discover datarefs published by the
//! host or by other plugins ([`borrowed`]), or create its own and serve
//! host-initiated reads and writes of them ([`owned`]).

use vstd::prelude::*;

/// Datarefs created by the host or other plugins
pub mod borrowed;
/// The host's dataref table and accessor dispatch
pub mod host;
/// Datarefs created by this plugin
pub mod owned;

verus! {

/// Wire type bit for 32-bit signed integers
pub const TYPE_INT: i32 = 1;
/// Wire type bit for 32-bit floats
pub const TYPE_FLOAT: i32 = 2;
/// Wire type bit for 64-bit floats
pub const TYPE_DOUBLE: i32 = 4;
/// Wire type bit for arrays of 32-bit floats
pub const TYPE_FLOAT_ARRAY: i32 = 8;
/// Wire type bit for arrays of 32-bit integers
pub const TYPE_INT_ARRAY: i32 = 16;
/// Wire type bit for byte blobs (also used for text)
pub const TYPE_DATA: i32 = 32;

/// True for the six single wire type bits
pub open spec fn is_wire_bit(b: i32) -> bool {
    b == TYPE_INT || b == TYPE_FLOAT || b == TYPE_DOUBLE || b == TYPE_FLOAT_ARRAY
        || b == TYPE_INT_ARRAY || b == TYPE_DATA
}

/// The bit pattern of a 32-bit float wire value.
///
/// The verified core never computes with floating-point values; it stores
/// and moves their bit patterns, which the unverified plugin shell converts
/// at the host boundary.
#[derive(Debug, Clone, Copy, PartialEq, Eq, Structural)]
pub struct FloatBits {
    /// The raw bits of the 32-bit float
    pub bits: u32,
}

/// The bit pattern of a 64-bit float wire value
#[derive(Debug, Clone, Copy, PartialEq, Eq, Structural)]
pub struct DoubleBits {
    /// The raw bits of the 64-bit float
    pub bits: u64,
}

/// A wire value held by a data slot: one scalar or one array
#[derive(Debug)]
pub enum SlotValue {
    /// A 32-bit signed integer
    Int(i32),
    /// A 32-bit float, as bits
    Float(FloatBits),
    /// A 64-bit float, as bits
    Double(DoubleBits),
    /// An array of 32-bit signed integers
    IntArray(Vec<i32>),
    /// An array of 32-bit floats, as bits
    FloatArray(Vec<FloatBits>),
    /// A byte blob
    Data(Vec<u8>),
}

/// The mathematical model of a [`SlotValue`]
pub enum SlotValueModel {
    /// A 32-bit signed integer
    Int(i32),
    /// A 32-bit float, as bits
    Float(FloatBits),
    /// A 64-bit float, as bits
    Double(DoubleBits),
    /// An array of 32-bit signed integers
    IntArray(Seq<i32>),
    /// An array of 32-bit floats, as bits
    FloatArray(Seq<FloatBits>),
    /// A byte blob
    Data(Seq<u8>),
}

impl View for SlotValue {
    type V = SlotValueModel;

    open spec fn view(&self) -> SlotValueModel {
        match self {
            SlotValue::Int(i) => SlotValueModel::Int(*i),
            SlotValue::Float(f) => SlotValueModel::Float(*f),
            SlotValue::Double(d) => SlotValueModel::Double(*d),
            SlotValue::IntArray(v) => SlotValueModel::IntArray(v@),
            SlotValue::FloatArray(v) => SlotValueModel::FloatArray(v@),
            SlotValue::Data(v) => SlotValueModel::Data(v@),
        }
    }
}

/// The single wire type bit describing a slot value's representation
pub open spec fn wire_bit(v: SlotValueModel) -> i32 {
    match v {
        SlotValueModel::Int(_) => TYPE_INT,
        SlotValueModel::Float(_) => TYPE_FLOAT,
        SlotValueModel::Double(_) => TYPE_DOUBLE,
        SlotValueModel::IntArray(_) => TYPE_INT_ARRAY,
        SlotValueModel::FloatArray(_) => TYPE_FLOAT_ARRAY,
        SlotValueModel::Data(_) => TYPE_DATA,
    }
}

/// Two distinct single wire type bits never overlap, so a nonzero overlap
/// of single bits means equality.
pub proof fn lemma_wire_bit_overlap(a: i32, b: i32)
    requires
        is_wire_bit(a),
        is_wire_bit(b),
        a & b != 0,
    ensures
        a == b,
{
    assert((a == 1 || a == 2 || a == 4 || a == 8 || a == 16 || a == 32) && (b == 1 || b == 2
        || b == 4 || b == 8 || b == 16 || b == 32) && a & b != 0 ==> a == b) by (bit_vector);
}

/// A dataref name that the host can accept: no embedded terminator byte
pub open spec fn name_ok(bytes: Seq<u8>) -> bool {
    forall|i: int| 0 <= i < bytes.len() ==> bytes[i] != 0
}

/// Checks that a name contains no embedded terminator byte
pub fn valid_name(name: &[u8]) -> (r: bool)
    ensures
        r == name_ok(name@),
{
    let mut i: usize = 0;
    while i < name.len()
        invariant
            0 <= i <= name@.len(),
            forall|j: int| 0 <= j < i ==> name@[j] != 0,
        decreases name@.len() - i,
    {
        if name[i] == 0 {
            return false;
        }
        i += 1;
    }
    true
}

/// The supplied text contained an embedded null byte
#[derive(Debug, Clone, Copy, PartialEq, Eq, Structural)]
pub struct NulByteError;

/// Marks a dataref as readable
pub struct ReadOnly;

/// Marks a dataref as writeable
pub struct ReadWrite;

/// Marker for data access types
pub trait Access {
    /// True if this access allows the dataref to be written
    spec fn spec_writeable() -> bool;

    /// Returns true if this access allows the dataref to be written
    fn writeable() -> (r: bool)
        ensures
            r == Self::spec_writeable(),
    ;
}

impl Access for ReadOnly {
    open spec fn spec_writeable() -> bool {
        false
    }

    fn writeable() -> bool {
        false
    }
}

impl Access for ReadWrite {
    open spec fn spec_writeable() -> bool {
        true
    }

    fn writeable() -> bool {
        true
    }
}

/// Marker for types that can be stored in datarefs
pub trait DataType: Sized {
    /// The wire type bit of this type
    spec fn wire_type() -> i32;

    /// Returns the host data type bit corresponding with this type
    fn sim_type() -> (r: i32)
        ensures
            r == Self::wire_type(),
    ;

    /// This type's wire type is a single wire type bit
    proof fn lemma_wire_single()
        ensures
            is_wire_bit(Self::wire_type()),
    ;
}

/// Marker for scalar dataref types, with their wire conversions
pub trait ScalarType: DataType + Copy {
    /// The wire value this value is stored as
    spec fn to_slot_spec(self) -> SlotValueModel;

    /// The value read back from a wire value
    spec fn from_slot_spec(v: SlotValueModel) -> Self;

    /// The default value used when a slot is created without one
    spec fn spec_default() -> Self;

    /// Converts this value to the wire value it is stored as
    fn to_slot(&self) -> (r: SlotValue)
        ensures
            r@ == self.to_slot_spec(),
    ;

    /// Reads a value of this type back from a wire value
    fn from_slot(v: &SlotValue) -> (r: Self)
        ensures
            r == Self::from_slot_spec(v@),
    ;

    /// Returns the default value used when a slot is created without one
    fn default_value() -> (r: Self)
        ensures
            r == Self::spec_default(),
    ;

    /// Storing a value and reading it back yields the value unchanged
    proof fn lemma_round_trip(v: Self)
        ensures
            Self::from_slot_spec(v.to_slot_spec()) == v,
    ;

    /// A stored value's wire representation carries this type's wire bit
    proof fn lemma_wire(v: Self)
        ensures
            wire_bit(v.to_slot_spec()) == Self::wire_type(),
    ;

    /// This type's wire type is one of the three scalar bits
    proof fn lemma_scalar_wire()
        ensures
            Self::wire_type() == TYPE_INT || Self::wire_type() == TYPE_FLOAT
                || Self::wire_type() == TYPE_DOUBLE,
    ;
}

/// Marker for types that are arrays
pub trait ArrayType: DataType {
    /// The type of the array element
    type Element;
}

impl DataType for i32 {
    open spec fn wire_type() -> i32 {
        TYPE_INT
    }

    fn sim_type() -> i32 {
        TYPE_INT
    }

    proof fn lemma_wire_single() {
    }
}

impl ScalarType for i32 {
    open spec fn to_slot_spec(self) -> SlotValueModel {
        SlotValueModel::Int(self)
    }

    open spec fn from_slot_spec(v: SlotValueModel) -> i32 {
        match v {
            SlotValueModel::Int(i) => i,
            _ => 0,
        }
    }

    open spec fn spec_default() -> i32 {
        0
    }

    fn to_slot(&self) -> SlotValue {
        SlotValue::Int(*self)
    }

    fn from_slot(v: &SlotValue) -> i32 {
        match v {
            SlotValue::Int(i) => *i,
            _ => 0,
        }
    }

    fn default_value() -> i32 {
        0
    }

    proof fn lemma_round_trip(v: i32) {
    }

    proof fn lemma_wire(v: i32) {
    }

    proof fn lemma_scalar_wire() {
    }
}

impl DataType for bool {
    open spec fn wire_type() -> i32 {
        TYPE_INT
    }

    fn sim_type() -> i32 {
        TYPE_INT
    }

    proof fn lemma_wire_single() {
    }
}

impl ScalarType for bool {
    open spec fn to_slot_spec(self) -> SlotValueModel {
        SlotValueModel::Int(if self { 1 } else { 0 })
    }

    open spec fn from_slot_spec(v: SlotValueModel) -> bool {
        match v {
            SlotValueModel::Int(i) => i != 0,
            _ => false,
        }
    }

    open spec fn spec_default() -> bool {
        false
    }

    fn to_slot(&self) -> SlotValue {
        SlotValue::Int(if *self { 1 } else { 0 })
    }

    fn from_slot(v: &SlotValue) -> bool {
        match v {
            SlotValue::Int(i) => *i != 0,
            _ => false,
        }
    }

    fn default_value() -> bool {
        false
    }

    proof fn lemma_round_trip(v: bool) {
    }

    proof fn lemma_wire(v: bool) {
    }

    proof fn lemma_scalar_wire() {
    }
}

impl DataType for u8 {
    open spec fn wire_type() -> i32 {
        TYPE_INT
    }

    fn sim_type() -> i32 {
        TYPE_INT
    }

    proof fn lemma_wire_single() {
    }
}

impl ScalarType for u8 {
    open spec fn to_slot_spec(self) -> SlotValueModel {
        SlotValueModel::Int(self as i32)
    }

    open spec fn from_slot_spec(v: SlotValueModel) -> u8 {
        match v {
            SlotValueModel::Int(i) => (i & 0xff) as u8,
            _ => 0,
        }
    }

    open spec fn spec_default() -> u8 {
        0
    }

    fn to_slot(&self) -> SlotValue {
        SlotValue::Int(*self as i32)
    }

    fn from_slot(v: &SlotValue) -> u8 {
        match v {
            SlotValue::Int(i) => {
                let low: i32 = *i & 0xff;
                proof {
                    assert(0 <= low < 256) by (bit_vector)
                        requires
                            low == *i & 0xff,
                    ;
                }
                low as u8
            },
            _ => 0,
        }
    }

    fn default_value() -> u8 {
        0
    }

    proof fn lemma_round_trip(v: u8) {
        assert((v as i32) & 0xff == v as i32) by (bit_vector);
    }

    proof fn lemma_wire(v: u8) {
    }

    proof fn lemma_scalar_wire() {
    }
}

impl DataType for i8 {
    open spec fn wire_type() -> i32 {
        TYPE_INT
    }

    fn sim_type() -> i32 {
        TYPE_INT
    }

    proof fn lemma_wire_single() {
    }
}

impl ScalarType for i8 {
    open spec fn to_slot_spec(self) -> SlotValueModel {
        SlotValueModel::Int(self as i32)
    }

    open spec fn from_slot_spec(v: SlotValueModel) -> i8 {
        match v {
            SlotValueModel::Int(i) => if (i & 0xff) >= 128 {
                ((i & 0xff) - 256) as i8
            } else {
                (i & 0xff) as i8
            },
            _ => 0,
        }
    }

    open spec fn spec_default() -> i8 {
        0
    }

    fn to_slot(&self) -> SlotValue {
        SlotValue::Int(*self as i32)
    }

    fn from_slot(v: &SlotValue) -> i8 {
        match v {
            SlotValue::Int(i) => {
                let low: i32 = *i & 0xff;
                proof {
                    assert(0 <= low < 256) by (bit_vector)
                        requires
                            low == *i & 0xff,
                    ;
                }
                if low >= 128 {
                    (low - 256) as i8
                } else {
                    low as i8
                }
            },
            _ => 0,
        }
    }

    fn default_value() -> i8 {
        0
    }

    proof fn lemma_round_trip(v: i8) {
        let i: i32 = v as i32;
        assert(((i & 0xff) >= 128 ==> (i & 0xff) - 256 == i) && ((i & 0xff) < 128 ==> (i & 0xff)
            == i)) by (bit_vector)
            requires
                i == v as i32,
        ;
    }

    proof fn lemma_wire(v: i8) {
    }

    proof fn lemma_scalar_wire() {
    }
}

impl DataType for i16 {
    open spec fn wire_type() -> i32 {
        TYPE_INT
    }

    fn sim_type() -> i32 {
        TYPE_INT
    }

    proof fn lemma_wire_single() {
    }
}

impl ScalarType for i16 {
    open spec fn to_slot_spec(self) -> SlotValueModel {
        SlotValueModel::Int(self as i32)
    }

    open spec fn from_slot_spec(v: SlotValueModel) -> i16 {
        match v {
            SlotValueModel::Int(i) => if (i & 0xffff) >= 32768 {
                ((i & 0xffff) - 65536) as i16
            } else {
                (i & 0xffff) as i16
            },
            _ => 0,
        }
    }

    open spec fn spec_default() -> i16 {
        0
    }

    fn to_slot(&self) -> SlotValue {
        SlotValue::Int(*self as i32)
    }

    fn from_slot(v: &SlotValue) -> i16 {
        match v {
            SlotValue::Int(i) => {
                let low: i32 = *i & 0xffff;
                proof {
                    assert(0 <= low < 65536) by (bit_vector)
                        requires
                            low == *i & 0xffff,
                    ;
                }
                if low >= 32768 {
                    (low - 65536) as i16
                } else {
                    low as i16
                }
            },
            _ => 0,
        }
    }

    fn default_value() -> i16 {
        0
    }

    proof fn lemma_round_trip(v: i16) {
        let i: i32 = v as i32;
        assert(((i & 0xffff) >= 32768 ==> (i & 0xffff) - 65536 == i) && ((i & 0xffff) < 32768 ==> (
        i & 0xffff) == i)) by (bit_vector)
            requires
                i == v as i32,
        ;
    }

    proof fn lemma_wire(v: i16) {
    }

    proof fn lemma_scalar_wire() {
    }
}

impl DataType for u16 {
    open spec fn wire_type() -> i32 {
        TYPE_INT
    }

    fn sim_type() -> i32 {
        TYPE_INT
    }

    proof fn lemma_wire_single() {
    }
}

impl ScalarType for u16 {
    open spec fn to_slot_spec(self) -> SlotValueModel {
        SlotValueModel::Int(self as i32)
    }

    open spec fn from_slot_spec(v: SlotValueModel) -> u16 {
        match v {
            SlotValueModel::Int(i) => (i & 0xffff) as u16,
            _ => 0,
        }
    }

    open spec fn spec_default() -> u16 {
        0
    }

    fn to_slot(&self) -> SlotValue {
        SlotValue::Int(*self as i32)
    }

    fn from_slot(v: &SlotValue) -> u16 {
        match v {
            SlotValue::Int(i) => {
                let low: i32 = *i & 0xffff;
                proof {
                    assert(0 <= low < 65536) by (bit_vector)
                        requires
                            low == *i & 0xffff,
                    ;
                }
                low as u16
            },
            _ => 0,
        }
    }

    fn default_value() -> u16 {
        0
    }

    proof fn lemma_round_trip(v: u16) {
        assert((v as i32) & 0xffff == v as i32) by (bit_vector);
    }

    proof fn lemma_wire(v: u16) {
    }

    proof fn lemma_scalar_wire() {
    }
}

impl DataType for u32 {
    open spec fn wire_type() -> i32 {
        TYPE_INT
    }

    fn sim_type() -> i32 {
        TYPE_INT
    }

    proof fn lemma_wire_single() {
    }
}

impl ScalarType for u32 {
    open spec fn to_slot_spec(self) -> SlotValueModel {
        SlotValueModel::Int(
            if self <= 0x7fff_ffff {
                self as i32
            } else {
                ((self as i64) - 0x1_0000_0000i64) as i32
            },
        )
    }

    open spec fn from_slot_spec(v: SlotValueModel) -> u32 {
        match v {
            SlotValueModel::Int(i) => if i >= 0 {
                i as u32
            } else {
                ((i as i64) + 0x1_0000_0000i64) as u32
            },
            _ => 0,
        }
    }

    open spec fn spec_default() -> u32 {
        0
    }

    fn to_slot(&self) -> SlotValue {
        SlotValue::Int(
            if *self <= 0x7fff_ffff {
                *self as i32
            } else {
                ((*self as i64) - 0x1_0000_0000i64) as i32
            },
        )
    }

    fn from_slot(v: &SlotValue) -> u32 {
        match v {
            SlotValue::Int(i) => {
                if *i >= 0 {
                    *i as u32
                } else {
                    ((*i as i64) + 0x1_0000_0000i64) as u32
                }
            },
            _ => 0,
        }
    }

    fn default_value() -> u32 {
        0
    }

    proof fn lemma_round_trip(v: u32) {
    }

    proof fn lemma_wire(v: u32) {
    }

    proof fn lemma_scalar_wire() {
    }
}

impl DataType for FloatBits {
    open spec fn wire_type() -> i32 {
        TYPE_FLOAT
    }

    fn sim_type() -> i32 {
        TYPE_FLOAT
    }

    proof fn lemma_wire_single() {
    }
}

impl ScalarType for FloatBits {
    open spec fn to_slot_spec(self) -> SlotValueModel {
        SlotValueModel::Float(self)
    }

    open spec fn from_slot_spec(v: SlotValueModel) -> FloatBits {
        match v {
            SlotValueModel::Float(f) => f,
            _ => FloatBits { bits: 0 },
        }
    }

    open spec fn spec_default() -> FloatBits {
        FloatBits { bits: 0 }
    }

    fn to_slot(&self) -> SlotValue {
        SlotValue::Float(*self)
    }

    fn from_slot(v: &SlotValue) -> FloatBits {
        match v {
            SlotValue::Float(f) => *f,
            _ => FloatBits { bits: 0 },
        }
    }

    fn default_value() -> FloatBits {
        FloatBits { bits: 0 }
    }

    proof fn lemma_round_trip(v: FloatBits) {
    }

    proof fn lemma_wire(v: FloatBits) {
    }

    proof fn lemma_scalar_wire() {
    }
}

impl DataType for DoubleBits {
    open spec fn wire_type() -> i32 {
        TYPE_DOUBLE
    }

    fn sim_type() -> i32 {
        TYPE_DOUBLE
    }

    proof fn lemma_wire_single() {
    }
}

impl ScalarType for DoubleBits {
    open spec fn to_slot_spec(self) -> SlotValueModel {
        SlotValueModel::Double(self)
    }

    open spec fn from_slot_spec(v: SlotValueModel) -> DoubleBits {
        match v {
            SlotValueModel::Double(d) => d,
            _ => DoubleBits { bits: 0 },
        }
    }

    open spec fn spec_default() -> DoubleBits {
        DoubleBits { bits: 0 }
    }

    fn to_slot(&self) -> SlotValue {
        SlotValue::Double(*self)
    }

    fn from_slot(v: &SlotValue) -> DoubleBits {
        match v {
            SlotValue::Double(d) => *d,
            _ => DoubleBits { bits: 0 },
        }
    }

    fn default_value() -> DoubleBits {
        DoubleBits { bits: 0 }
    }

    proof fn lemma_round_trip(v: DoubleBits) {
    }

    proof fn lemma_wire(v: DoubleBits) {
    }

    proof fn lemma_scalar_wire() {
    }
}

impl DataType for Vec<i32> {
    open spec fn wire_type() -> i32 {
        TYPE_INT_ARRAY
    }

    fn sim_type() -> i32 {
        TYPE_INT_ARRAY
    }

    proof fn lemma_wire_single() {
    }
}

impl ArrayType for Vec<i32> {
    type Element = i32;
}

impl DataType for Vec<FloatBits> {
    open spec fn wire_type() -> i32 {
        TYPE_FLOAT_ARRAY
    }

    fn sim_type() -> i32 {
        TYPE_FLOAT_ARRAY
    }

    proof fn lemma_wire_single() {
    }
}

impl ArrayType for Vec<FloatBits> {
    type Element = FloatBits;
}

impl DataType for Vec<u8> {
    open spec fn wire_type() -> i32 {
        TYPE_DATA
    }

    fn sim_type() -> i32 {
        TYPE_DATA
    }

    proof fn lemma_wire_single() {
    }
}

impl ArrayType for Vec<u8> {
    type Element = u8;
}

} // verus!
