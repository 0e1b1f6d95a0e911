//! Tests for the dataref core: discovery, creation, typed access, and the
//! host's accessor dispatch.

use xplm::data::borrowed::{array_size, DataRef, FindError};
use xplm::data::host::Host;
use xplm::data::owned::{array_read, array_write, CreateError, OwnedData};
use xplm::data::{valid_name, DoubleBits, FloatBits, ReadOnly, ReadWrite, SlotValue};

#[test]
fn find_rejects_name_with_null_byte() {
    let host = Host::new();
    let r = DataRef::<i32, ReadOnly>::find(&host, "bad\0name");
    assert_eq!(r.err(), Some(FindError::Null));
}

#[test]
fn create_rejects_name_with_null_byte() {
    let mut host = Host::new();
    let r = OwnedData::<i32, ReadWrite>::create_with_value(&mut host, "bad\0name", &3);
    assert_eq!(r.err(), Some(CreateError::Null));
}

#[test]
fn valid_name_accepts_plain_names() {
    assert!(valid_name(b"sim/flightmodel/position/elevation"));
    assert!(valid_name(b""));
    assert!(!valid_name(b"a\0b"));
    assert!(!valid_name(b"\0"));
}

#[test]
fn find_reports_missing_slot() {
    let host = Host::new();
    let r = DataRef::<i32, ReadOnly>::find(&host, "missing/slot");
    assert_eq!(r.err(), Some(FindError::NotFound));
}

#[test]
fn find_reports_wrong_type() {
    let mut host = Host::new();
    OwnedData::<i32, ReadWrite>::create_with_value(&mut host, "an/int", &4).unwrap();
    let r = DataRef::<DoubleBits, ReadOnly>::find(&host, "an/int");
    assert_eq!(r.err(), Some(FindError::WrongType));
}

#[test]
fn create_refuses_existing_name() {
    let mut host = Host::new();
    OwnedData::<i32, ReadWrite>::create_with_value(&mut host, "taken", &1).unwrap();
    let r = OwnedData::<i32, ReadWrite>::create_with_value(&mut host, "taken", &2);
    assert_eq!(r.err(), Some(CreateError::Exists));
}

#[test]
fn create_then_find_round_trip() {
    let mut host = Host::new();
    let mut owned =
        OwnedData::<i32, ReadWrite>::create_with_value(&mut host, "round/trip", &41).unwrap();
    let found = DataRef::<i32, ReadOnly>::find(&host, "round/trip").unwrap();
    assert_eq!(found.get(&host), 41);
    let mut writable = found.writeable(&host).unwrap();
    writable.set(&mut host, 42);
    assert_eq!(owned.get(&host), 42);
    owned.set(&mut host, 43);
    assert_eq!(writable.get(&host), 43);
}

#[test]
fn array_round_trip_through_both_handles() {
    let mut host = Host::new();
    let owned = OwnedData::<Vec<i32>, ReadWrite>::create_with_value(
        &mut host,
        "array/slot",
        &[10, 20, 30],
    )
    .unwrap();
    let found = DataRef::<Vec<i32>, ReadOnly>::find(&host, "array/slot").unwrap();
    assert_eq!(found.len(&host), 3);
    assert_eq!(found.as_vec(&host), vec![10, 20, 30]);
    let mut writable = found.writeable(&host).unwrap();
    writable.set(&mut host, &[11, 21, 31]);
    assert_eq!(owned.as_vec(&host), vec![11, 21, 31]);
}

#[test]
fn readonly_slot_refuses_writeable_upgrade_despite_matching_type() {
    let mut host = Host::new();
    OwnedData::<i32, ReadOnly>::create_with_value(&mut host, "fixed", &5).unwrap();
    let found = DataRef::<i32, ReadOnly>::find(&host, "fixed").unwrap();
    assert_eq!(found.get(&host), 5);
    let r = found.writeable(&host);
    assert_eq!(r.err(), Some(FindError::NotWritable));
}

#[test]
fn array_read_clamps_window() {
    let backing = vec![1, 2, 3, 4, 5];
    let mut dest = vec![0i32; 10];
    let count = array_read(&backing, &mut dest, 3, 10);
    assert_eq!(count, 2);
    assert_eq!(&dest[..2], &[4, 5]);
    assert_eq!(&dest[2..], &[0, 0, 0, 0, 0, 0, 0, 0]);
    let mut dest2 = vec![0i32; 5];
    let count2 = array_read(&backing, &mut dest2, 10, 5);
    assert_eq!(count2, 0);
    assert_eq!(dest2, vec![0, 0, 0, 0, 0]);
}

#[test]
fn array_write_clamps_window() {
    let mut backing = vec![1, 2, 3, 4, 5];
    let source = vec![9, 8, 7, 6];
    array_write(&mut backing, &source, 2, 10);
    assert_eq!(backing, vec![1, 2, 9, 8, 7]);
}

#[test]
fn dispatched_array_read_clamps_window() {
    let mut host = Host::new();
    let owned = OwnedData::<Vec<i32>, ReadWrite>::create_with_value(
        &mut host,
        "clamped",
        &[1, 2, 3, 4, 5],
    )
    .unwrap();
    let mut dest = vec![0i32; 10];
    assert_eq!(host.read_ints(owned.id, &mut dest, 3, 10), Some(2));
    assert_eq!(&dest[..2], &[4, 5]);
    let mut dest2 = vec![0i32; 5];
    assert_eq!(host.read_ints(owned.id, &mut dest2, 10, 5), Some(0));
    assert_eq!(dest2, vec![0, 0, 0, 0, 0]);
}

#[test]
fn dispatched_array_write_clamps_window() {
    let mut host = Host::new();
    let owned = OwnedData::<Vec<i32>, ReadWrite>::create_with_value(
        &mut host,
        "clamped/write",
        &[1, 2, 3, 4, 5],
    )
    .unwrap();
    assert!(host.write_ints(owned.id, &[9, 8, 7, 6], 2, 10));
    assert_eq!(owned.as_vec(&host), vec![1, 2, 9, 8, 7]);
}

#[test]
fn dispatched_write_respects_external_access() {
    let mut host = Host::new();
    let owned =
        OwnedData::<Vec<i32>, ReadOnly>::create_with_value(&mut host, "sealed", &[1, 2, 3])
            .unwrap();
    assert!(!host.write_ints(owned.id, &[9, 9, 9], 0, 3));
    assert_eq!(owned.as_vec(&host), vec![1, 2, 3]);
    assert!(!host.write_scalar(owned.id, SlotValue::Int(5)));
}

#[test]
fn length_query_returns_count_without_copy() {
    let mut host = Host::new();
    let owned = OwnedData::<Vec<u8>, ReadWrite>::create_with_value(
        &mut host,
        "some/bytes",
        &[7, 8, 9, 10],
    )
    .unwrap();
    // owned-slot side: the dispatcher's null-destination idiom
    assert_eq!(host.query_len(owned.id), Some(4));
    // discovered-handle side: the two-phase protocol's first call
    let found = DataRef::<Vec<u8>, ReadOnly>::find(&host, "some/bytes").unwrap();
    assert_eq!(found.len(&host), 4);
}

#[test]
fn late_dispatch_after_destroy_is_noop() {
    let mut host = Host::new();
    let owned =
        OwnedData::<Vec<i32>, ReadWrite>::create_with_value(&mut host, "doomed", &[1, 2, 3])
            .unwrap();
    let stale = owned.id;
    owned.destroy(&mut host);
    // a simulated late callback invocation against the stale reference
    let mut dest = vec![0i32; 3];
    assert_eq!(host.read_ints(stale, &mut dest, 0, 3), None);
    assert_eq!(dest, vec![0, 0, 0]);
    assert!(!host.write_ints(stale, &[9], 0, 1));
    assert!(host.read_scalar(stale).is_none());
    assert_eq!(host.query_len(stale), None);
}

#[test]
fn altitude_scenario() {
    let mut host = Host::new();
    let mut owned = OwnedData::<DoubleBits, ReadWrite>::create_with_value(
        &mut host,
        "test/altitude",
        &DoubleBits { bits: 1000.0f64.to_bits() },
    )
    .unwrap();
    let found = DataRef::<DoubleBits, ReadOnly>::find(&host, "test/altitude").unwrap();
    assert_eq!(f64::from_bits(found.get(&host).bits), 1000.0);
    owned.set(&mut host, DoubleBits { bits: 2500.5f64.to_bits() });
    assert_eq!(f64::from_bits(found.get(&host).bits), 2500.5);
    owned.destroy(&mut host);
    let again = DataRef::<DoubleBits, ReadOnly>::find(&host, "test/altitude");
    assert_eq!(again.err(), Some(FindError::NotFound));
}

#[test]
fn scalar_conversions_match_wire_behaviour() {
    let mut host = Host::new();
    // a u8 read back through an i32 handle shows the stored integer
    let owned = OwnedData::<u8, ReadWrite>::create_with_value(&mut host, "a/byte", &200).unwrap();
    assert_eq!(owned.get(&host), 200u8);
    let as_int = DataRef::<i32, ReadOnly>::find(&host, "a/byte").unwrap();
    assert_eq!(as_int.get(&host), 200i32);
    // an out-of-range integer written by the host truncates on read
    assert!(host.write_scalar(owned.id, SlotValue::Int(0x11223344)));
    assert_eq!(owned.get(&host), 0x44u8);
    // booleans store as 0 or 1
    let flag = OwnedData::<bool, ReadWrite>::create_with_value(&mut host, "a/flag", &true).unwrap();
    let flag_int = DataRef::<i32, ReadOnly>::find(&host, "a/flag").unwrap();
    assert_eq!(flag_int.get(&host), 1);
    assert!(flag.get(&host));
    // u32 values above the signed range survive the signed wire format
    let mut wide =
        OwnedData::<u32, ReadWrite>::create_with_value(&mut host, "wide", &0xdead_beef).unwrap();
    assert_eq!(wide.get(&host), 0xdead_beef);
    wide.set(&mut host, 7);
    assert_eq!(wide.get(&host), 7);
}

#[test]
fn float_bits_round_trip() {
    let mut host = Host::new();
    let owned = OwnedData::<FloatBits, ReadWrite>::create_with_value(
        &mut host,
        "a/float",
        &FloatBits { bits: 3.5f32.to_bits() },
    )
    .unwrap();
    assert_eq!(f32::from_bits(owned.get(&host).bits), 3.5);
    let floats = OwnedData::<Vec<FloatBits>, ReadWrite>::create_with_value(
        &mut host,
        "float/array",
        &[FloatBits { bits: 1.5f32.to_bits() }, FloatBits { bits: 2.5f32.to_bits() }],
    )
    .unwrap();
    let got = floats.as_vec(&host);
    assert_eq!(f32::from_bits(got[0].bits), 1.5);
    assert_eq!(f32::from_bits(got[1].bits), 2.5);
}

#[test]
fn owned_array_set_keeps_length() {
    let mut host = Host::new();
    let mut owned =
        OwnedData::<Vec<i32>, ReadWrite>::create_with_value(&mut host, "fixed/len", &[1, 2, 3])
            .unwrap();
    // longer source: extra elements dropped
    owned.set(&mut host, &[7, 8, 9, 10, 11]);
    assert_eq!(owned.as_vec(&host), vec![7, 8, 9]);
    // shorter source: the tail stays
    owned.set(&mut host, &[0]);
    assert_eq!(owned.as_vec(&host), vec![0, 8, 9]);
}

#[test]
fn owned_array_get_into_buffer() {
    let mut host = Host::new();
    let owned =
        OwnedData::<Vec<u8>, ReadWrite>::create_with_value(&mut host, "blob", &[5, 6, 7]).unwrap();
    let mut small = vec![0u8; 2];
    assert_eq!(owned.get(&host, &mut small), 2);
    assert_eq!(small, vec![5, 6]);
    let mut large = vec![0u8; 5];
    assert_eq!(owned.get(&host, &mut large), 3);
    assert_eq!(large, vec![5, 6, 7, 0, 0]);
}

#[test]
fn scalar_create_uses_default_value() {
    let mut host = Host::new();
    let owned = OwnedData::<i32, ReadWrite>::create(&mut host, "defaulted").unwrap();
    assert_eq!(owned.get(&host), 0);
    let arr = OwnedData::<Vec<i32>, ReadWrite>::create(&mut host, "defaulted/array").unwrap();
    assert_eq!(arr.len(&host), 0);
}

#[test]
fn array_size_clamps_lengths() {
    assert_eq!(array_size(0), 0);
    assert_eq!(array_size(100), 100);
    assert_eq!(array_size(0x7fff_ffff), 0x7fff_ffff);
    assert_eq!(array_size(0x8000_0000), 0x7fff_ffff);
    assert_eq!(array_size(usize::MAX), 0x7fff_ffff);
}

#[test]
fn text_dataref_round_trip() {
    let mut host = Host::new();
    let owned =
        OwnedData::<Vec<u8>, ReadWrite>::create_with_value(&mut host, "some/text", &[0u8; 32])
            .unwrap();
    let found = DataRef::<Vec<u8>, ReadOnly>::find(&host, "some/text").unwrap();
    let mut writable = found.writeable(&host).unwrap();
    writable.set_as_string(&mut host, "hello").unwrap();
    assert_eq!(owned.get_as_string(&host).unwrap(), "hello");
    assert_eq!(writable.get_as_string(&host).unwrap(), "hello");
    assert!(writable.set_as_string(&mut host, "em\0bedded").is_err());
    assert_eq!(owned.get_as_string(&host).unwrap(), "hello");
}

#[test]
fn owned_text_write_keeps_storage_length() {
    let mut host = Host::new();
    let mut owned =
        OwnedData::<Vec<u8>, ReadOnly>::create_with_value(&mut host, "own/text", &[b'x'; 4])
            .unwrap();
    owned.set_as_string(&mut host, "hi").unwrap();
    // "hi\0" overwrites the first three bytes; the fourth stays
    assert_eq!(owned.as_vec(&host), vec![b'h', b'i', 0, b'x']);
    assert_eq!(owned.get_as_string(&host).unwrap(), "hi");
    assert_eq!(owned.len(&host), 4);
}

#[test]
fn signed_small_scalars_round_trip() {
    let mut host = Host::new();
    let mut byte = OwnedData::<i8, ReadWrite>::create_with_value(&mut host, "an/i8", &-5).unwrap();
    assert_eq!(byte.get(&host), -5i8);
    byte.set(&mut host, 100);
    assert_eq!(byte.get(&host), 100i8);
    let short =
        OwnedData::<i16, ReadWrite>::create_with_value(&mut host, "an/i16", &-30000).unwrap();
    assert_eq!(short.get(&host), -30000i16);
    // reading the same slots through an i32 handle shows the wire values
    let as_int = DataRef::<i32, ReadOnly>::find(&host, "an/i8").unwrap();
    assert_eq!(as_int.get(&host), 100);
    let as_int16 = DataRef::<i32, ReadOnly>::find(&host, "an/i16").unwrap();
    assert_eq!(as_int16.get(&host), -30000);
    // a wide host write truncates to the low byte, as the wire format does
    assert!(host.write_scalar(byte.id, SlotValue::Int(0x1ff)));
    assert_eq!(byte.get(&host), -1i8);
}

#[test]
fn unsigned_small_scalars_round_trip() {
    let mut host = Host::new();
    let word = OwnedData::<u16, ReadWrite>::create_with_value(&mut host, "a/u16", &40000).unwrap();
    assert_eq!(word.get(&host), 40000u16);
    assert!(host.write_scalar(word.id, SlotValue::Int(0x1_0002)));
    assert_eq!(word.get(&host), 2u16);
}
