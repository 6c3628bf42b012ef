use web3api::msgpack::data_view::DataView;

fn view_on(bytes: &[u8]) -> DataView {
    DataView::new(bytes, None, None, None).unwrap()
}

fn reader_at(written: &DataView, start: i32) -> DataView {
    let mut reader = DataView::new(written.buffer(), None, None, None).unwrap();
    reader.discard(start).unwrap();
    reader
}

#[test]
fn u8_round_trip() {
    for value in [0u8, 1, 0x7f, 0x80, 0xff] {
        let mut view = view_on(&[0; 3]);
        view.discard(1).unwrap();
        view.set_u8(value).unwrap();
        assert_eq!(view.byte_offset(), 2);
        let mut reader = reader_at(&view, 1);
        assert_eq!(reader.get_u8(), Ok(value));
        assert_eq!(reader.byte_offset(), 2);
    }
}

#[test]
fn u16_round_trip() {
    for value in [0u16, 1, 0x00ff, 0x0100, 0x7fff, 0x8000, 0xfffe, u16::MAX] {
        let mut view = view_on(&[0; 4]);
        view.discard(1).unwrap();
        view.set_u16(value).unwrap();
        assert_eq!(view.byte_offset(), 3);
        let mut reader = reader_at(&view, 1);
        assert_eq!(reader.get_u16(), Ok(value));
        assert_eq!(reader.byte_offset(), 3);
    }
}

#[test]
fn u32_round_trip() {
    for value in [0u32, 1, 0x0102_0304, 0x7fff_ffff, 0x8000_0000, u32::MAX] {
        let mut view = view_on(&[0; 6]);
        view.discard(2).unwrap();
        view.set_u32(value).unwrap();
        assert_eq!(view.byte_offset(), 6);
        let mut reader = reader_at(&view, 2);
        assert_eq!(reader.get_u32(), Ok(value));
        assert_eq!(reader.byte_offset(), 6);
    }
}

#[test]
fn u64_round_trip() {
    for value in [0u64, 1, 0x0102_0304_0506_0708, 0x7fff_ffff_ffff_ffff, 1 << 63, u64::MAX] {
        let mut view = view_on(&[0; 9]);
        view.discard(1).unwrap();
        view.set_u64(value).unwrap();
        assert_eq!(view.byte_offset(), 9);
        let mut reader = reader_at(&view, 1);
        assert_eq!(reader.get_u64(), Ok(value));
        assert_eq!(reader.byte_offset(), 9);
    }
}

#[test]
fn i8_round_trip() {
    for value in [0i8, 1, -1, 0x7f, i8::MIN, -2] {
        let mut view = view_on(&[0; 1]);
        view.set_i8(value).unwrap();
        assert_eq!(view.byte_offset(), 1);
        let mut reader = reader_at(&view, 0);
        assert_eq!(reader.get_i8(), Ok(value));
        assert_eq!(reader.byte_offset(), 1);
    }
}

#[test]
fn i16_round_trip() {
    for value in [0i16, 1, -1, 0x1234, -0x1234, i16::MAX, i16::MIN] {
        let mut view = view_on(&[0; 2]);
        view.set_i16(value).unwrap();
        assert_eq!(view.byte_offset(), 2);
        let mut reader = reader_at(&view, 0);
        assert_eq!(reader.get_i16(), Ok(value));
        assert_eq!(reader.byte_offset(), 2);
    }
}

#[test]
fn i32_round_trip() {
    for value in [0i32, 1, -1, 0x0102_0304, -0x0102_0304, i32::MAX, i32::MIN] {
        let mut view = view_on(&[0; 4]);
        view.set_i32(value).unwrap();
        assert_eq!(view.byte_offset(), 4);
        let mut reader = reader_at(&view, 0);
        assert_eq!(reader.get_i32(), Ok(value));
        assert_eq!(reader.byte_offset(), 4);
    }
}

#[test]
fn i64_round_trip() {
    for value in [0i64, 1, -1, 0x0102_0304_0506_0708, -0x0102_0304_0506_0708, i64::MAX, i64::MIN] {
        let mut view = view_on(&[0; 8]);
        view.set_i64(value).unwrap();
        assert_eq!(view.byte_offset(), 8);
        let mut reader = reader_at(&view, 0);
        assert_eq!(reader.get_i64(), Ok(value));
        assert_eq!(reader.byte_offset(), 8);
    }
}

#[test]
fn f32_round_trip_is_bit_exact() {
    let values = [0.0f32, -0.0, 1.5, -2.25, f32::MAX, f32::MIN_POSITIVE, f32::INFINITY, f32::NAN];
    for value in values {
        let mut view = view_on(&[0; 4]);
        view.set_f32(value.to_bits()).unwrap();
        assert_eq!(view.byte_offset(), 4);
        let mut reader = reader_at(&view, 0);
        let back = f32::from_bits(reader.get_f32().unwrap());
        assert_eq!(back.to_bits(), value.to_bits());
        assert_eq!(reader.byte_offset(), 4);
    }
}

#[test]
fn f64_round_trip_is_bit_exact() {
    let values = [0.0f64, -0.0, 1.5, -2.25, f64::MAX, f64::MIN_POSITIVE, f64::NEG_INFINITY, f64::NAN];
    for value in values {
        let mut view = view_on(&[0; 8]);
        view.set_f64(value.to_bits()).unwrap();
        assert_eq!(view.byte_offset(), 8);
        let mut reader = reader_at(&view, 0);
        let back = f64::from_bits(reader.get_f64().unwrap());
        assert_eq!(back.to_bits(), value.to_bits());
        assert_eq!(reader.byte_offset(), 8);
    }
}

#[test]
fn u32_is_stored_most_significant_byte_first() {
    let mut view = view_on(&[0; 4]);
    view.set_u32(0x0102_0304).unwrap();
    assert_eq!(view.buffer(), &[0x01, 0x02, 0x03, 0x04]);
    assert_eq!(view.into_bytes(), vec![0x01, 0x02, 0x03, 0x04]);
}

#[test]
fn u32_is_read_most_significant_byte_first() {
    let mut view = view_on(&[0x01, 0x02, 0x03, 0x04]);
    assert_eq!(view.get_u32(), Ok(0x0102_0304));
}

#[test]
fn u16_and_u64_byte_order() {
    let mut view = view_on(&[0; 10]);
    view.set_u16(0xabcd).unwrap();
    view.set_u64(0x0102_0304_0506_0708).unwrap();
    assert_eq!(view.buffer(), &[0xab, 0xcd, 1, 2, 3, 4, 5, 6, 7, 8]);
    let mut reader = view_on(&[0xab, 0xcd, 1, 2, 3, 4, 5, 6, 7, 8]);
    assert_eq!(reader.get_u16(), Ok(0xabcd));
    assert_eq!(reader.get_u64(), Ok(0x0102_0304_0506_0708));
}

#[test]
fn signed_numbers_are_twos_complement() {
    let mut view = view_on(&[0; 15]);
    view.set_i8(-2).unwrap();
    view.set_i16(-2).unwrap();
    view.set_i32(-0x0102_0304).unwrap();
    view.set_i64(i64::MIN).unwrap();
    assert_eq!(
        view.buffer(),
        &[0xfe, 0xff, 0xfe, 0xfe, 0xfd, 0xfc, 0xfc, 0x80, 0, 0, 0, 0, 0, 0, 0]
    );
    let mut reader = view_on(&[0x80, 0x80, 0x00, 0xff, 0xff, 0xff, 0xff]);
    assert_eq!(reader.get_i8(), Ok(-128));
    assert_eq!(reader.get_i16(), Ok(-32768));
    assert_eq!(reader.get_i32(), Ok(-1));
}

#[test]
fn f32_pattern_is_stored_as_it_is() {
    let mut view = view_on(&[0; 12]);
    view.set_f32(1.0f32.to_bits()).unwrap();
    view.set_f64((-2.0f64).to_bits()).unwrap();
    assert_eq!(view.buffer(), &[0x3f, 0x80, 0, 0, 0xc0, 0, 0, 0, 0, 0, 0, 0]);
    let mut reader = view_on(&[0x3f, 0x80, 0, 0, 0xc0, 0, 0, 0, 0, 0, 0, 0]);
    assert_eq!(f32::from_bits(reader.get_f32().unwrap()), 1.0);
    assert_eq!(f64::from_bits(reader.get_f64().unwrap()), -2.0);
}

#[test]
fn a_write_leaves_the_other_bytes_alone() {
    let mut view = view_on(&[9, 9, 9, 9, 9, 9]);
    view.discard(2).unwrap();
    view.set_u16(0x0102).unwrap();
    assert_eq!(view.buffer(), &[9, 9, 1, 2, 9, 9]);
}

#[test]
fn reads_follow_one_another() {
    let mut view = view_on(&[1, 0, 2, 0, 0, 0, 3, 0, 0, 0, 0, 0, 0, 0, 4]);
    assert_eq!(view.get_u8(), Ok(1));
    assert_eq!(view.byte_offset(), 1);
    assert_eq!(view.get_u16(), Ok(2));
    assert_eq!(view.byte_offset(), 3);
    assert_eq!(view.get_u32(), Ok(3));
    assert_eq!(view.byte_offset(), 7);
    assert_eq!(view.get_u64(), Ok(4));
    assert_eq!(view.byte_offset(), 15);
    assert!(view.get_u8().is_err());
    assert_eq!(view.byte_offset(), 15);
}
