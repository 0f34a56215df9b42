use mpu6500::codec::{build_read, build_write, decode_payload, decode_word};

#[test]
fn build_read_who_am_i_frame() {
    let frame = build_read(0x75, 1);
    assert_eq!(frame, vec![0xf5, 0x00]);
}

#[test]
fn build_read_length_first_byte_and_fill() {
    for &(address, count) in &[(0x3bu8, 6usize), (0x43, 6), (0x00, 3), (0x7f, 2), (0x12, 1)] {
        let frame = build_read(address, count);
        assert_eq!(frame.len(), count + 1);
        assert_eq!(frame[0], 0x80 | address);
        for &byte in &frame[1..] {
            assert_eq!(byte, 0);
        }
    }
}

#[test]
fn build_write_is_masked_address_then_value() {
    assert_eq!(build_write(0x1b, 0x08), vec![0x1b, 0x08]);
    assert_eq!(build_write(0x1c, 0x18), vec![0x1c, 0x18]);
    assert_eq!(build_write(0x00, 0xff), vec![0x00, 0xff]);
}

#[test]
fn build_write_clears_the_read_bit() {
    assert_eq!(build_write(0xf5, 0x01), vec![0x75, 0x01]);
}

#[test]
fn decode_word_is_big_endian() {
    assert_eq!(decode_word(0x12, 0x34), 0x1234);
    assert_eq!(decode_word(0x12, 0x34), 4660);
}

#[test]
fn decode_word_all_ones_is_minus_one() {
    assert_eq!(decode_word(0xff, 0xff), -1);
}

#[test]
fn decode_word_extremes() {
    assert_eq!(decode_word(0x80, 0x00), -32768);
    assert_eq!(decode_word(0x7f, 0xff), 32767);
    assert_eq!(decode_word(0x00, 0x00), 0);
    assert_eq!(decode_word(0x00, 0xff), 255);
}

#[test]
fn decode_payload_discards_the_first_byte() {
    let response = vec![0xaa, 1, 2, 3, 4, 5, 6];
    assert_eq!(decode_payload(&response), vec![1, 2, 3, 4, 5, 6]);
    let short = vec![0x55];
    assert_eq!(decode_payload(&short), Vec::<u8>::new());
}
