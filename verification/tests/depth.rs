use kinect_one::processor::depth::{
    build_lookup_table, classify_measurement, decode_pixel_measurement, is_border, output_index,
    Measurement,
};
use kinect_one::processor::Mat;

#[test]
fn lookup_table_ramps_with_doubling_steps() {
    let lut = build_lookup_table();
    assert_eq!(lut.len(), 2048);
    assert_eq!(lut[0], 0);
    assert_eq!(lut[1], 1);
    assert_eq!(lut[255], 255);
    assert_eq!(lut[256], 256);
    assert_eq!(lut[257], 258);
    assert_eq!(lut[384], 512);
    assert_eq!(lut[385], 516);
    assert_eq!(lut[512], 1024);
    assert_eq!(lut[640], 2048);
    assert_eq!(lut[768], 4096);
    assert_eq!(lut[896], 8192);
    assert_eq!(lut[1023], 16320);
}

#[test]
fn lookup_table_matches_the_running_sum() {
    let lut = build_lookup_table();
    let mut y: i16 = 0;
    for x in 0..1024usize {
        let inc = 1 << (x / 128 - (x >= 128) as usize);
        assert_eq!(lut[x], y);
        if x != 0 {
            assert_eq!(lut[1024 + x], -y);
        }
        y += inc;
    }
}

#[test]
fn lookup_table_upper_half_is_negated() {
    let lut = build_lookup_table();
    assert_eq!(lut[1024], 32767);
    assert_eq!(lut[1025], -1);
    assert_eq!(lut[1280], -256);
    assert_eq!(lut[2047], -16320);
    assert_eq!(lut.iter().filter(|value| **value == 32767).count(), 1);
}

#[test]
fn zero_packet_decodes_to_zero() {
    let lut = build_lookup_table();
    let data = vec![0u8; 2984960];
    for sub in 0..10 {
        for (x, y) in [(0, 0), (1, 0), (255, 211), (256, 212), (510, 423), (511, 423)] {
            assert_eq!(decode_pixel_measurement(&lut, &data, sub, x, y), 0);
        }
    }
}

fn put_sample(data: &mut [u8], sub: usize, x: usize, y: usize, sample: u32) {
    let row = if y < 212 { y + 212 } else { 423 - y };
    let bit = ((x >> 2) + ((x & 3) << 7)) * 11;
    let start = (298496 * sub + 704 * row) * 8 + bit;
    for i in 0..11 {
        let at = start + i;
        if sample >> i & 1 == 1 {
            data[at / 8] |= 1 << (at % 8);
        } else {
            data[at / 8] &= !(1 << (at % 8));
        }
    }
}

#[test]
fn samples_are_unpacked_where_they_were_packed() {
    let lut = build_lookup_table();
    let mut data = vec![0u8; 2984960];
    let pixels = [(1, 0), (2, 5), (3, 211), (4, 212), (255, 300), (256, 1), (507, 423), (510, 100)];
    for (i, (x, y)) in pixels.iter().enumerate() {
        put_sample(&mut data, i, *x, *y, 100 + 7 * i as u32);
    }
    for (i, (x, y)) in pixels.iter().enumerate() {
        assert_eq!(decode_pixel_measurement(&lut, &data, i, *x, *y), lut[100 + 7 * i]);
    }
    assert_eq!(decode_pixel_measurement(&lut, &data, 1, 1, 0), 0);
}

#[test]
fn neighbouring_samples_do_not_overlap() {
    let lut = build_lookup_table();
    let mut data = vec![0xffu8; 2984960];
    put_sample(&mut data, 9, 8, 7, 0);
    assert_eq!(decode_pixel_measurement(&lut, &data, 9, 8, 7), 0);
    assert_eq!(decode_pixel_measurement(&lut, &data, 9, 4, 7), lut[2047]);
    assert_eq!(decode_pixel_measurement(&lut, &data, 9, 12, 7), lut[2047]);
    assert_eq!(decode_pixel_measurement(&lut, &data, 9, 9, 7), lut[2047]);
}

#[test]
fn saturated_sample_decodes_to_the_largest_value() {
    let lut = build_lookup_table();
    let mut data = vec![0u8; 2984960];
    put_sample(&mut data, 0, 100, 100, 1024);
    assert_eq!(decode_pixel_measurement(&lut, &data, 0, 100, 100), 32767);
    put_sample(&mut data, 0, 100, 100, 1025);
    assert_eq!(decode_pixel_measurement(&lut, &data, 0, 100, 100), -1);
}

#[test]
fn pixels_without_sample_decode_to_the_first_entry() {
    let mut lut = build_lookup_table();
    lut[0] = 5;
    let data = vec![0xffu8; 2984960];
    assert_eq!(decode_pixel_measurement(&lut, &data, 0, 0, 10), 5);
    assert_eq!(decode_pixel_measurement(&lut, &data, 0, 511, 10), 5);
    assert_eq!(decode_pixel_measurement(&lut, &data, 0, 10, 424), 5);
    assert_eq!(decode_pixel_measurement(&lut, &data, 0, 10, 423), lut[2047]);
}

#[test]
fn measurement_triples_are_classified() {
    assert_eq!(classify_measurement(false, 1, 2, 3), Measurement::Invalid);
    assert_eq!(classify_measurement(false, 32767, 2, 3), Measurement::Invalid);
    assert_eq!(classify_measurement(true, 32767, 2, 3), Measurement::Saturated);
    assert_eq!(classify_measurement(true, 1, 32767, 3), Measurement::Saturated);
    assert_eq!(classify_measurement(true, 1, 2, 32767), Measurement::Saturated);
    assert_eq!(classify_measurement(true, 32766, -32768, 0), Measurement::Valid);
}

#[test]
fn border_is_one_pixel_wide_and_two_at_the_bottom() {
    assert!(is_border(0, 100));
    assert!(is_border(100, 0));
    assert!(is_border(511, 100));
    assert!(is_border(100, 423));
    assert!(!is_border(1, 1));
    assert!(!is_border(510, 422));
}

#[test]
fn output_is_turned_upside_down() {
    assert_eq!(output_index(0, 0), 423 * 512);
    assert_eq!(output_index(511, 423), 511);
    assert_eq!(output_index(7, 100), 7 + 323 * 512);
}

#[test]
fn matrix_is_stored_row_by_row() {
    let mut matrix = Mat::from(3, vec![1u16, 2, 3, 4, 5, 6]);
    assert_eq!(matrix.width(), 3);
    assert_eq!(matrix.len(), 6);
    assert_eq!(matrix.get(0, 0), 1);
    assert_eq!(matrix.get(2, 0), 3);
    assert_eq!(matrix.get(1, 1), 5);
    *matrix.get_mut(1, 1) = 50;
    assert_eq!(matrix.buffer(), &vec![1, 2, 3, 4, 50, 6]);
    let filled = Mat::new(4, 2, 7u8);
    assert_eq!(filled.buffer(), &vec![7u8; 8]);
    assert_eq!(filled.clone().buffer(), filled.buffer());
}

#[test]
fn matrix_copy_overwrites_the_front() {
    let mut matrix = Mat::from(2, vec![1u8, 2, 3, 4]);
    matrix.copy_from_slice(&[9, 8, 7]);
    assert_eq!(matrix.buffer(), &vec![9, 8, 7, 4]);
    matrix.copy_from_slice(&[]);
    assert_eq!(matrix.buffer(), &vec![9, 8, 7, 4]);
}

#[test]
fn matrix_flip_mirrors_the_rows() {
    let mut matrix = Mat::from(2, vec![1u16, 2, 3, 4]);
    matrix.horizontal_flip();
    assert_eq!(matrix.buffer(), &vec![2, 1, 4, 3]);
    let mut matrix = Mat::from(3, vec![1u16, 2, 3, 4, 5, 6]);
    matrix.horizontal_flip();
    assert_eq!(matrix.buffer(), &vec![3, 2, 1, 6, 5, 4]);
    assert_eq!(matrix.width(), 3);
    assert_eq!(matrix.get(0, 1), 6);
    matrix.horizontal_flip();
    assert_eq!(matrix.buffer(), &vec![1, 2, 3, 4, 5, 6]);
    let mut ragged = Mat::from(2, vec![1u16, 2, 3, 4, 5]);
    ragged.horizontal_flip();
    assert_eq!(ragged.buffer(), &vec![2, 1, 4, 3, 5]);
    let mut single = Mat::from(1, vec![7u8, 8, 9]);
    single.horizontal_flip();
    assert_eq!(single.buffer(), &vec![7, 8, 9]);
}
