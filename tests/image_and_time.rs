use h7_core::{
    boot_address, build_boot_image, image_body, seal_image, DateTime, ImageError, TimeSource,
    Timestamp,
};

#[test]
fn boot_image_swaps_address_and_appends_crc() {
    let input = vec![0x00, 0x00, 0x00, 0x08, 0x01, 0x02];
    assert_eq!(boot_address(&input), Some(0x0800_0000));
    let image = build_boot_image(&input).unwrap();
    assert_eq!(image, vec![0x08, 0x00, 0x00, 0x00, 0x01, 0x02, 0x38, 0xa1, 0x2d, 0x00]);
}

#[test]
fn boot_image_of_bare_address() {
    let input = vec![0x12, 0x34, 0x56, 0x78];
    let image = build_boot_image(&input).unwrap();
    assert_eq!(image, vec![0x78, 0x56, 0x34, 0x12, 0xad, 0x37, 0xd0, 0x56]);
}

#[test]
fn boot_image_too_short() {
    assert_eq!(build_boot_image(&vec![1, 2, 3]), Err(ImageError::TooShort));
    assert_eq!(image_body(&vec![]), Err(ImageError::TooShort));
    assert_eq!(boot_address(&vec![1, 2, 3]), None);
}

#[test]
fn seal_appends_big_endian_checksum() {
    assert_eq!(seal_image(vec![9], 0x0376_e6e7), vec![9, 0x03, 0x76, 0xe6, 0xe7]);
}

#[test]
fn timestamp_from_clock_reading() {
    let now = DateTime { year: 2023, month0: 4, day0: 16, hour: 13, minute: 7, second: 59 };
    assert_eq!(
        TimeSource.get_timestamp(Some(now)),
        Timestamp {
            year_since_1970: 53,
            zero_indexed_month: 4,
            zero_indexed_day: 16,
            hours: 13,
            minutes: 7,
            seconds: 59,
        }
    );
}

#[test]
fn timestamp_without_clock_is_epoch() {
    assert_eq!(
        TimeSource.get_timestamp(None),
        Timestamp {
            year_since_1970: 0,
            zero_indexed_month: 0,
            zero_indexed_day: 0,
            hours: 0,
            minutes: 0,
            seconds: 0,
        }
    );
}

#[test]
fn timestamp_year_wraps_to_a_byte() {
    let now = DateTime { year: 1969, month0: 0, day0: 0, hour: 0, minute: 0, second: 0 };
    assert_eq!(TimeSource.get_timestamp(Some(now)).year_since_1970, 255);
}
