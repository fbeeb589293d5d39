//! The range split and the byte round trip.

use ufile_core::{split_into_ranges, transfer_round_trip, write_chunk, extract_chunk, range_header, ByteRange};

#[test]
fn split_ten_million_by_four_mb_gives_three_parts() {
    let ranges = split_into_ranges(10_000_000, 4_194_304);
    assert_eq!(ranges.len(), 3);
    assert_eq!(ranges[0], ByteRange { start: 0, end: 4_194_304 });
    assert_eq!(ranges[1], ByteRange { start: 4_194_304, end: 8_388_608 });
    assert_eq!(ranges[2], ByteRange { start: 8_388_608, end: 10_000_000 });
}

#[test]
fn split_covers_exactly_and_contiguously() {
    let total = 1_000_003u64;
    let block = 4096u64;
    let ranges = split_into_ranges(total, block);
    assert_eq!(ranges.len() as u64, total.div_ceil(block));
    assert_eq!(ranges[0].start, 0);
    assert_eq!(ranges[ranges.len() - 1].end, total);
    for i in 0..ranges.len() {
        assert!(ranges[i].start < ranges[i].end);
        if i > 0 {
            assert_eq!(ranges[i].start, ranges[i - 1].end);
        }
    }
}

#[test]
fn split_one_block_when_block_covers_total() {
    let ranges = split_into_ranges(100, 4_194_304);
    assert_eq!(ranges.len(), 1);
    assert_eq!(ranges[0], ByteRange { start: 0, end: 100 });
}

#[test]
fn split_exact_multiple_has_full_blocks_only() {
    let ranges = split_into_ranges(8192, 4096);
    assert_eq!(ranges.len(), 2);
    assert_eq!(ranges[1], ByteRange { start: 4096, end: 8192 });
}

#[test]
fn round_trip_reproduces_content() {
    let content: Vec<u8> = (0..10_000u32).map(|i| (i % 251) as u8).collect();
    let rebuilt = transfer_round_trip(&content, 1024);
    assert_eq!(rebuilt, content);
}

#[test]
fn round_trip_with_block_larger_than_content() {
    let content: Vec<u8> = vec![7, 8, 9];
    let rebuilt = transfer_round_trip(&content, 4_194_304);
    assert_eq!(rebuilt, content);
}

#[test]
fn write_chunk_places_bytes_at_offset() {
    let mut dest = vec![0u8; 8];
    write_chunk(&mut dest, 3, &[1, 2, 3]);
    assert_eq!(dest, vec![0, 0, 0, 1, 2, 3, 0, 0]);
}

#[test]
fn extract_chunk_cuts_the_range() {
    let content = vec![10u8, 11, 12, 13, 14];
    let chunk = extract_chunk(&content, ByteRange { start: 1, end: 4 });
    assert_eq!(chunk, vec![11, 12, 13]);
}

#[test]
fn range_header_is_inclusive_of_the_last_byte() {
    let header = range_header(ByteRange { start: 0, end: 4_194_304 });
    assert_eq!(header, "bytes=0-4194303");
    let header = range_header(ByteRange { start: 8_388_608, end: 10_000_000 });
    assert_eq!(header, "bytes=8388608-9999999");
}
