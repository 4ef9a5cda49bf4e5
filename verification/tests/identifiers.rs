use media_endpoint::identifier::{
    epoch_offset, identifier, random_id, random_part, time_bytes, time_part, EPOCH, RANDOM_LEN,
};
use std::collections::HashSet;

fn rank(c: char) -> i32 {
    match c {
        'A'..='Z' => c as i32 - 'A' as i32,
        '2'..='7' => c as i32 - '2' as i32 + 26,
        _ => panic!("not a base-32 character: {}", c),
    }
}

fn sorts_before(a: &str, b: &str) -> bool {
    let a: Vec<i32> = a.chars().map(rank).collect();
    let b: Vec<i32> = b.chars().map(rank).collect();
    (a.len(), a) < (b.len(), b)
}

#[test]
fn epoch_is_the_start_of_1990() {
    assert_eq!(EPOCH, 631_152_000);
}

#[test]
fn epoch_offset_subtracts_the_epoch() {
    assert_eq!(epoch_offset(631_152_000), 0);
    assert_eq!(epoch_offset(1_700_000_000), 1_068_848_000);
    assert_eq!(epoch_offset(0), -631_152_000);
}

#[test]
fn epoch_offset_wraps_below_the_least_number() {
    assert_eq!(epoch_offset(i64::MIN), i64::MIN.wrapping_sub(EPOCH));
    assert_eq!(epoch_offset(i64::MIN + EPOCH - 1), i64::MAX);
    assert_eq!(epoch_offset(i64::MIN + EPOCH), i64::MIN);
}

#[test]
fn time_bytes_drop_leading_zero_bytes() {
    assert_eq!(time_bytes(0), Vec::<u8>::new());
    assert_eq!(time_bytes(1), vec![1]);
    assert_eq!(time_bytes(255), vec![255]);
    assert_eq!(time_bytes(256), vec![1, 0]);
    assert_eq!(time_bytes(1_000_000_000), vec![0x3b, 0x9a, 0xca, 0x00]);
    assert_eq!(time_bytes(i64::MAX), vec![0x7f, 255, 255, 255, 255, 255, 255, 255]);
}

#[test]
fn time_bytes_of_a_negative_number_are_all_eight() {
    assert_eq!(time_bytes(-1), vec![255; 8]);
    assert_eq!(time_bytes(i64::MIN), vec![0x80, 0, 0, 0, 0, 0, 0, 0]);
}

#[test]
fn time_part_of_zero_is_empty() {
    assert_eq!(time_part(0), "");
}

#[test]
fn time_part_is_unpadded_base32() {
    assert_eq!(time_part(1), "AE");
    assert_eq!(time_part(255), "74");
    assert_eq!(time_part(256), "AEAA");
    assert_eq!(time_part(65_535), "777Q");
    assert_eq!(time_part(65_536), "AEAAA");
    assert_eq!(time_part(1_000_000_000), "HONMUAA");
    assert_eq!(time_part(1_068_848_000), "H62VHAA");
    assert_eq!(time_part(4_294_967_296), "AEAAAAAA");
    assert_eq!(time_part(i64::MAX), "P777777777776");
    assert_eq!(time_part(-1), "7777777777776");
}

#[test]
fn time_part_differs_from_its_bytes() {
    assert_ne!(time_part(65).as_bytes(), &[65u8][..]);
    assert_eq!(time_part(65), "IE");
}

#[test]
fn identifier_joins_parts_with_hyphen() {
    assert_eq!(identifier(1, "abcdefg"), "AE-abcdefg");
    assert_eq!(identifier(0, "0000000"), "-0000000");
    assert_eq!(identifier(1_068_848_000, "Zz09AbC"), "H62VHAA-Zz09AbC");
}

#[test]
fn later_time_parts_sort_later_in_the_alphabet() {
    let moments: [i64; 12] = [
        0,
        1,
        199,
        200,
        208,
        255,
        256,
        65_535,
        65_536,
        1_000_000_000,
        1_068_848_000,
        i64::MAX,
    ];
    for pair in moments.windows(2) {
        let (earlier, later) = (time_part(pair[0]), time_part(pair[1]));
        assert!(sorts_before(&earlier, &later), "{} against {}", earlier, later);
    }
    assert!(sorts_before(&time_part(i64::MIN), &time_part(-1)));
}

#[test]
fn time_parts_made_a_second_apart_sort_in_order() {
    let mut earlier = time_part(1_068_848_000);
    for ts in 1_068_848_001..1_068_858_000i64 {
        let later = time_part(ts);
        assert!(sorts_before(&earlier, &later), "{} against {}", earlier, later);
        earlier = later;
    }
}

#[test]
fn plain_string_order_is_not_the_alphabet_order() {
    assert_eq!(time_part(200), "ZA");
    assert_eq!(time_part(208), "2A");
    assert!(time_part(200) > time_part(208));
    assert!(sorts_before(&time_part(200), &time_part(208)));
}

#[test]
fn random_part_is_seven_letters_or_digits() {
    assert_eq!(RANDOM_LEN, 7);
    for _ in 0..1000 {
        let part = random_part();
        assert_eq!(part.chars().count(), 7);
        assert!(part.chars().all(|c| c.is_ascii_alphanumeric()), "{}", part);
    }
}

#[test]
fn random_id_has_a_time_part_and_a_random_part() {
    let id = random_id();
    let (time, random) = id.rsplit_once('-').expect("a hyphen");
    assert!(!time.is_empty());
    assert!(time.chars().all(|c| matches!(c, 'A'..='Z' | '2'..='7')), "{}", id);
    assert_eq!(random.len(), 7);
    assert!(random.chars().all(|c| c.is_ascii_alphanumeric()), "{}", id);
}

#[test]
fn random_id_counts_from_the_epoch() {
    let before = std::time::SystemTime::now()
        .duration_since(std::time::UNIX_EPOCH)
        .unwrap()
        .as_secs() as i64;
    let id = random_id();
    let after = std::time::SystemTime::now()
        .duration_since(std::time::UNIX_EPOCH)
        .unwrap()
        .as_secs() as i64;
    let time = id.rsplit_once('-').unwrap().0.to_string();
    assert!((before..=after).any(|now| time_part(now - EPOCH) == time), "{}", id);
}

#[test]
fn random_ids_do_not_collide() {
    let mut seen = HashSet::new();
    for _ in 0..100_000 {
        assert!(seen.insert(random_id()));
    }
}
