use zk_epdcalc::epd::{BuildingEpd, BuildingPartEPD, ConcreteEpd, PublicOutput};
use zk_epdcalc::journal::{read_double_word, read_text, read_word};

fn words_to_bytes(words: Vec<u32>) -> Vec<u8> {
    let mut bytes = Vec::new();
    for word in words {
        bytes.extend_from_slice(&word.to_le_bytes());
    }
    bytes
}

#[test]
fn word_is_read_low_byte_first() {
    let journal = [0x78, 0x56, 0x34, 0x12, 0xff, 0xff, 0xff, 0xff];
    assert_eq!(read_word(&journal, 0), Some((0x1234_5678, 4)));
    assert_eq!(read_word(&journal, 4), Some((u32::MAX, 8)));
    assert_eq!(read_word(&journal, 1), Some((0xff12_3456, 5)));
    assert_eq!(read_word(&journal, 5), None);
    assert_eq!(read_word(&journal, 8), None);
    assert_eq!(read_word(&journal, usize::MAX), None);
    assert_eq!(read_word(&[], 0), None);
    assert_eq!(read_word(&[1, 2, 3], 0), None);
}

#[test]
fn double_word_is_read_low_word_first() {
    let journal = [0x01, 0, 0, 0, 0x02, 0, 0, 0];
    assert_eq!(read_double_word(&journal, 0), Some((0x0000_0002_0000_0001, 8)));
    assert_eq!(read_double_word(&journal, 4), None);
    let all = [0xffu8; 8];
    assert_eq!(read_double_word(&all, 0), Some((u64::MAX, 8)));
    let journal = words_to_bytes(risc0_zkvm::serde::to_vec(&0x1122_3344_5566_7788u64).unwrap());
    assert_eq!(read_double_word(&journal, 0), Some((0x1122_3344_5566_7788, 8)));
}

#[test]
fn text_is_read_with_its_filling() {
    let journal = [5, 0, 0, 0, b'h', b'e', b'l', b'l', b'o', 9, 9, 9, 7, 0, 0, 0];
    assert_eq!(read_text(&journal, 0), Some(("hello".to_string(), 12)));
    assert_eq!(read_word(&journal, 12), Some((7, 16)));
    let exact = [4, 0, 0, 0, b'a', b'b', b'c', b'd'];
    assert_eq!(read_text(&exact, 0), Some(("abcd".to_string(), 8)));
    let empty = [0, 0, 0, 0];
    assert_eq!(read_text(&empty, 0), Some((String::new(), 4)));
}

#[test]
fn text_that_ends_too_early_is_not_read() {
    let no_filling = [5, 0, 0, 0, b'h', b'e', b'l', b'l', b'o'];
    assert_eq!(read_text(&no_filling, 0), None);
    let too_long = [9, 0, 0, 0, b'h', b'e', b'l', b'l'];
    assert_eq!(read_text(&too_long, 0), None);
    let huge = [0xff, 0xff, 0xff, 0xff, b'h', b'e', b'l', b'l'];
    assert_eq!(read_text(&huge, 0), None);
    assert_eq!(read_text(&[1, 0], 0), None);
}

#[test]
fn text_that_is_not_utf8_is_not_read() {
    let journal = [2, 0, 0, 0, 0xc3, 0x28, 0, 0];
    assert_eq!(read_text(&journal, 0), None);
    let journal = [2, 0, 0, 0, 0xc3, 0xa4, 0, 0];
    assert_eq!(read_text(&journal, 0), Some(("ä".to_string(), 8)));
}

#[test]
fn texts_are_read_as_the_engine_writes_them() {
    for text in ["", "a", "ab", "abc", "abcd", "abcde", "Gebäude 1", "建物", "2024-10-01"] {
        let journal = words_to_bytes(risc0_zkvm::serde::to_vec(text).unwrap());
        assert_eq!(read_text(&journal, 0), Some((text.to_string(), journal.len())));
    }
}

#[test]
fn building_part_is_decoded() {
    let journal = words_to_bytes(
        risc0_zkvm::serde::to_vec(&("2024-10-01", "Building 1", "xfe13293", 10u32)).unwrap(),
    );
    let decoded = BuildingPartEPD::decode(&journal).unwrap();
    assert_eq!(decoded.date, "2024-10-01");
    assert_eq!(decoded.building, "Building 1");
    assert_eq!(decoded.building_part_id, "xfe13293");
    assert_eq!(decoded.a14_gwp, 10);
}

#[test]
fn building_is_decoded() {
    let journal =
        words_to_bytes(risc0_zkvm::serde::to_vec(&("2024-11-05", "", u32::MAX)).unwrap());
    let decoded = BuildingEpd::decode(&journal).unwrap();
    assert_eq!(decoded.date, "2024-11-05");
    assert_eq!(decoded.building, "");
    assert_eq!(decoded.a15_gwp, u32::MAX);
}

#[test]
fn concrete_is_decoded() {
    let journal =
        words_to_bytes(risc0_zkvm::serde::to_vec(&("C25/30", "Wien", 609.8f64)).unwrap());
    let decoded = ConcreteEpd::decode(&journal).unwrap();
    assert_eq!(decoded.description, "C25/30");
    assert_eq!(decoded.factory, "Wien");
    assert_eq!(f64::from_bits(decoded.a13_gwp), 609.8);
}

#[test]
fn what_follows_the_output_is_ignored() {
    let mut journal = words_to_bytes(
        risc0_zkvm::serde::to_vec(&("2024-10-01", "Building 1", "xfe13293", 10u32)).unwrap(),
    );
    journal.extend_from_slice(&[1, 2, 3, 4, 5, 6, 7, 8]);
    let decoded = BuildingPartEPD::decode(&journal).unwrap();
    assert_eq!(decoded.a14_gwp, 10);
}

#[test]
fn journal_of_ragged_length_holds_nothing() {
    let journal = words_to_bytes(
        risc0_zkvm::serde::to_vec(&("2024-10-01", "Building 1", "xfe13293", 10u32)).unwrap(),
    );
    for extra in 1..4 {
        let mut ragged = journal.clone();
        ragged.extend(std::iter::repeat(0).take(extra));
        assert!(BuildingPartEPD::decode(&ragged).is_none());
    }
    let journal = words_to_bytes(risc0_zkvm::serde::to_vec(&("a", "b", 1u32)).unwrap());
    let mut ragged = journal.clone();
    ragged.push(0);
    assert!(BuildingEpd::decode(&ragged).is_none());
    let journal = words_to_bytes(risc0_zkvm::serde::to_vec(&("a", "b", 1.0f64)).unwrap());
    let mut ragged = journal.clone();
    ragged.push(0);
    assert!(ConcreteEpd::decode(&ragged).is_none());
}

#[test]
fn cut_journal_holds_nothing() {
    let journal = words_to_bytes(
        risc0_zkvm::serde::to_vec(&("2024-10-01", "Building 1", "xfe13293", 10u32)).unwrap(),
    );
    for len in (0..journal.len()).step_by(4) {
        assert!(BuildingPartEPD::decode(&journal[..len]).is_none());
    }
    let journal = words_to_bytes(risc0_zkvm::serde::to_vec(&("a", "b", 1.0f64)).unwrap());
    for len in (0..journal.len()).step_by(4) {
        assert!(ConcreteEpd::decode(&journal[..len]).is_none());
    }
    assert!(BuildingEpd::decode(&[]).is_none());
}

#[test]
fn outputs_are_compared_field_by_field() {
    let base = BuildingPartEPD {
        date: "d".into(),
        building: "b".into(),
        building_part_id: "p".into(),
        a14_gwp: 1,
    };
    assert!(base.same_output(&base.clone()));
    let mut other = base.clone();
    other.date = "e".into();
    assert!(!base.same_output(&other));
    let mut other = base.clone();
    other.building = "c".into();
    assert!(!base.same_output(&other));
    let mut other = base.clone();
    other.building_part_id = "q".into();
    assert!(!base.same_output(&other));
    let mut other = base.clone();
    other.a14_gwp = 2;
    assert!(!base.same_output(&other));
    assert_ne!(base, other);
}

#[test]
fn concrete_outputs_compare_as_the_numbers_do() {
    let with = |gwp: f64| ConcreteEpd {
        description: "d".into(),
        factory: "f".into(),
        a13_gwp: gwp.to_bits(),
    };
    assert!(with(1.5).same_output(&with(1.5)));
    assert!(!with(1.5).same_output(&with(1.5000000000000002)));
    assert!(with(0.0).same_output(&with(-0.0)));
    assert!(!with(f64::NAN).same_output(&with(f64::NAN)));
    assert!(with(f64::INFINITY).same_output(&with(f64::INFINITY)));
    assert!(!with(f64::INFINITY).same_output(&with(f64::NEG_INFINITY)));
    let mut other = with(1.5);
    other.factory = "g".into();
    assert!(!with(1.5).same_output(&other));
    let mut other = with(1.5);
    other.description = "e".into();
    assert!(!with(1.5).same_output(&other));
    assert_eq!(with(2.0), with(2.0));
}
