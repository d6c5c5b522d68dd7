use zero2prod::id::{RequestId, Uuid};
use zero2prod::startup::MakeRequestUuid;

fn is_lower_hex(c: char) -> bool {
    c.is_ascii_digit() || ('a'..='f').contains(&c)
}

#[test]
fn text_of_a_known_identifier() {
    let id = Uuid { bits: 0xa1a2a3a4b1b2c1c2d1d2d3d4d5d6d7d8 };
    assert_eq!(id.to_text(), "a1a2a3a4-b1b2-c1c2-d1d2-d3d4d5d6d7d8");
}

#[test]
fn text_of_the_smallest_and_the_largest_identifier() {
    assert_eq!(Uuid { bits: 0 }.to_text(), "00000000-0000-0000-0000-000000000000");
    assert_eq!(Uuid { bits: u128::MAX }.to_text(), "ffffffff-ffff-ffff-ffff-ffffffffffff");
}

#[test]
fn text_puts_the_most_significant_digit_first() {
    assert_eq!(Uuid { bits: 1 }.to_text(), "00000000-0000-0000-0000-000000000001");
    assert_eq!(Uuid { bits: 0xb << 124 }.to_text(), "b0000000-0000-0000-0000-000000000000");
    assert_eq!(
        Uuid { bits: 0x0123456789abcdef0123456789abcdef }.to_text(),
        "01234567-89ab-cdef-0123-456789abcdef"
    );
}

#[test]
fn text_has_36_characters_with_hyphens_at_their_places() {
    for bits in [0u128, 1, 0xdead_beef, u128::MAX, 0x4000_8000_0000_0000_0000] {
        let text = Uuid { bits }.to_text();
        let chars: Vec<char> = text.chars().collect();
        assert_eq!(chars.len(), 36);
        for (i, c) in chars.iter().enumerate() {
            if i == 8 || i == 13 || i == 18 || i == 23 {
                assert_eq!(*c, '-');
            } else {
                assert!(is_lower_hex(*c));
            }
            assert!((32..127).contains(&(*c as u32)));
        }
    }
}

#[test]
fn new_v4_sets_version_and_variant() {
    for _ in 0..200 {
        let id = Uuid::new_v4();
        assert_eq!((id.bits >> 76) & 0xf, 4);
        assert_eq!((id.bits >> 62) & 0x3, 2);
        let text = id.to_text();
        assert_eq!(text.as_bytes()[14], b'4');
        assert!(matches!(text.as_bytes()[19], b'8' | b'9' | b'a' | b'b'));
    }
}

#[test]
fn new_v4_does_not_repeat_itself() {
    let mut seen = std::collections::HashSet::new();
    for _ in 0..1000 {
        assert!(seen.insert(Uuid::new_v4().bits));
    }
}

#[test]
fn make_request_id_never_fails() {
    let mut maker = MakeRequestUuid;
    let mut seen = std::collections::HashSet::new();
    for _ in 0..100 {
        let id = maker.make_request_id();
        let id = match id {
            Some(id) => id,
            None => panic!("no request id"),
        };
        assert_eq!((id.uuid.bits >> 76) & 0xf, 4);
        assert!(seen.insert(id.uuid.bits));
    }
}

#[test]
fn header_value_is_the_text_of_the_identifier() {
    let uuid = Uuid { bits: 0x67e55044_10b1_426f_9247_bb680e5fe0c8 };
    let id = RequestId::new(uuid);
    assert_eq!(id.uuid, uuid);
    assert_eq!(id.header_value(), "67e55044-10b1-426f-9247-bb680e5fe0c8");
    assert_eq!(id.header_value(), uuid.to_text());
}
