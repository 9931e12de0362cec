use kenseader::ids::{parse_uuid, uuid_or_nil, uuid_string};

#[test]
fn uuid_text_matches_the_uuid_crate() {
    for v in [0u128, 1, 0xffff_ffff_ffff_ffff_ffff_ffff_ffff_ffff, 0x550e_8400_e29b_41d4_a716_4466_5544_0000] {
        assert_eq!(uuid_string(v), uuid::Uuid::from_u128(v).to_string());
    }
    let random = uuid::Uuid::new_v4();
    assert_eq!(uuid_string(random.as_u128()), random.to_string());
}

#[test]
fn uuid_text_reads_back() {
    let v = 0x1234_5678_9abc_def0_0fed_cba9_8765_4321u128;
    assert_eq!(parse_uuid(&uuid_string(v)), Some(v));
    assert_eq!(parse_uuid("{12345678-9abc-def0-0fed-cba987654321}"), Some(v));
    assert_eq!(parse_uuid("nope"), None);
    assert_eq!(uuid_or_nil("nope"), 0);
    assert_eq!(uuid_or_nil(&uuid_string(5)), 5);
}

#[test]
fn distinct_uuids_are_written_differently() {
    let ids = [0u128, 1, 16, 1 << 64, (1 << 64) + 1, u128::MAX, u128::MAX - 1];
    for a in ids {
        for b in ids {
            assert_eq!(uuid_string(a) == uuid_string(b), a == b);
        }
    }
}
