use mc_scoreboards::diagnostics::{format_uuid, Diagnostic};
use mc_scoreboards::text::to_hex;

#[test]
fn hexadecimal_rendering() {
    assert_eq!(to_hex(0, 0), "");
    assert_eq!(to_hex(0, 4), "0000");
    assert_eq!(to_hex(0xabc, 4), "0abc");
    assert_eq!(to_hex(0x12345, 4), "2345");
    assert_eq!(to_hex(255, 2), "ff");
    assert_eq!(to_hex(0x0123456789abcdef, 16), "0123456789abcdef");
    assert_eq!(to_hex(u128::MAX, 32), "ffffffffffffffffffffffffffffffff");
}

#[test]
fn uuid_spelling() {
    assert_eq!(format_uuid(0), "00000000-0000-0000-0000-000000000000");
    assert_eq!(
        format_uuid(0x11111111_1111_1111_1111_111111111111),
        "11111111-1111-1111-1111-111111111111"
    );
    assert_eq!(
        format_uuid(0x936da01f_9abd_4d9d_80c7_02af85c822a8),
        "936da01f-9abd-4d9d-80c7-02af85c822a8"
    );
    assert_eq!(format_uuid(u128::MAX), "ffffffff-ffff-ffff-ffff-ffffffffffff");
}

#[test]
fn uuid_spelling_agrees_with_the_uuid_crate() {
    for value in [
        0u128,
        1,
        0x0123456789abcdef_fedcba9876543210,
        0x550e8400_e29b_41d4_a716_446655440000,
        u128::MAX - 1,
    ] {
        assert_eq!(format_uuid(value), uuid::Uuid::from_u128(value).to_string());
    }
}

#[test]
fn diagnostic_messages() {
    assert_eq!(
        Diagnostic::UnreadableEntry { error: "busy".to_string() }.message(),
        "Failed to get file from stats directory: busy"
    );
    assert_eq!(
        Diagnostic::Skipped { path: "stats/readme.txt".to_string() }.message(),
        "Skipping stats/readme.txt"
    );
    assert_eq!(
        Diagnostic::UndecodableStem { stem: "a\u{fffd}".to_string() }.message(),
        "Failed to convert filestem a\u{fffd} into string"
    );
    assert_eq!(
        Diagnostic::InvalidUuid { stem: "nobody".to_string() }.message(),
        "Failed to get uuid from nobody"
    );
    assert_eq!(
        Diagnostic::ParseFailed {
            player_name: "Alice".to_string(),
            player_uuid: 0x11111111_1111_1111_1111_111111111111,
            error: "EOF while parsing a value".to_string(),
        }
        .message(),
        "Error parsing stats file for Alice (11111111-1111-1111-1111-111111111111): EOF while parsing a value"
    );
    assert_eq!(
        Diagnostic::LegacyFormat { player_name: "Alice".to_string() }.message(),
        "Alice still has the old stat format. Skipping..."
    );
    assert_eq!(
        Diagnostic::UnparsedStat { stat: "broken".to_string(), translation: "Broken".to_string() }
            .message(),
        "Could not parse stat: broken (Broken)"
    );
}
