use fontmeta::face::{AxisRecord, NameRecord};
use fontmeta::font::{
    decode_names, platform_from_id, platforms_given, variation_axes_from, vertical_metrics, FontError, Name,
    VariationAxis,
};
use fontmeta::language::{language, Platform};
use fontmeta::name_id::NameId;
use fontmeta::text::{be_units_of, decode_name};

fn record(platform_id: Option<u16>, language_id: u16, name_id: u16, payload: &[u8]) -> NameRecord {
    NameRecord {
        platform_id,
        encoding_id: 1,
        language_id,
        name_id,
        payload: payload.to_vec(),
    }
}

#[test]
fn name_id_one_is_family() {
    assert_eq!(NameId::from(1u16), NameId::Family);
    assert_eq!(NameId::from(0u16), NameId::CopyrightNotice);
    assert_eq!(NameId::from(6u16), NameId::PostScriptName);
    assert_eq!(NameId::from(25u16), NameId::VariationsPostScriptNamePrefix);
}

#[test]
fn name_id_unassigned_is_kept_verbatim() {
    assert_eq!(NameId::from(9999u16), NameId::Unrecognised(9999));
    assert_eq!(NameId::from(15u16), NameId::Unrecognised(15));
    assert_eq!(NameId::from(26u16), NameId::Unrecognised(26));
}

#[test]
fn windows_language_resolves() {
    assert_eq!(language(Some(Platform::Windows), 0x0409), "English (United States)");
    assert_eq!(language(Some(Platform::Windows), 0x0809), "English (United Kingdom)");
    assert_eq!(
        language(Some(Platform::Windows), 0x0804),
        "Chinese (People’s Republic of China)"
    );
    assert_eq!(language(Some(Platform::Windows), 0), "None");
}

#[test]
fn windows_language_unassigned_is_unknown() {
    assert_eq!(language(Some(Platform::Windows), 0x9999), "unknown");
}

#[test]
fn other_platforms_are_unresolved() {
    assert_eq!(language(Some(Platform::Macintosh), 0), "unknown (todo)");
    assert_eq!(language(Some(Platform::Macintosh), 0x0409), "unknown (todo)");
    assert_eq!(language(Some(Platform::Unicode), 0x0409), "unknown (todo)");
    assert_eq!(language(None, 0x0409), "unknown (todo)");
}

#[test]
fn platform_ids_map_to_platforms() {
    assert_eq!(platform_from_id(0), Some(Platform::Unicode));
    assert_eq!(platform_from_id(1), Some(Platform::Macintosh));
    assert_eq!(platform_from_id(3), Some(Platform::Windows));
    assert_eq!(platform_from_id(4), Some(Platform::Custom));
    assert_eq!(platform_from_id(5), None);
    assert_eq!(Platform::Windows.label(), "Windows");
}

#[test]
fn utf16_payload_round_trips() {
    assert_eq!(decode_name(&[0x00, 0x48, 0x00, 0x69]), Some("Hi".to_string()));
    assert_eq!(decode_name(&[0x00, 0xE9]), Some("é".to_string()));
}

#[test]
fn utf16_surrogate_pair_decodes() {
    let bytes = [0x00, 0x41, 0xD8, 0x3D, 0xDE, 0x00];
    assert_eq!(decode_name(&bytes), Some("A\u{1F600}".to_string()));
}

#[test]
fn utf16_unpaired_surrogate_fails() {
    assert_eq!(decode_name(&[0x00, 0x41, 0xD8, 0x00]), None);
    assert_eq!(decode_name(&[0x00, 0x41, 0xDC, 0x00, 0x00, 0x42]), None);
}

#[test]
fn invalid_utf8_gets_replacement_character() {
    let decoded = decode_name(b"ab\xFFcd").unwrap();
    assert_eq!(decoded, "ab\u{FFFD}cd");
    assert_eq!(decoded.chars().nth(2), Some('\u{FFFD}'));
}

#[test]
fn odd_length_payload_is_utf8() {
    assert_eq!(decode_name(&[0x00, 0x41, 0x42]), Some("\u{0}AB".to_string()));
    assert_eq!(decode_name(b"Regular"), Some("Regular".to_string()));
}

#[test]
fn empty_payload_is_empty_text() {
    assert_eq!(decode_name(&[]), Some(String::new()));
}

#[test]
fn units_are_big_endian() {
    assert_eq!(be_units_of(&[0x12, 0x34, 0xAB, 0xCD, 0x01]), vec![0x1234, 0xABCD]);
}

#[test]
fn name_record_decodes_every_field() {
    let rec = record(Some(3), 0x0409, 1, &[0x00, 0x46, 0x00, 0x6F, 0x00, 0x6F]);
    let n = Name::try_from(&rec).unwrap();
    assert_eq!(n.name_id, NameId::Family);
    assert_eq!(n.name, "Foo");
    assert_eq!(n.platform_id, Some(Platform::Windows));
    assert_eq!(n.language, "English (United States)");
    assert_eq!(n.encoding_id, 1);
    assert_eq!(n.language_id, 0x0409);
}

#[test]
fn macintosh_record_is_unresolved() {
    let rec = record(Some(1), 0, 4, b"Foo Bold");
    let n = Name::try_from(&rec).unwrap();
    assert_eq!(n.name, "Foo Bold");
    assert_eq!(n.name_id, NameId::FullName);
    assert_eq!(n.platform_id, Some(Platform::Macintosh));
    assert_eq!(n.language, "unknown (todo)");
}

#[test]
fn bad_record_aborts_all_names() {
    let good = record(Some(3), 0x0409, 1, &[0x00, 0x41]);
    let bad = record(Some(3), 0x0409, 2, &[0x00, 0x41, 0xD8, 0x00]);
    assert_eq!(decode_names(&vec![good, bad]).unwrap_err(), FontError::InvalidName);
    let good = record(Some(3), 0x0409, 1, &[0x00, 0x41]);
    let names = decode_names(&vec![good]).unwrap();
    assert_eq!(names.len(), 1);
    assert_eq!(names[0].name, "A");
}

#[test]
fn axis_keeps_tag_and_values() {
    let raw = AxisRecord {
        tag: u32::from_be_bytes(*b"wght"),
        min_value_bits: 100.0f32.to_bits(),
        default_value_bits: 400.0f32.to_bits(),
        max_value_bits: 900.0f32.to_bits(),
        name_id: 256,
        hidden: false,
    };
    let axis = VariationAxis::from(raw);
    assert_eq!(axis.tag.as_deref(), Some("wght"));
    assert_eq!(f32::from_bits(axis.min_value_bits), 100.0);
    assert_eq!(f32::from_bits(axis.default_value_bits), 400.0);
    assert_eq!(f32::from_bits(axis.max_value_bits), 900.0);
    assert_eq!(axis.name_id, 256);
    assert!(!axis.hidden);
}

#[test]
fn null_tag_is_absent() {
    let raw = AxisRecord {
        tag: 0,
        min_value_bits: 0,
        default_value_bits: 0,
        max_value_bits: 0,
        name_id: 1,
        hidden: true,
    };
    let axes = variation_axes_from(&vec![raw]);
    assert_eq!(axes.len(), 1);
    assert!(axes[0].tag.is_none());
    assert!(axes[0].hidden);
}

#[test]
fn vertical_metrics_all_or_none() {
    assert_eq!(
        vertical_metrics(Some(500), Some(-500), Some(0)),
        (Some(500), Some(-500), Some(1000), Some(0))
    );
    assert_eq!(vertical_metrics(Some(500), None, Some(0)), (None, None, None, None));
    assert_eq!(vertical_metrics(None, None, None), (None, None, None, None));
}

#[test]
fn platforms_given_checks_only_the_named_ids() {
    let recs = vec![record(None, 0, 2, b"x"), record(Some(3), 0x0409, 1, &[0x00, 0x41])];
    assert!(platforms_given(&recs, 1, 16));
    assert!(!platforms_given(&recs, 2, 2));
}

#[test]
fn empty_record_decodes_to_empty_name() {
    let n = Name::try_from(&record(Some(3), 0x0409, 1, &[])).unwrap();
    assert_eq!(n.name, "");
}
