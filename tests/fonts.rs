use fontmeta::font::{Collection, Font, FontError};

fn be16(v: u16) -> [u8; 2] {
    v.to_be_bytes()
}

fn head_table(units_per_em: u16) -> Vec<u8> {
    let mut t = vec![0u8; 54];
    t[18..20].copy_from_slice(&be16(units_per_em));
    t
}

fn hhea_table(ascender: i16, descender: i16, line_gap: i16) -> Vec<u8> {
    let mut t = vec![0u8; 36];
    t[4..6].copy_from_slice(&ascender.to_be_bytes());
    t[6..8].copy_from_slice(&descender.to_be_bytes());
    t[8..10].copy_from_slice(&line_gap.to_be_bytes());
    t[34..36].copy_from_slice(&be16(1));
    t
}

fn maxp_table() -> Vec<u8> {
    vec![0x00, 0x00, 0x50, 0x00, 0x00, 0x01]
}

fn name_table(records: &[(u16, u16, u16, &[u8])]) -> Vec<u8> {
    let mut t = Vec::new();
    t.extend_from_slice(&be16(0));
    t.extend_from_slice(&be16(records.len() as u16));
    t.extend_from_slice(&be16((6 + 12 * records.len()) as u16));
    let mut storage = Vec::new();
    for (platform, language, name_id, text) in records {
        t.extend_from_slice(&be16(*platform));
        t.extend_from_slice(&be16(1));
        t.extend_from_slice(&be16(*language));
        t.extend_from_slice(&be16(*name_id));
        t.extend_from_slice(&be16(text.len() as u16));
        t.extend_from_slice(&be16(storage.len() as u16));
        storage.extend_from_slice(text);
    }
    t.extend_from_slice(&storage);
    t
}

fn fvar_table(axes: &[(&[u8; 4], i32, i32, i32)]) -> Vec<u8> {
    let mut t = Vec::new();
    t.extend_from_slice(&0x0001_0000u32.to_be_bytes());
    t.extend_from_slice(&be16(16));
    t.extend_from_slice(&be16(2));
    t.extend_from_slice(&be16(axes.len() as u16));
    t.extend_from_slice(&be16(20));
    t.extend_from_slice(&be16(0));
    t.extend_from_slice(&be16(0));
    for (i, (tag, min, def, max)) in axes.iter().enumerate() {
        t.extend_from_slice(*tag);
        t.extend_from_slice(&(min * 65536).to_be_bytes());
        t.extend_from_slice(&(def * 65536).to_be_bytes());
        t.extend_from_slice(&(max * 65536).to_be_bytes());
        t.extend_from_slice(&be16(0));
        t.extend_from_slice(&be16(256 + i as u16));
    }
    t
}

fn basic_tables() -> Vec<(&'static [u8; 4], Vec<u8>)> {
    vec![
        (b"head", head_table(1000)),
        (b"hhea", hhea_table(800, -200, 90)),
        (b"maxp", maxp_table()),
    ]
}

/// A font whose table offsets count from `base`, the position at which it
/// will stand in the file.
fn font_at(base: usize, tables: &[(&[u8; 4], Vec<u8>)]) -> Vec<u8> {
    let mut out = vec![0x00, 0x01, 0x00, 0x00];
    out.extend_from_slice(&be16(tables.len() as u16));
    out.extend_from_slice(&[0u8; 6]);
    let mut offset = base + 12 + 16 * tables.len();
    let mut data = Vec::new();
    for (tag, body) in tables {
        out.extend_from_slice(*tag);
        out.extend_from_slice(&[0u8; 4]);
        out.extend_from_slice(&(offset as u32).to_be_bytes());
        out.extend_from_slice(&(body.len() as u32).to_be_bytes());
        data.extend_from_slice(body);
        offset += body.len();
    }
    out.extend_from_slice(&data);
    out
}

fn font(tables: &[(&[u8; 4], Vec<u8>)]) -> Vec<u8> {
    font_at(0, tables)
}

fn collection(fonts: &[Vec<(&'static [u8; 4], Vec<u8>)>]) -> Vec<u8> {
    let header = 12 + 4 * fonts.len();
    let mut out = b"ttcf".to_vec();
    out.extend_from_slice(&0x0001_0000u32.to_be_bytes());
    out.extend_from_slice(&(fonts.len() as u32).to_be_bytes());
    let mut body = Vec::new();
    for tables in fonts {
        let base = header + body.len();
        out.extend_from_slice(&(base as u32).to_be_bytes());
        body.extend_from_slice(&font_at(base, tables));
    }
    out.extend_from_slice(&body);
    out
}

#[test]
fn single_font_gives_one_record() {
    let c = Collection::from_bytes(&font(&basic_tables())).unwrap();
    assert_eq!(c.fonts.len(), 1);
    let f = &c.fonts[0];
    assert_eq!(f.ascender, 800);
    assert_eq!(f.descender, -200);
    assert_eq!(f.height, 1000);
    assert_eq!(f.line_gap, 90);
    assert_eq!(f.units_per_em, Some(1000));
    assert_eq!(f.weight, "Normal");
    assert_eq!(f.width, "Normal");
    assert!(!f.is_bold && !f.is_italic && !f.is_regular && !f.is_oblique);
    assert_eq!(f.x_height, None);
    assert_eq!(f.strikeout_metrics, None);
    assert_eq!(f.underline_metrics, None);
    assert!(f.names.is_empty());
}

#[test]
fn collection_gives_one_record_per_font_in_order() {
    let mut second = basic_tables();
    second[1] = (b"hhea", hhea_table(700, -300, 0));
    let mut third = basic_tables();
    third[1] = (b"hhea", hhea_table(600, -100, 0));
    let data = collection(&[basic_tables(), second, third]);
    let c = Collection::from_bytes(&data).unwrap();
    assert_eq!(c.fonts.len(), 3);
    assert_eq!(c.fonts[0].ascender, 800);
    assert_eq!(c.fonts[1].ascender, 700);
    assert_eq!(c.fonts[2].ascender, 600);
}

#[test]
fn bad_font_in_collection_aborts_with_its_index() {
    let mut broken = basic_tables();
    broken.remove(0);
    let data = collection(&[basic_tables(), broken]);
    assert_eq!(Collection::from_bytes(&data).unwrap_err(), FontError::CannotParse(1));
    assert!(Font::from_bytes(&data, 0).is_ok());
    assert_eq!(Font::from_bytes(&data, 1).unwrap_err(), FontError::CannotParse(1));
    assert_eq!(Font::from_bytes(&data, 2).unwrap_err(), FontError::CannotParse(2));
}

#[test]
fn truncated_file_fails_at_index_zero() {
    let data = [0x00, 0x01, 0x00, 0x00];
    assert_eq!(Collection::from_bytes(&data).unwrap_err(), FontError::CannotParse(0));
    assert_eq!(Font::from_bytes(&data, 0).unwrap_err(), FontError::CannotParse(0));
    assert_eq!(Collection::from_bytes(&[]).unwrap_err(), FontError::CannotParse(0));
}

#[test]
fn missing_vertical_header_leaves_all_vertical_fields_out() {
    let f = Font::from_bytes(&font(&basic_tables()), 0).unwrap();
    assert_eq!(f.vertical_ascender, None);
    assert_eq!(f.vertical_descender, None);
    assert_eq!(f.vertical_height, None);
    assert_eq!(f.vertical_line_gap, None);
}

#[test]
fn vertical_header_gives_all_vertical_fields() {
    let mut tables = basic_tables();
    tables.push((b"vhea", hhea_table(500, -500, 20)));
    let f = Font::from_bytes(&font(&tables), 0).unwrap();
    assert_eq!(f.vertical_ascender, Some(500));
    assert_eq!(f.vertical_descender, Some(-500));
    assert_eq!(f.vertical_height, Some(1000));
    assert_eq!(f.vertical_line_gap, Some(20));
}

#[test]
fn names_are_decoded_in_order() {
    let mut tables = basic_tables();
    tables.push((
        b"name",
        name_table(&[
            (3, 0x0409, 1, &[0x00, 0x48, 0x00, 0x69]),
            (1, 0, 2, b"Bold"),
            (3, 0x9999, 9999, &[0x00, 0x58]),
        ]),
    ));
    let f = Font::from_bytes(&font(&tables), 0).unwrap();
    assert_eq!(f.names.len(), 3);
    assert_eq!(f.names[0].name, "Hi");
    assert_eq!(f.names[0].language, "English (United States)");
    assert_eq!(f.names[1].name, "Bold");
    assert_eq!(f.names[1].language, "unknown (todo)");
    assert_eq!(f.names[2].language, "unknown");
    assert_eq!(f.names[2].name_id, fontmeta::name_id::NameId::Unrecognised(9999));
    assert_eq!(f.family_name.as_deref(), Some("Hi"));
}

#[test]
fn broken_utf16_name_fails_the_font() {
    let mut tables = basic_tables();
    tables.push((b"name", name_table(&[(3, 0x0409, 1, &[0x00, 0x41, 0xD8, 0x00])])));
    let data = font(&tables);
    assert_eq!(Font::from_bytes(&data, 0).unwrap_err(), FontError::InvalidName);
    assert_eq!(Collection::from_bytes(&data).unwrap_err(), FontError::InvalidName);
}

#[test]
fn variable_font_lists_axes_in_order() {
    let mut tables = basic_tables();
    tables.push((b"fvar", fvar_table(&[(b"wght", 100, 400, 900), (b"wdth", 50, 100, 200)])));
    let f = Font::from_bytes(&font(&tables), 0).unwrap();
    assert!(f.is_variable);
    assert_eq!(f.variation_axes.len(), 2);
    assert_eq!(f.variation_axes[0].tag.as_deref(), Some("wght"));
    assert_eq!(f.variation_axes[1].tag.as_deref(), Some("wdth"));
    assert_eq!(f32::from_bits(f.variation_axes[0].min_value_bits), 100.0);
    assert_eq!(f32::from_bits(f.variation_axes[0].default_value_bits), 400.0);
    assert_eq!(f32::from_bits(f.variation_axes[0].max_value_bits), 900.0);
    assert_eq!(f.variation_axes[1].name_id, 257);
}

#[test]
fn variation_table_without_axes_is_not_variable() {
    let mut tables = basic_tables();
    tables.push((b"fvar", fvar_table(&[])));
    let f = Font::from_bytes(&font(&tables), 0).unwrap();
    assert!(!f.is_variable);
    assert!(f.variation_axes.is_empty());
}

#[test]
fn units_per_em_out_of_range_is_absent() {
    let mut tables = basic_tables();
    tables[0] = (b"head", head_table(8));
    let f = Font::from_bytes(&font(&tables), 0).unwrap();
    assert_eq!(f.units_per_em, None);
}

#[test]
fn extraction_is_repeatable() {
    let mut tables = basic_tables();
    tables.push((b"name", name_table(&[(3, 0x0409, 1, &[0x00, 0x48, 0x00, 0x69])])));
    tables.push((b"fvar", fvar_table(&[(b"wght", 100, 400, 900)])));
    let data = font(&tables);
    let first = format!("{:?}", Collection::from_bytes(&data).unwrap());
    let second = format!("{:?}", Collection::from_bytes(&data).unwrap());
    assert_eq!(first, second);
}

#[test]
fn record_without_platform_leaves_family_name_out() {
    let mut tables = basic_tables();
    tables.push((
        b"name",
        name_table(&[(7, 0, 1, &[0x00, 0x41]), (3, 0x0409, 6, &[0x00, 0x50])]),
    ));
    let f = Font::from_bytes(&font(&tables), 0).unwrap();
    assert_eq!(f.family_name, None);
    assert_eq!(f.post_script_name.as_deref(), Some("P"));
    assert_eq!(f.names.len(), 2);
    assert_eq!(f.names[0].platform_id, None);
    assert_eq!(f.names[0].language, "unknown (todo)");
}

#[test]
fn empty_collection_has_no_fonts() {
    let mut data = b"ttcf".to_vec();
    data.extend_from_slice(&[0x00, 0x01, 0x00, 0x00, 0x00, 0x00, 0x00, 0x00]);
    let c = Collection::from_bytes(&data).unwrap();
    assert!(c.fonts.is_empty());
}

#[test]
fn huge_declared_count_fails_at_index_zero() {
    let mut data = b"ttcf".to_vec();
    data.extend_from_slice(&[0x00, 0x01, 0x00, 0x00, 0xFF, 0xFF, 0xFF, 0xFF]);
    assert_eq!(Collection::from_bytes(&data).unwrap_err(), FontError::CannotParse(0));
}
