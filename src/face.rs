//! The parsed font face that ttf-parser provides, and the plain records that
//! the rest of the library reads out of it.
use vstd::prelude::*;
use ttf_parser::Font as Face;

verus! {

/// One record of the naming table, as stored in the font.
#[derive(Debug)]
pub struct NameRecord {
    /// The platform id, when it is one of the five assigned ones (0 to 4).
    pub platform_id: Option<u16>,
    pub encoding_id: u16,
    pub language_id: u16,
    pub name_id: u16,
    /// The raw text bytes of the record.
    pub payload: Vec<u8>,
}

/// One variation-axis record of the `fvar` table.
#[derive(Debug, Clone, Copy, PartialEq, Eq, Structural)]
pub struct AxisRecord {
    /// The four tag bytes, most significant first.
    pub tag: u32,
    /// The IEEE-754 bit pattern of the axis minimum.
    pub min_value_bits: u32,
    /// The IEEE-754 bit pattern of the axis default.
    pub default_value_bits: u32,
    /// The IEEE-754 bit pattern of the axis maximum.
    pub max_value_bits: u32,
    pub name_id: u16,
    pub hidden: bool,
}

/// The big-endian 32-bit value at byte `i` of `b`.
pub open spec fn be_u32_at(b: Seq<u8>, i: int) -> u32 {
    (b[i] as int * 0x1000000 + b[i + 1] as int * 0x10000 + b[i + 2] as int * 0x100
        + b[i + 3] as int) as u32
}

/// The font count that a TrueType collection header declares: the file
/// starts with the tag `ttcf`, and the count is the 32-bit value at byte 8.
/// `None` for anything that is not such a header.
pub open spec fn declared_collection_size(b: Seq<u8>) -> Option<u32> {
    if b.len() >= 12 && b[0] == 0x74 && b[1] == 0x74 && b[2] == 0x63 && b[3] == 0x66 {
        Some(be_u32_at(b, 8))
    } else {
        None
    }
}

/// Whether ttf-parser can build a face for font `index` of `data`: a table
/// directory with the required tables, inside the bounds of the data.
pub uninterp spec fn parses_at(data: Seq<u8>, index: u32) -> bool;

/// A name record as plain values: platform id, encoding id, language id,
/// name id and payload bytes.
pub type NameRecordView = (Option<u16>, u16, u16, u16, Seq<u8>);

/// An axis record as plain values: tag, the bit patterns of minimum, default
/// and maximum, name id and hidden flag.
pub type AxisRecordView = (u32, u32, u32, u32, u16, bool);

impl NameRecord {
    pub open spec fn view_of(self) -> NameRecordView {
        (self.platform_id, self.encoding_id, self.language_id, self.name_id, self.payload@)
    }
}

impl AxisRecord {
    pub open spec fn view_of(self) -> AxisRecordView {
        (
            self.tag,
            self.min_value_bits,
            self.default_value_bits,
            self.max_value_bits,
            self.name_id,
            self.hidden,
        )
    }
}

pub open spec fn records_view(v: Seq<NameRecord>) -> Seq<NameRecordView> {
    v.map_values(|r: NameRecord| r.view_of())
}

pub open spec fn axes_view(v: Seq<AxisRecord>) -> Seq<AxisRecordView> {
    v.map_values(|a: AxisRecord| a.view_of())
}

/// The naming-table records of font `index` of `data`, in table order.
pub uninterp spec fn name_records_of(data: Seq<u8>, index: u32) -> Seq<NameRecordView>;

/// The variation-axis records of font `index` of `data`, in table order.
pub uninterp spec fn axis_records_of(data: Seq<u8>, index: u32) -> Seq<AxisRecordView>;

/// Every record whose name id is `a` or `b` has an assigned platform.
pub open spec fn platforms_known(recs: Seq<NameRecordView>, a: u16, b: u16) -> bool {
    forall|i: int|
        0 <= i < recs.len() && (recs[i].3 == a || recs[i].3 == b) ==> (#[trigger] recs[i]).0 is Some
}

/// The name of one of the nine width classes.
pub open spec fn is_width_label(s: Seq<char>) -> bool {
    ||| s == "UltraCondensed"@
    ||| s == "ExtraCondensed"@
    ||| s == "Condensed"@
    ||| s == "SemiCondensed"@
    ||| s == "Normal"@
    ||| s == "SemiExpanded"@
    ||| s == "Expanded"@
    ||| s == "ExtraExpanded"@
    ||| s == "UltraExpanded"@
}

/// The name of one of the nine weight classes, or `Other(..)` for another
/// class value.
pub open spec fn is_weight_label(s: Seq<char>) -> bool {
    ||| s == "Thin"@
    ||| s == "ExtraLight"@
    ||| s == "Light"@
    ||| s == "Normal"@
    ||| s == "Medium"@
    ||| s == "SemiBold"@
    ||| s == "Bold"@
    ||| s == "ExtraBold"@
    ||| s == "Black"@
    ||| (s.len() > 7 && s.subrange(0, 6) == "Other("@)
}

/// The characters of a four-byte tag, most significant byte first, each byte
/// read as a Latin-1 character.
pub open spec fn tag_chars(tag: u32) -> Seq<char> {
    seq![
        (tag / 0x1000000) as u8 as char,
        (tag / 0x10000 % 0x100) as u8 as char,
        (tag / 0x100 % 0x100) as u8 as char,
        (tag % 0x100) as u8 as char,
    ]
}


/// ttf_parser::fonts_in_collection reads the `ttcf` tag and the count that
/// follows the version field.
pub assume_specification[ ttf_parser::fonts_in_collection ](data: &[u8]) -> (r: Option<u32>)
    ensures
        r == declared_collection_size(data@),
;

/// A text that may be absent, as plain characters.
pub open spec fn text_view(o: Option<String>) -> Option<Seq<char>> {
    match o {
        Some(s) => Some(s@),
        None => None,
    }
}

/// The family name that ttf-parser gives for font `index` of `data`.
pub uninterp spec fn family_name_of(data: Seq<u8>, index: u32) -> Option<Seq<char>>;

/// The PostScript name that ttf-parser gives for font `index` of `data`.
pub uninterp spec fn post_script_name_of(data: Seq<u8>, index: u32) -> Option<Seq<char>>;

/// The OS/2 "regular" selection bit of font `index` of `data`.
pub uninterp spec fn is_regular_of(data: Seq<u8>, index: u32) -> bool;

/// Relies on ttf_parser::Font::from_data and ttf_parser::Font::is_regular: the OS/2 "regular" selection bit.
#[verifier::external_body]
pub(crate) fn is_regular_at(data: &[u8], index: u32) -> (r: Option<bool>)
    ensures
        r is Some <==> parses_at(data@, index),
        r matches Some(v) ==> v == is_regular_of(data@, index),
{
    Face::from_data(data, index).map(|face| face.is_regular())
}

/// The OS/2 "italic" selection bit of font `index` of `data`.
pub uninterp spec fn is_italic_of(data: Seq<u8>, index: u32) -> bool;

/// Relies on ttf_parser::Font::from_data and ttf_parser::Font::is_italic: the OS/2 "italic" selection bit.
#[verifier::external_body]
pub(crate) fn is_italic_at(data: &[u8], index: u32) -> (r: Option<bool>)
    ensures
        r is Some <==> parses_at(data@, index),
        r matches Some(v) ==> v == is_italic_of(data@, index),
{
    Face::from_data(data, index).map(|face| face.is_italic())
}

/// The OS/2 "bold" selection bit of font `index` of `data`.
pub uninterp spec fn is_bold_of(data: Seq<u8>, index: u32) -> bool;

/// Relies on ttf_parser::Font::from_data and ttf_parser::Font::is_bold: the OS/2 "bold" selection bit.
#[verifier::external_body]
pub(crate) fn is_bold_at(data: &[u8], index: u32) -> (r: Option<bool>)
    ensures
        r is Some <==> parses_at(data@, index),
        r matches Some(v) ==> v == is_bold_of(data@, index),
{
    Face::from_data(data, index).map(|face| face.is_bold())
}

/// The OS/2 "oblique" selection bit of font `index` of `data`.
pub uninterp spec fn is_oblique_of(data: Seq<u8>, index: u32) -> bool;

/// Relies on ttf_parser::Font::from_data and ttf_parser::Font::is_oblique: the OS/2 "oblique" selection bit.
#[verifier::external_body]
pub(crate) fn is_oblique_at(data: &[u8], index: u32) -> (r: Option<bool>)
    ensures
        r is Some <==> parses_at(data@, index),
        r matches Some(v) ==> v == is_oblique_of(data@, index),
{
    Face::from_data(data, index).map(|face| face.is_oblique())
}

/// The horizontal ascender of font `index` of `data`.
pub uninterp spec fn ascender_of(data: Seq<u8>, index: u32) -> i16;

/// Relies on ttf_parser::Font::from_data and ttf_parser::Font::ascender: the horizontal ascender.
#[verifier::external_body]
pub(crate) fn ascender_at(data: &[u8], index: u32) -> (r: Option<i16>)
    ensures
        r is Some <==> parses_at(data@, index),
        r matches Some(v) ==> v == ascender_of(data@, index),
{
    Face::from_data(data, index).map(|face| face.ascender())
}

/// The horizontal descender of font `index` of `data`.
pub uninterp spec fn descender_of(data: Seq<u8>, index: u32) -> i16;

/// Relies on ttf_parser::Font::from_data and ttf_parser::Font::descender: the horizontal descender.
#[verifier::external_body]
pub(crate) fn descender_at(data: &[u8], index: u32) -> (r: Option<i16>)
    ensures
        r is Some <==> parses_at(data@, index),
        r matches Some(v) ==> v == descender_of(data@, index),
{
    Face::from_data(data, index).map(|face| face.descender())
}

/// The horizontal line gap of font `index` of `data`.
pub uninterp spec fn line_gap_of(data: Seq<u8>, index: u32) -> i16;

/// Relies on ttf_parser::Font::from_data and ttf_parser::Font::line_gap: the horizontal line gap.
#[verifier::external_body]
pub(crate) fn line_gap_at(data: &[u8], index: u32) -> (r: Option<i16>)
    ensures
        r is Some <==> parses_at(data@, index),
        r matches Some(v) ==> v == line_gap_of(data@, index),
{
    Face::from_data(data, index).map(|face| face.line_gap())
}

/// The ascender of the `vhea` table of font `index` of `data`.
pub uninterp spec fn vertical_ascender_of(data: Seq<u8>, index: u32) -> Option<i16>;

/// Relies on ttf_parser::Font::from_data and ttf_parser::Font::vertical_ascender: the ascender of the `vhea` table.
#[verifier::external_body]
pub(crate) fn vertical_ascender_at(data: &[u8], index: u32) -> (r: Option<Option<i16>>)
    ensures
        r is Some <==> parses_at(data@, index),
        r matches Some(v) ==> v == vertical_ascender_of(data@, index),
{
    Face::from_data(data, index).map(|face| face.vertical_ascender())
}

/// The descender of the `vhea` table of font `index` of `data`.
pub uninterp spec fn vertical_descender_of(data: Seq<u8>, index: u32) -> Option<i16>;

/// Relies on ttf_parser::Font::from_data and ttf_parser::Font::vertical_descender: the descender of the `vhea` table.
#[verifier::external_body]
pub(crate) fn vertical_descender_at(data: &[u8], index: u32) -> (r: Option<Option<i16>>)
    ensures
        r is Some <==> parses_at(data@, index),
        r matches Some(v) ==> v == vertical_descender_of(data@, index),
{
    Face::from_data(data, index).map(|face| face.vertical_descender())
}

/// The line gap of the `vhea` table of font `index` of `data`.
pub uninterp spec fn vertical_line_gap_of(data: Seq<u8>, index: u32) -> Option<i16>;

/// Relies on ttf_parser::Font::from_data and ttf_parser::Font::vertical_line_gap: the line gap of the `vhea` table.
#[verifier::external_body]
pub(crate) fn vertical_line_gap_at(data: &[u8], index: u32) -> (r: Option<Option<i16>>)
    ensures
        r is Some <==> parses_at(data@, index),
        r matches Some(v) ==> v == vertical_line_gap_of(data@, index),
{
    Face::from_data(data, index).map(|face| face.vertical_line_gap())
}

/// The x height of an OS/2 table of version 2 or later of font `index` of `data`.
pub uninterp spec fn x_height_of(data: Seq<u8>, index: u32) -> Option<i16>;

/// Relies on ttf_parser::Font::from_data and ttf_parser::Font::x_height: the x height of an OS/2 table of version 2 or later.
#[verifier::external_body]
pub(crate) fn x_height_at(data: &[u8], index: u32) -> (r: Option<Option<i16>>)
    ensures
        r is Some <==> parses_at(data@, index),
        r matches Some(v) ==> v == x_height_of(data@, index),
{
    Face::from_data(data, index).map(|face| face.x_height())
}

/// The units per em of font `index` of `data`.
pub uninterp spec fn units_per_em_of(data: Seq<u8>, index: u32) -> Option<u16>;

/// Relies on ttf_parser::Font::from_data and ttf_parser::Font::units_per_em,
/// which is `None` unless the value lies in 16..=16384.
#[verifier::external_body]
pub(crate) fn units_per_em_at(data: &[u8], index: u32) -> (r: Option<Option<u16>>)
    ensures
        r is Some <==> parses_at(data@, index),
        r matches Some(v) ==> v == units_per_em_of(data@, index),
        r matches Some(v) ==> (v matches Some(u) ==> 16 <= u <= 16384),
{
    Face::from_data(data, index).map(|face| face.units_per_em())
}

/// The weight class label of font `index` of `data`.
pub uninterp spec fn weight_label_of(data: Seq<u8>, index: u32) -> Seq<char>;

/// Relies on ttf_parser::Font::from_data and ttf_parser::Font::weight, written
/// as its variant's name (`Other(n)` for a class outside the nine named ones).
#[verifier::external_body]
pub(crate) fn weight_label_at(data: &[u8], index: u32) -> (r: Option<String>)
    ensures
        r is Some <==> parses_at(data@, index),
        r matches Some(v) ==> v@ == weight_label_of(data@, index),
        r matches Some(v) ==> is_weight_label(v@),
{
    Face::from_data(data, index).map(|face| format!("{:?}", face.weight()))
}

/// The width class label of font `index` of `data`.
pub uninterp spec fn width_label_of(data: Seq<u8>, index: u32) -> Seq<char>;

/// Relies on ttf_parser::Font::from_data and ttf_parser::Font::width, written
/// as its variant's name.
#[verifier::external_body]
pub(crate) fn width_label_at(data: &[u8], index: u32) -> (r: Option<String>)
    ensures
        r is Some <==> parses_at(data@, index),
        r matches Some(v) ==> v@ == width_label_of(data@, index),
        r matches Some(v) ==> is_width_label(v@),
{
    Face::from_data(data, index).map(|face| format!("{:?}", face.width()))
}

/// The underline metrics of the `post` table of font `index` of `data`, in debug form.
pub uninterp spec fn underline_text_of(data: Seq<u8>, index: u32) -> Option<Seq<char>>;

/// Relies on ttf_parser::Font::from_data and ttf_parser::Font::underline_metrics:
/// the underline metrics of the `post` table, written in its debug form.
#[verifier::external_body]
pub(crate) fn underline_text_at(data: &[u8], index: u32) -> (r: Option<Option<String>>)
    ensures
        r is Some <==> parses_at(data@, index),
        r matches Some(v) ==> text_view(v) == underline_text_of(data@, index),
{
    Face::from_data(data, index).map(|face| face.underline_metrics().map(|m| format!("{:?}", m)))
}

/// The strikeout metrics of the OS/2 table of font `index` of `data`, in debug form.
pub uninterp spec fn strikeout_text_of(data: Seq<u8>, index: u32) -> Option<Seq<char>>;

/// Relies on ttf_parser::Font::from_data and ttf_parser::Font::strikeout_metrics:
/// the strikeout metrics of the OS/2 table, written in its debug form.
#[verifier::external_body]
pub(crate) fn strikeout_text_at(data: &[u8], index: u32) -> (r: Option<Option<String>>)
    ensures
        r is Some <==> parses_at(data@, index),
        r matches Some(v) ==> text_view(v) == strikeout_text_of(data@, index),
{
    Face::from_data(data, index).map(|face| face.strikeout_metrics().map(|m| format!("{:?}", m)))
}

/// The subscript metrics of the OS/2 table of font `index` of `data`, in debug form.
pub uninterp spec fn subscript_text_of(data: Seq<u8>, index: u32) -> Option<Seq<char>>;

/// Relies on ttf_parser::Font::from_data and ttf_parser::Font::subscript_metrics:
/// the subscript metrics of the OS/2 table, written in its debug form.
#[verifier::external_body]
pub(crate) fn subscript_text_at(data: &[u8], index: u32) -> (r: Option<Option<String>>)
    ensures
        r is Some <==> parses_at(data@, index),
        r matches Some(v) ==> text_view(v) == subscript_text_of(data@, index),
{
    Face::from_data(data, index).map(|face| face.subscript_metrics().map(|m| format!("{:?}", m)))
}

/// The superscript metrics of the OS/2 table of font `index` of `data`, in debug form.
pub uninterp spec fn superscript_text_of(data: Seq<u8>, index: u32) -> Option<Seq<char>>;

/// Relies on ttf_parser::Font::from_data and ttf_parser::Font::superscript_metrics:
/// the superscript metrics of the OS/2 table, written in its debug form.
#[verifier::external_body]
pub(crate) fn superscript_text_at(data: &[u8], index: u32) -> (r: Option<Option<String>>)
    ensures
        r is Some <==> parses_at(data@, index),
        r matches Some(v) ==> text_view(v) == superscript_text_of(data@, index),
{
    Face::from_data(data, index).map(|face| face.superscript_metrics().map(|m| format!("{:?}", m)))
}

/// Relies on ttf_parser::Font::from_data and ttf_parser::Font::names: the
/// records of the naming table of one font, each read out as plain values.
/// `Name::platform_id` only yields the five assigned platforms.
#[verifier::external_body]
pub(crate) fn name_records_at(data: &[u8], index: u32) -> (r: Option<Vec<NameRecord>>)
    ensures
        r is Some <==> parses_at(data@, index),
        data@.len() < 12 ==> r is None,
        r matches Some(v) ==> records_view(v@) == name_records_of(data@, index),
        r matches Some(v) ==> forall|i: int|
            0 <= i < v@.len() ==> (#[trigger] v@[i].platform_id matches Some(p) ==> p < 5),
{
    Face::from_data(data, index).map(|face| face.names().map(|n| NameRecord {
        platform_id: n.platform_id().map(|p| p as u16),
        encoding_id: n.encoding_id(),
        language_id: n.language_id(),
        name_id: n.name_id(),
        payload: n.name().to_vec(),
    }).collect())
}

/// Relies on ttf_parser::Font::from_data and ttf_parser::Font::variation_axes:
/// the axes of one font, in the order of its `fvar` table, read out as plain
/// values.
#[verifier::external_body]
pub(crate) fn axis_records_at(data: &[u8], index: u32) -> (r: Option<Vec<AxisRecord>>)
    ensures
        r is Some <==> parses_at(data@, index),
        r matches Some(v) ==> axes_view(v@) == axis_records_of(data@, index),
{
    Face::from_data(data, index).map(|face| face.variation_axes().map(|a| AxisRecord {
        tag: a.tag.0,
        min_value_bits: a.min_value.to_bits(),
        default_value_bits: a.def_value.to_bits(),
        max_value_bits: a.max_value.to_bits(),
        name_id: a.name_id,
        hidden: a.hidden,
    }).collect())
}

/// Relies on ttf_parser::Font::family_name: the typographic or plain family
/// name. It reads the platform of every record with name id 1 or 16 and
/// panics on one whose platform id is not assigned, so those records must
/// all have one.
#[verifier::external_body]
pub(crate) fn family_name_at(data: &[u8], index: u32) -> (r: Option<String>)
    requires
        parses_at(data@, index),
        platforms_known(name_records_of(data@, index), 1, 16),
    ensures
        text_view(r) == family_name_of(data@, index),
{
    Face::from_data(data, index).and_then(|face| face.family_name())
}

/// Relies on ttf_parser::Font::post_script_name: the PostScript name. It
/// reads the platform of every record with name id 6 and panics on one whose
/// platform id is not assigned, so those records must all have one.
#[verifier::external_body]
pub(crate) fn post_script_name_at(data: &[u8], index: u32) -> (r: Option<String>)
    requires
        parses_at(data@, index),
        platforms_known(name_records_of(data@, index), 6, 6),
    ensures
        text_view(r) == post_script_name_of(data@, index),
{
    Face::from_data(data, index).and_then(|face| face.post_script_name())
}

/// Relies on ttf_parser::Tag::to_chars: one Latin-1 character per tag byte.
#[verifier::external_body]
pub(crate) fn tag_text(tag: u32) -> (r: String)
    ensures
        r@ == tag_chars(tag),
{
    let c = ttf_parser::Tag(tag).to_chars();
    format!("{}{}{}{}", c[0], c[1], c[2], c[3])
}

} // verus!
