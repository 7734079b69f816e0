//! Per-font metadata records and the collection of all fonts in a file.
use vstd::prelude::*;
use crate::face::{
    AxisRecord, AxisRecordView, NameRecord, NameRecordView, ascender_at, ascender_of,
    axes_view, axis_records_at, axis_records_of, declared_collection_size, descender_at,
    descender_of, family_name_at, family_name_of, is_bold_at, is_bold_of, is_italic_at,
    is_italic_of, is_oblique_at, is_oblique_of, is_regular_at, is_regular_of, is_weight_label,
    is_width_label, line_gap_at, line_gap_of, name_records_at, name_records_of, parses_at,
    platforms_known, post_script_name_at, post_script_name_of, records_view,
    strikeout_text_at, strikeout_text_of, subscript_text_at, subscript_text_of,
    superscript_text_at, superscript_text_of, tag_chars, tag_text, text_view,
    underline_text_at, underline_text_of, units_per_em_at, units_per_em_of,
    vertical_ascender_at, vertical_ascender_of, vertical_descender_at, vertical_descender_of,
    vertical_line_gap_at, vertical_line_gap_of, weight_label_at, weight_label_of,
    width_label_at, width_label_of, x_height_at, x_height_of,
};
use crate::language::{language, language_label, Platform};
use crate::name_id::{name_id_of, NameId};
use crate::text::{decode_name, lemma_decoded_text_unique, name_decodes, name_decodes_to};

verus! {

/// Why an extraction failed.
#[derive(Debug, Clone, Copy, PartialEq, Eq, Structural)]
pub enum FontError {
    /// The font at this index of the file has no usable table directory.
    CannotParse(u32),
    /// A UTF-16 name payload holds an unpaired surrogate.
    InvalidName,
}

/// The platform that an assigned platform id stands for.
pub open spec fn platform_of(id: u16) -> Option<Platform> {
    match id {
        0 => Some(Platform::Unicode),
        1 => Some(Platform::Macintosh),
        2 => Some(Platform::Iso),
        3 => Some(Platform::Windows),
        4 => Some(Platform::Custom),
        _ => None,
    }
}

pub fn platform_from_id(id: u16) -> (r: Option<Platform>)
    ensures
        r == platform_of(id),
{
    match id {
        0 => Some(Platform::Unicode),
        1 => Some(Platform::Macintosh),
        2 => Some(Platform::Iso),
        3 => Some(Platform::Windows),
        4 => Some(Platform::Custom),
        _ => None,
    }
}

/// One decoded entry of the naming table.
#[derive(Debug)]
pub struct Name {
    pub name_id: NameId,
    pub name: String,
    pub platform_id: Option<Platform>,
    pub language: &'static str,
    pub encoding_id: u16,
    pub language_id: u16,
}

/// Whether `n` is what the raw record `rec` decodes to.
pub open spec fn name_of_record(rec: NameRecordView, n: Name) -> bool {
    &&& n.name_id == name_id_of(rec.3)
    &&& name_decodes_to(rec.4, n.name@)
    &&& n.platform_id == (match rec.0 {
        Some(p) => platform_of(p),
        None => None,
    })
    &&& n.language == language_label(n.platform_id, rec.2)
    &&& n.encoding_id == rec.1
    &&& n.language_id == rec.2
}

/// Whether every payload of `recs` decodes.
pub open spec fn all_names_decode(recs: Seq<NameRecordView>) -> bool {
    forall|i: int| 0 <= i < recs.len() ==> name_decodes(#[trigger] recs[i].4)
}

impl Name {
    /// Decodes one raw record; fails only on a broken UTF-16 payload.
    pub fn try_from(record: &NameRecord) -> (r: Result<Name, FontError>)
        ensures
            r is Ok <==> name_decodes(record.payload@),
            r matches Ok(n) ==> name_of_record(record.view_of(), n),
            r matches Err(e) ==> e == FontError::InvalidName,
            record.payload@.len() == 0 ==> (r matches Ok(n) && n.name@.len() == 0),
    {
        let text = match decode_name(record.payload.as_slice()) {
            Some(t) => t,
            None => return Err(FontError::InvalidName),
        };
        let platform_id = match record.platform_id {
            Some(p) => platform_from_id(p),
            None => None,
        };
        Ok(Name {
            name_id: NameId::from(record.name_id),
            name: text,
            platform_id,
            language: language(platform_id, record.language_id),
            encoding_id: record.encoding_id,
            language_id: record.language_id,
        })
    }
}

/// Decodes every record in order, stopping at the first one that fails.
pub fn decode_names(records: &Vec<NameRecord>) -> (r: Result<Vec<Name>, FontError>)
    ensures
        r is Ok <==> all_names_decode(records_view(records@)),
        r matches Ok(ns) ==> ns@.len() == records@.len() && forall|i: int|
            0 <= i < records@.len() ==> name_of_record(
                #[trigger] records_view(records@)[i],
                ns@[i],
            ),
        r matches Err(e) ==> e == FontError::InvalidName,
{
    let mut names: Vec<Name> = Vec::new();
    let mut i: usize = 0;
    while i < records.len()
        invariant
            i <= records@.len(),
            names@.len() == i,
            forall|j: int| 0 <= j < i ==> name_decodes(#[trigger] records_view(records@)[j].4),
            forall|j: int|
                0 <= j < i ==> name_of_record(#[trigger] records_view(records@)[j], names@[j]),
        decreases records@.len() - i,
    {
        match Name::try_from(&records[i]) {
            Ok(n) => names.push(n),
            Err(e) => {
                assert(!name_decodes(records_view(records@)[i as int].4));
                return Err(e);
            },
        }
        i += 1;
    }
    Ok(names)
}

/// One variation axis of a variable font. The three values are kept as the
/// IEEE-754 bit patterns of the `f32` numbers that ttf-parser gives, which
/// widens the minimum and maximum to take in the default.
#[derive(Debug)]
pub struct VariationAxis {
    /// The axis tag, absent for the null tag.
    pub tag: Option<String>,
    pub min_value_bits: u32,
    pub default_value_bits: u32,
    pub max_value_bits: u32,
    /// A name id of the naming table, not resolved.
    pub name_id: u16,
    pub hidden: bool,
}

/// Whether `a` is the axis that record `raw` describes.
pub open spec fn axis_of_record(raw: AxisRecordView, a: VariationAxis) -> bool {
    &&& (raw.0 == 0 ==> a.tag is None)
    &&& (raw.0 != 0 ==> (a.tag matches Some(t) && t@ == tag_chars(raw.0)))
    &&& a.min_value_bits == raw.1
    &&& a.default_value_bits == raw.2
    &&& a.max_value_bits == raw.3
    &&& a.name_id == raw.4
    &&& a.hidden == raw.5
}

impl VariationAxis {
    pub fn from(raw: AxisRecord) -> (r: VariationAxis)
        ensures
            axis_of_record(raw.view_of(), r),
    {
        VariationAxis {
            tag: if raw.tag == 0 {
                None
            } else {
                Some(tag_text(raw.tag))
            },
            min_value_bits: raw.min_value_bits,
            default_value_bits: raw.default_value_bits,
            max_value_bits: raw.max_value_bits,
            name_id: raw.name_id,
            hidden: raw.hidden,
        }
    }
}

/// Converts every axis record, keeping the declaration order.
pub fn variation_axes_from(records: &Vec<AxisRecord>) -> (r: Vec<VariationAxis>)
    ensures
        r@.len() == records@.len(),
        forall|i: int|
            0 <= i < records@.len() ==> axis_of_record(#[trigger] axes_view(records@)[i], r@[i]),
{
    let mut axes: Vec<VariationAxis> = Vec::new();
    let mut i: usize = 0;
    while i < records.len()
        invariant
            i <= records@.len(),
            axes@.len() == i,
            forall|j: int|
                0 <= j < i ==> axis_of_record(#[trigger] axes_view(records@)[j], axes@[j]),
        decreases records@.len() - i,
    {
        axes.push(VariationAxis::from(records[i]));
        i += 1;
    }
    axes
}

/// The four vertical metrics made from the vertical header's ascender,
/// descender and line gap: all present or all absent.
pub open spec fn vertical_spec(ascender: Option<i16>, descender: Option<i16>, line_gap: Option<i16>) -> (
    Option<i16>,
    Option<i16>,
    Option<i16>,
    Option<i16>,
) {
    match (ascender, descender, line_gap) {
        (Some(a), Some(d), Some(g)) => (Some(a), Some(d), Some(a.wrapping_sub(d)), Some(g)),
        _ => (None, None, None, None),
    }
}

/// The four vertical metrics: all present when the vertical header gives an
/// ascender, a descender and a line gap, all absent otherwise. The height is
/// the ascender minus the descender, in 16-bit wrapping arithmetic.
pub fn vertical_metrics(ascender: Option<i16>, descender: Option<i16>, line_gap: Option<i16>) -> (r:
    (Option<i16>, Option<i16>, Option<i16>, Option<i16>))
    ensures
        r == vertical_spec(ascender, descender, line_gap),
{
    match (ascender, descender, line_gap) {
        (Some(a), Some(d), Some(g)) => (Some(a), Some(d), Some(a.wrapping_sub(d)), Some(g)),
        _ => (None, None, None, None),
    }
}

/// The metadata of one font program.
#[derive(Debug)]
pub struct Font {
    /// Every record of the naming table, in table order.
    pub names: Vec<Name>,
    pub family_name: Option<String>,
    pub post_script_name: Option<String>,
    pub is_regular: bool,
    pub is_italic: bool,
    pub is_bold: bool,
    pub is_oblique: bool,
    /// Whether the font declares at least one variation axis.
    pub is_variable: bool,
    /// The weight class, by the name of its category.
    pub weight: String,
    /// The width class, by the name of its category.
    pub width: String,
    pub ascender: i16,
    pub descender: i16,
    /// The ascender minus the descender.
    pub height: i16,
    pub line_gap: i16,
    /// The vertical metrics, present only with a vertical header table.
    pub vertical_ascender: Option<i16>,
    pub vertical_descender: Option<i16>,
    pub vertical_height: Option<i16>,
    pub vertical_line_gap: Option<i16>,
    pub units_per_em: Option<u16>,
    pub x_height: Option<i16>,
    /// The special metrics, each in the textual form of its record.
    pub underline_metrics: Option<String>,
    pub strikeout_metrics: Option<String>,
    pub subscript_metrics: Option<String>,
    pub superscript_metrics: Option<String>,
    pub variation_axes: Vec<VariationAxis>,
}

impl Font {
    /// The four vertical metrics are present together or absent together.
    pub open spec fn vertical_all_or_none(&self) -> bool {
        &&& self.vertical_ascender is Some <==> self.vertical_descender is Some
        &&& self.vertical_ascender is Some <==> self.vertical_height is Some
        &&& self.vertical_ascender is Some <==> self.vertical_line_gap is Some
    }

    /// How the fields of a font relate to each other.
    pub open spec fn wf(&self) -> bool {
        &&& self.height == self.ascender.wrapping_sub(self.descender)
        &&& self.vertical_all_or_none()
        &&& (self.vertical_height matches Some(h) ==> h
            == self.vertical_ascender->Some_0.wrapping_sub(self.vertical_descender->Some_0))
        &&& self.is_variable <==> self.variation_axes@.len() > 0
        &&& self.units_per_em matches Some(u) ==> 16 <= u <= 16384
        &&& is_weight_label(self.weight@)
        &&& is_width_label(self.width@)
    }

    /// Extracts the metadata of font `index` of `input`. The family and
    /// PostScript names are left out where a record that ttf-parser would read
    /// for them has no assigned platform.
    pub fn from_bytes(input: &[u8], index: u32) -> (r: Result<Font, FontError>)
        ensures
            r is Ok <==> font_ok(input@, index),
            r matches Err(e) ==> e == font_error(input@, index),
            r matches Ok(f) ==> font_matches(input@, index, f),
            input@.len() < 12 ==> r == Err::<Font, FontError>(FontError::CannotParse(index)),
    {
        let records = match name_records_at(input, index) {
            Some(v) => v,
            None => return Err(FontError::CannotParse(index)),
        };
        let names = match decode_names(&records) {
            Ok(n) => n,
            Err(e) => return Err(e),
        };
        let axis_records = match axis_records_at(input, index) {
            Some(v) => v,
            None => return Err(FontError::CannotParse(index)),
        };
        let is_regular = match is_regular_at(input, index) {
            Some(v) => v,
            None => return Err(FontError::CannotParse(index)),
        };
        let is_italic = match is_italic_at(input, index) {
            Some(v) => v,
            None => return Err(FontError::CannotParse(index)),
        };
        let is_bold = match is_bold_at(input, index) {
            Some(v) => v,
            None => return Err(FontError::CannotParse(index)),
        };
        let is_oblique = match is_oblique_at(input, index) {
            Some(v) => v,
            None => return Err(FontError::CannotParse(index)),
        };
        let ascender = match ascender_at(input, index) {
            Some(v) => v,
            None => return Err(FontError::CannotParse(index)),
        };
        let descender = match descender_at(input, index) {
            Some(v) => v,
            None => return Err(FontError::CannotParse(index)),
        };
        let line_gap = match line_gap_at(input, index) {
            Some(v) => v,
            None => return Err(FontError::CannotParse(index)),
        };
        let vertical_ascender = match vertical_ascender_at(input, index) {
            Some(v) => v,
            None => return Err(FontError::CannotParse(index)),
        };
        let vertical_descender = match vertical_descender_at(input, index) {
            Some(v) => v,
            None => return Err(FontError::CannotParse(index)),
        };
        let vertical_line_gap = match vertical_line_gap_at(input, index) {
            Some(v) => v,
            None => return Err(FontError::CannotParse(index)),
        };
        let x_height = match x_height_at(input, index) {
            Some(v) => v,
            None => return Err(FontError::CannotParse(index)),
        };
        let units_per_em = match units_per_em_at(input, index) {
            Some(v) => v,
            None => return Err(FontError::CannotParse(index)),
        };
        let weight_label = match weight_label_at(input, index) {
            Some(v) => v,
            None => return Err(FontError::CannotParse(index)),
        };
        let width_label = match width_label_at(input, index) {
            Some(v) => v,
            None => return Err(FontError::CannotParse(index)),
        };
        let underline_text = match underline_text_at(input, index) {
            Some(v) => v,
            None => return Err(FontError::CannotParse(index)),
        };
        let strikeout_text = match strikeout_text_at(input, index) {
            Some(v) => v,
            None => return Err(FontError::CannotParse(index)),
        };
        let subscript_text = match subscript_text_at(input, index) {
            Some(v) => v,
            None => return Err(FontError::CannotParse(index)),
        };
        let superscript_text = match superscript_text_at(input, index) {
            Some(v) => v,
            None => return Err(FontError::CannotParse(index)),
        };
        let family_name = if platforms_given(&records, 1, 16) {
            family_name_at(input, index)
        } else {
            None
        };
        let post_script_name = if platforms_given(&records, 6, 6) {
            post_script_name_at(input, index)
        } else {
            None
        };
        let (vertical_ascender, vertical_descender, vertical_height, vertical_line_gap) =
            vertical_metrics(vertical_ascender, vertical_descender, vertical_line_gap);
        let variation_axes = variation_axes_from(&axis_records);
        Ok(Font {
            names,
            family_name,
            post_script_name,
            is_regular,
            is_italic,
            is_bold,
            is_oblique,
            is_variable: variation_axes.len() > 0,
            weight: weight_label,
            width: width_label,
            ascender,
            descender,
            height: ascender.wrapping_sub(descender),
            line_gap,
            vertical_ascender,
            vertical_descender,
            vertical_height,
            vertical_line_gap,
            units_per_em,
            x_height,
            underline_metrics: underline_text,
            strikeout_metrics: strikeout_text,
            subscript_metrics: subscript_text,
            superscript_metrics: superscript_text,
            variation_axes,
        })
    }
}

/// Whether every record whose name id is `a` or `b` has an assigned platform.
pub fn platforms_given(records: &Vec<NameRecord>, a: u16, b: u16) -> (r: bool)
    ensures
        r == platforms_known(records_view(records@), a, b),
{
    let mut i: usize = 0;
    while i < records.len()
        invariant
            i <= records@.len(),
            forall|j: int|
                0 <= j < i ==> platform_known_at(records_view(records@), j, a, b),
        decreases records@.len() - i,
    {
        let id = records[i].name_id;
        if (id == a || id == b) && records[i].platform_id.is_none() {
            assert(!platform_known_at(records_view(records@), i as int, a, b));
            return false;
        }
        assert(platform_known_at(records_view(records@), i as int, a, b));
        i += 1;
    }
    assert forall|j: int| 0 <= j < records@.len() && (
        records_view(records@)[j].3 == a || records_view(records@)[j].3 == b)
        implies (#[trigger] records_view(records@)[j]).0 is Some by {
        assert(platform_known_at(records_view(records@), j, a, b));
    }
    true
}

pub open spec fn platform_known_at(recs: Seq<NameRecordView>, j: int, a: u16, b: u16) -> bool {
    (recs[j].3 == a || recs[j].3 == b) ==> recs[j].0 is Some
}

/// Whether font `index` of `data` can be extracted: it parses and every name
/// payload decodes.
pub open spec fn font_ok(data: Seq<u8>, index: u32) -> bool {
    parses_at(data, index) && all_names_decode(name_records_of(data, index))
}

/// The error with which the extraction of font `index` of `data` fails.
pub open spec fn font_error(data: Seq<u8>, index: u32) -> FontError {
    if !parses_at(data, index) {
        FontError::CannotParse(index)
    } else {
        FontError::InvalidName
    }
}

/// Whether `f` is the metadata extracted from font `index` of `data`.
pub open spec fn font_matches(data: Seq<u8>, index: u32, f: Font) -> bool {
    let recs = name_records_of(data, index);
    let axes = axis_records_of(data, index);
    &&& f.wf()
    &&& f.names@.len() == recs.len()
    &&& forall|j: int| 0 <= j < recs.len() ==> name_of_record(#[trigger] recs[j], f.names@[j])
    &&& f.variation_axes@.len() == axes.len()
    &&& forall|j: int|
        0 <= j < axes.len() ==> axis_of_record(#[trigger] axes[j], f.variation_axes@[j])
    &&& text_view(f.family_name) == (if platforms_known(recs, 1, 16) {
        family_name_of(data, index)
    } else {
        None
    })
    &&& text_view(f.post_script_name) == (if platforms_known(recs, 6, 6) {
        post_script_name_of(data, index)
    } else {
        None
    })
    &&& f.is_regular == is_regular_of(data, index)
    &&& f.is_italic == is_italic_of(data, index)
    &&& f.is_bold == is_bold_of(data, index)
    &&& f.is_oblique == is_oblique_of(data, index)
    &&& f.weight@ == weight_label_of(data, index)
    &&& f.width@ == width_label_of(data, index)
    &&& f.ascender == ascender_of(data, index)
    &&& f.descender == descender_of(data, index)
    &&& f.line_gap == line_gap_of(data, index)
    &&& (f.vertical_ascender, f.vertical_descender, f.vertical_height, f.vertical_line_gap)
        == vertical_spec(
        vertical_ascender_of(data, index),
        vertical_descender_of(data, index),
        vertical_line_gap_of(data, index),
    )
    &&& f.units_per_em == units_per_em_of(data, index)
    &&& f.x_height == x_height_of(data, index)
    &&& text_view(f.underline_metrics) == underline_text_of(data, index)
    &&& text_view(f.strikeout_metrics) == strikeout_text_of(data, index)
    &&& text_view(f.subscript_metrics) == subscript_text_of(data, index)
    &&& text_view(f.superscript_metrics) == superscript_text_of(data, index)
}

/// Decoding is a function of the record: two names decoded from one record
/// agree in every field.
pub proof fn lemma_name_decoding_deterministic(rec: NameRecordView, n1: Name, n2: Name)
    requires
        name_of_record(rec, n1),
        name_of_record(rec, n2),
    ensures
        n1.name_id == n2.name_id,
        n1.name@ == n2.name@,
        n1.platform_id == n2.platform_id,
        n1.language == n2.language,
        n1.encoding_id == n2.encoding_id,
        n1.language_id == n2.language_id,
{
    lemma_decoded_text_unique(rec.4, n1.name@, n2.name@);
}

/// How many fonts a file holds: the count a collection header declares, or
/// one for a file that is not a collection.
pub open spec fn font_count(b: Seq<u8>) -> nat {
    match declared_collection_size(b) {
        Some(n) => n as nat,
        None => 1,
    }
}

/// Whether `c` holds, in index order, the metadata of every font of `data`.
pub open spec fn collection_matches(data: Seq<u8>, c: Collection) -> bool {
    &&& c.fonts@.len() == font_count(data)
    &&& forall|i: u32|
        i < font_count(data) ==> #[trigger] font_matches(data, i, c.fonts@[i as int])
}

/// Whether extracting every font of `data` stops with `e`: the error of the
/// first font that cannot be extracted.
pub open spec fn collection_fails_with(data: Seq<u8>, e: FontError) -> bool {
    exists|k: u32|
        {
            &&& k < font_count(data)
            &&& !#[trigger] font_ok(data, k)
            &&& forall|j: u32| j < k ==> #[trigger] font_ok(data, j)
            &&& e == font_error(data, k)
        }
}

/// Two names agree in every field.
pub open spec fn same_name(n1: Name, n2: Name) -> bool {
    &&& n1.name_id == n2.name_id
    &&& n1.name@ == n2.name@
    &&& n1.platform_id == n2.platform_id
    &&& n1.language == n2.language
    &&& n1.encoding_id == n2.encoding_id
    &&& n1.language_id == n2.language_id
}

/// Two axes agree in every field.
pub open spec fn same_axis(a1: VariationAxis, a2: VariationAxis) -> bool {
    &&& text_view(a1.tag) == text_view(a2.tag)
    &&& a1.min_value_bits == a2.min_value_bits
    &&& a1.default_value_bits == a2.default_value_bits
    &&& a1.max_value_bits == a2.max_value_bits
    &&& a1.name_id == a2.name_id
    &&& a1.hidden == a2.hidden
}

/// Two fonts agree in every field.
pub open spec fn same_font(f1: Font, f2: Font) -> bool {
    &&& f1.names@.len() == f2.names@.len()
    &&& forall|j: int| 0 <= j < f1.names@.len() ==> same_name(#[trigger] f1.names@[j], f2.names@[j])
    &&& text_view(f1.family_name) == text_view(f2.family_name)
    &&& text_view(f1.post_script_name) == text_view(f2.post_script_name)
    &&& f1.is_regular == f2.is_regular
    &&& f1.is_italic == f2.is_italic
    &&& f1.is_bold == f2.is_bold
    &&& f1.is_oblique == f2.is_oblique
    &&& f1.is_variable == f2.is_variable
    &&& f1.weight@ == f2.weight@
    &&& f1.width@ == f2.width@
    &&& f1.ascender == f2.ascender
    &&& f1.descender == f2.descender
    &&& f1.height == f2.height
    &&& f1.line_gap == f2.line_gap
    &&& f1.vertical_ascender == f2.vertical_ascender
    &&& f1.vertical_descender == f2.vertical_descender
    &&& f1.vertical_height == f2.vertical_height
    &&& f1.vertical_line_gap == f2.vertical_line_gap
    &&& f1.units_per_em == f2.units_per_em
    &&& f1.x_height == f2.x_height
    &&& text_view(f1.underline_metrics) == text_view(f2.underline_metrics)
    &&& text_view(f1.strikeout_metrics) == text_view(f2.strikeout_metrics)
    &&& text_view(f1.subscript_metrics) == text_view(f2.subscript_metrics)
    &&& text_view(f1.superscript_metrics) == text_view(f2.superscript_metrics)
    &&& f1.variation_axes@.len() == f2.variation_axes@.len()
    &&& forall|j: int|
        0 <= j < f1.variation_axes@.len() ==> same_axis(
            #[trigger] f1.variation_axes@[j],
            f2.variation_axes@[j],
        )
}

/// Extraction is a function of the input: two fonts extracted from the same
/// font of the same bytes agree in every field.
pub proof fn lemma_font_extraction_deterministic(data: Seq<u8>, index: u32, f1: Font, f2: Font)
    requires
        font_matches(data, index, f1),
        font_matches(data, index, f2),
    ensures
        same_font(f1, f2),
{
    let recs = name_records_of(data, index);
    assert forall|j: int| 0 <= j < f1.names@.len() implies same_name(
        #[trigger] f1.names@[j],
        f2.names@[j],
    ) by {
        assert(name_of_record(recs[j], f1.names@[j]));
        assert(name_of_record(recs[j], f2.names@[j]));
        lemma_name_decoding_deterministic(recs[j], f1.names@[j], f2.names@[j]);
    }
    let axes = axis_records_of(data, index);
    assert forall|j: int| 0 <= j < f1.variation_axes@.len() implies same_axis(
        #[trigger] f1.variation_axes@[j],
        f2.variation_axes@[j],
    ) by {
        assert(axis_of_record(axes[j], f1.variation_axes@[j]));
        assert(axis_of_record(axes[j], f2.variation_axes@[j]));
    }
}

/// Extracting a file twice gives the same result: the same fonts in the same
/// order, or the same error (which of the two comes is fixed by
/// `Collection::from_bytes`, `Ok` exactly when every font can be extracted).
pub proof fn lemma_collection_extraction_deterministic(data: Seq<u8>, c1: Collection, c2: Collection, e1: FontError, e2: FontError)
    ensures
        collection_matches(data, c1) && collection_matches(data, c2) ==> forall|i: int|
            0 <= i < c1.fonts@.len() ==> same_font(#[trigger] c1.fonts@[i], c2.fonts@[i]),
        collection_fails_with(data, e1) && collection_fails_with(data, e2) ==> e1 == e2,
{
    if collection_matches(data, c1) && collection_matches(data, c2) {
        assert forall|i: int| 0 <= i < c1.fonts@.len() implies same_font(
            #[trigger] c1.fonts@[i],
            c2.fonts@[i],
        ) by {
            assert(font_matches(data, i as u32, c1.fonts@[(i as u32) as int]));
            assert(font_matches(data, i as u32, c2.fonts@[(i as u32) as int]));
            lemma_font_extraction_deterministic(data, i as u32, c1.fonts@[i], c2.fonts@[i]);
        }
    }
    if collection_fails_with(data, e1) && collection_fails_with(data, e2) {
        let k1 = choose|k: u32|
            {
                &&& k < font_count(data)
                &&& !#[trigger] font_ok(data, k)
                &&& forall|j: u32| j < k ==> #[trigger] font_ok(data, j)
                &&& e1 == font_error(data, k)
            };
        let k2 = choose|k: u32|
            {
                &&& k < font_count(data)
                &&& !#[trigger] font_ok(data, k)
                &&& forall|j: u32| j < k ==> #[trigger] font_ok(data, j)
                &&& e2 == font_error(data, k)
            };
        assert(k1 == k2) by {
            if k1 < k2 {
                assert(font_ok(data, k1));
            } else if k2 < k1 {
                assert(font_ok(data, k2));
            }
        }
    }
}

/// The metadata of every font in one file.
#[derive(Debug)]
pub struct Collection {
    pub fonts: Vec<Font>,
}

impl Collection {
    /// Extracts every font of `input` in index order; the first font that
    /// fails ends the extraction with its error.
    pub fn from_bytes(input: &[u8]) -> (r: Result<Collection, FontError>)
        ensures
            r is Ok <==> forall|i: u32| i < font_count(input@) ==> #[trigger] font_ok(input@, i),
            r matches Ok(c) ==> collection_matches(input@, c),
            r matches Err(e) ==> collection_fails_with(input@, e),
            declared_collection_size(input@) is None ==> (r matches Ok(c) ==> c.fonts@.len() == 1),
            declared_collection_size(input@) matches Some(n) ==> (r matches Ok(c)
                ==> c.fonts@.len() == n),
            input@.len() < 12 ==> r == Err::<Collection, FontError>(FontError::CannotParse(0)),
    {
        let count: u32 = match ttf_parser::fonts_in_collection(input) {
            Some(n) => n,
            None => 1,
        };
        let mut fonts: Vec<Font> = Vec::new();
        let mut ix: u32 = 0;
        while ix < count
            invariant
                count as nat == font_count(input@),
                ix <= count,
                fonts@.len() == ix,
                forall|j: u32| j < ix ==> #[trigger] font_ok(input@, j),
                forall|j: u32| j < ix ==> #[trigger] font_matches(input@, j, fonts@[j as int]),
                input@.len() < 12 ==> ix == 0 && count == 1,
            decreases count - ix,
        {
            let f = match Font::from_bytes(input, ix) {
                Ok(f) => f,
                Err(e) => {
                    assert(!font_ok(input@, ix));
                    return Err(e);
                },
            };
            let ghost before = fonts@;
            fonts.push(f);
            assert forall|j: u32| j < ix + 1 implies #[trigger] font_matches(
                input@,
                j,
                fonts@[j as int],
            ) by {
                if j < ix {
                    assert(fonts@[j as int] == before[j as int]);
                }
            }
            ix += 1;
        }
        Ok(Collection { fonts })
    }
}

} // verus!
