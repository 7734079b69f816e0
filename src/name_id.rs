//! The semantic category of a naming-table record.
use vstd::prelude::*;

verus! {

/// What a name record describes, as given by its name id.
///
/// Ids outside the assigned set are kept verbatim in `Unrecognised`.
#[derive(Debug, Clone, Copy, PartialEq, Eq, Structural)]
pub enum NameId {
    CompatibleFull,
    CopyrightNotice,
    DarkBackgroundPallete,
    Description,
    Designer,
    DesignerURL,
    Family,
    FullName,
    License,
    LicenseURL,
    LightBackgroundPallete,
    Manufacturer,
    PostScriptCID,
    PostScriptName,
    SampleText,
    Subfamily,
    Trademark,
    TypographicFamily,
    TypographicSubfamily,
    UniqueID,
    VariationsPostScriptNamePrefix,
    VendorURL,
    Version,
    WWSFamily,
    WWSSubfamily,
    Unrecognised(u16),
}

/// The category that the OpenType naming table assigns to a raw name id.
pub open spec fn name_id_of(raw: u16) -> NameId {
    match raw {
        0 => NameId::CopyrightNotice,
        1 => NameId::Family,
        2 => NameId::Subfamily,
        3 => NameId::UniqueID,
        4 => NameId::FullName,
        5 => NameId::Version,
        6 => NameId::PostScriptName,
        7 => NameId::Trademark,
        8 => NameId::Manufacturer,
        9 => NameId::Designer,
        10 => NameId::Description,
        11 => NameId::VendorURL,
        12 => NameId::DesignerURL,
        13 => NameId::License,
        14 => NameId::LicenseURL,
        16 => NameId::TypographicFamily,
        17 => NameId::TypographicSubfamily,
        18 => NameId::CompatibleFull,
        19 => NameId::SampleText,
        20 => NameId::PostScriptCID,
        21 => NameId::WWSFamily,
        22 => NameId::WWSSubfamily,
        23 => NameId::LightBackgroundPallete,
        24 => NameId::DarkBackgroundPallete,
        25 => NameId::VariationsPostScriptNamePrefix,
        other => NameId::Unrecognised(other),
    }
}

impl From<u16> for NameId {
    fn from(raw: u16) -> (r: NameId) {
        match raw {
            0 => NameId::CopyrightNotice,
            1 => NameId::Family,
            2 => NameId::Subfamily,
            3 => NameId::UniqueID,
            4 => NameId::FullName,
            5 => NameId::Version,
            6 => NameId::PostScriptName,
            7 => NameId::Trademark,
            8 => NameId::Manufacturer,
            9 => NameId::Designer,
            10 => NameId::Description,
            11 => NameId::VendorURL,
            12 => NameId::DesignerURL,
            13 => NameId::License,
            14 => NameId::LicenseURL,
            16 => NameId::TypographicFamily,
            17 => NameId::TypographicSubfamily,
            18 => NameId::CompatibleFull,
            19 => NameId::SampleText,
            20 => NameId::PostScriptCID,
            21 => NameId::WWSFamily,
            22 => NameId::WWSSubfamily,
            23 => NameId::LightBackgroundPallete,
            24 => NameId::DarkBackgroundPallete,
            25 => NameId::VariationsPostScriptNamePrefix,
            other => NameId::Unrecognised(other),
        }
    }
}

impl vstd::std_specs::convert::FromSpecImpl<u16> for NameId {
    open spec fn obeys_from_spec() -> bool {
        true
    }

    open spec fn from_spec(raw: u16) -> NameId {
        name_id_of(raw)
    }
}

/// Every raw id maps to exactly one category, and an id outside the assigned
/// set is carried through unchanged rather than guessed.
pub proof fn lemma_name_id_total(raw: u16)
    ensures
        name_id_of(raw) is Unrecognised <==> (raw == 15 || raw > 25),
        name_id_of(raw) is Unrecognised ==> name_id_of(raw) == NameId::Unrecognised(raw),
{
}

} // verus!
