//! Human-readable labels for the language of a name record.
use vstd::prelude::*;

verus! {

/// The platform a name record was written for.
#[derive(Debug, Clone, Copy, PartialEq, Eq, Structural)]
pub enum Platform {
    Unicode,
    Macintosh,
    Iso,
    Windows,
    Custom,
}

impl Platform {
    /// The platform's label as written in the output.
    pub open spec fn spec_label(self) -> &'static str {
        match self {
            Platform::Unicode => "Unicode",
            Platform::Macintosh => "Macintosh",
            Platform::Iso => "Iso",
            Platform::Windows => "Windows",
            Platform::Custom => "Custom",
        }
    }

    pub fn label(&self) -> (r: &'static str)
        ensures
            r == self.spec_label(),
    {
        match self {
            Platform::Unicode => "Unicode",
            Platform::Macintosh => "Macintosh",
            Platform::Iso => "Iso",
            Platform::Windows => "Windows",
            Platform::Custom => "Custom",
        }
    }
}

/// The label of a Windows language id, as the OpenType naming table lists
/// it; ids that the table does not list are "unknown".
pub open spec fn windows_language_name(language_id: u16) -> &'static str {
    match language_id {
        0 => "None",
        0x0436 => "Afrikaans (South Africa)",
        0x041C => "Albanian (Albania)",
        0x0484 => "Alsatian (France)",
        0x045E => "Amharic (Ethiopia)",
        0x1401 => "Arabic (Algeria)",
        0x3C01 => "Arabic (Bahrain)",
        0x0C01 => "Arabic (Egypt)",
        0x0801 => "Arabic (Iraq)",
        0x2C01 => "Arabic (Jordan)",
        0x3401 => "Arabic (Kuwait)",
        0x3001 => "Arabic (Lebanon)",
        0x1001 => "Arabic (Libya)",
        0x1801 => "Arabic (Morocco)",
        0x2001 => "Arabic (Oman)",
        0x4001 => "Arabic (Qatar)",
        0x0401 => "Arabic (Saudi Arabia)",
        0x2801 => "Arabic (Syria)",
        0x1C01 => "Arabic (Tunisia)",
        0x3801 => "Arabic (U.A.E.)",
        0x2401 => "Arabic (Yemen)",
        0x042B => "Armenian (Armenia)",
        0x044D => "Assamese (India)",
        0x082C => "Azeri (Cyrillic) (Azerbaijan)",
        0x042C => "Azeri (Latin) (Azerbaijan)",
        0x046D => "Bashkir (Russia)",
        0x042D => "Basque (Basque)",
        0x0423 => "Belarusian (Belarus)",
        0x0845 => "Bengali (Bangladesh)",
        0x0445 => "Bengali (India)",
        0x201A => "Bosnian (Cyrillic) (Bosnia and Herzegovina)",
        0x141A => "Bosnian (Latin) (Bosnia and Herzegovina)",
        0x047E => "Breton (France)",
        0x0402 => "Bulgarian (Bulgaria)",
        0x0403 => "Catalan (Catalan)",
        0x0C04 => "Chinese (Hong Kong S.A.R.)",
        0x1404 => "Chinese (Macao S.A.R.)",
        0x0804 => "Chinese (People’s Republic of China)",
        0x1004 => "Chinese (Singapore)",
        0x0404 => "Chinese (Taiwan)",
        0x0483 => "Corsican (France)",
        0x041A => "Croatian (Croatia)",
        0x101A => "Croatian (Latin) (Bosnia and Herzegovina)",
        0x0405 => "Czech (Czech Republic)",
        0x0406 => "Danish (Denmark)",
        0x048C => "Dari (Afghanistan)",
        0x0465 => "Divehi (Maldives)",
        0x0813 => "Dutch (Belgium)",
        0x0413 => "Dutch (Netherlands)",
        0x0C09 => "English (Australia)",
        0x2809 => "English (Belize)",
        0x1009 => "English (Canada)",
        0x2409 => "English (Caribbean)",
        0x4009 => "English (India)",
        0x1809 => "English (Ireland)",
        0x2009 => "English (Jamaica)",
        0x4409 => "English (Malaysia)",
        0x1409 => "English (New Zealand)",
        0x3409 => "English (Republic of the Philippines)",
        0x4809 => "English (Singapore)",
        0x1C09 => "English (South Africa)",
        0x2C09 => "English (Trinidad and Tobago)",
        0x0809 => "English (United Kingdom)",
        0x0409 => "English (United States)",
        0x3009 => "English (Zimbabwe)",
        0x0425 => "Estonian (Estonia)",
        0x0438 => "Faroese (Faroe Islands)",
        0x0464 => "Filipino (Philippines)",
        0x040B => "Finnish (Finland)",
        0x080C => "French (Belgium)",
        0x0C0C => "French (Canada)",
        0x040C => "French (France)",
        0x140c => "French (Luxembourg)",
        0x180C => "French (Principality of Monaco)",
        0x100C => "French (Switzerland)",
        0x0462 => "Frisian (Netherlands)",
        0x0456 => "Galician (Galician)",
        0x0437 => "Georgian (Georgia)",
        0x0C07 => "German (Austria)",
        0x0407 => "German (Germany)",
        0x1407 => "German (Liechtenstein)",
        0x1007 => "German (Luxembourg)",
        0x0807 => "German (Switzerland)",
        0x0408 => "Greek (Greece)",
        0x046F => "Greenlandic (Greenland)",
        0x0447 => "Gujarati (India)",
        0x0468 => "Hausa (Latin) (Nigeria)",
        0x040D => "Hebrew (Israel)",
        0x0439 => "Hindi (India)",
        0x040E => "Hungarian (Hungary)",
        0x040F => "Icelandic (Iceland)",
        0x0470 => "Igbo (Nigeria)",
        0x0421 => "Indonesian (Indonesia)",
        0x045D => "Inuktitut (Canada)",
        0x085D => "Inuktitut (Latin) (Canada)",
        0x083C => "Irish (Ireland)",
        0x0434 => "isiXhosa (South Africa)",
        0x0435 => "isiZulu (South Africa)",
        0x0410 => "Italian (Italy)",
        0x0810 => "Italian (Switzerland)",
        0x0411 => "Japanese (Japan)",
        0x044B => "Kannada (India)",
        0x043F => "Kazakh (Kazakhstan)",
        0x0453 => "Khmer (Cambodia)",
        0x0486 => "K’iche (Guatemala)",
        0x0487 => "Kinyarwanda (Rwanda)",
        0x0441 => "Kiswahili (Kenya)",
        0x0457 => "Konkani (India)",
        0x0412 => "Korean (Korea)",
        0x0440 => "Kyrgyz (Kyrgyzstan)",
        0x0454 => "Lao (Lao P.D.R.)",
        0x0426 => "Latvian (Latvia)",
        0x0427 => "Lithuanian (Lithuania)",
        0x082E => "Lower Sorbian (Germany)",
        0x046E => "Luxembourgish (Luxembourg)",
        0x042F => "Macedonian (FYROM) (Former Yugoslav Republic of Macedonia)",
        0x083E => "Malay (Brunei Darussalam)",
        0x043E => "Malay (Malaysia)",
        0x044C => "Malayalam (India)",
        0x043A => "Maltese (Malta)",
        0x0481 => "Maori (New Zealand)",
        0x047A => "Mapudungun (Chile)",
        0x044E => "Marathi (India)",
        0x047C => "Mohawk (Mohawk)",
        0x0450 => "Mongolian (Cyrillic) (Mongolia)",
        0x0850 => "Mongolian (Traditional) (People’s Republic of China)",
        0x0461 => "Nepali (Nepal)",
        0x0414 => "Norwegian (Bokmal) (Norway)",
        0x0814 => "Norwegian (Nynorsk) (Norway)",
        0x0482 => "Occitan (France)",
        0x0448 => "Odia (formerly Oriya) (India)",
        0x0463 => "Pashto (Afghanistan)",
        0x0415 => "Polish (Poland)",
        0x0416 => "Portuguese (Brazil)",
        0x0816 => "Portuguese (Portugal)",
        0x0446 => "Punjabi (India)",
        0x046B => "Quechua (Bolivia)",
        0x086B => "Quechua (Ecuador)",
        0x0C6B => "Quechua (Peru)",
        0x0418 => "Romanian (Romania)",
        0x0417 => "Romansh (Switzerland)",
        0x0419 => "Russian (Russia)",
        0x243B => "Sami (Inari) (Finland)",
        0x103B => "Sami (Lule) (Norway)",
        0x143B => "Sami (Lule) (Sweden)",
        0x0C3B => "Sami (Northern) (Finland)",
        0x043B => "Sami (Northern) (Norway)",
        0x083B => "Sami (Northern) (Sweden)",
        0x203B => "Sami (Skolt) (Finland)",
        0x183B => "Sami (Southern) (Norway)",
        0x1C3B => "Sami (Southern) (Sweden)",
        0x044F => "Sanskrit (India)",
        0x1C1A => "Serbian (Cyrillic) (Bosnia and Herzegovina)",
        0x0C1A => "Serbian (Cyrillic) (Serbia)",
        0x181A => "Serbian (Latin) (Bosnia and Herzegovina)",
        0x081A => "Serbian (Latin) (Serbia)",
        0x046C => "Sesotho sa Leboa (South Africa)",
        0x0432 => "Setswana (South Africa)",
        0x045B => "Sinhala (Sri Lanka)",
        0x041B => "Slovak (Slovakia)",
        0x0424 => "Slovenian (Slovenia)",
        0x2C0A => "Spanish (Argentina)",
        0x400A => "Spanish (Bolivia)",
        0x340A => "Spanish (Chile)",
        0x240A => "Spanish (Colombia)",
        0x140A => "Spanish (Costa Rica)",
        0x1C0A => "Spanish (Dominican Republic)",
        0x300A => "Spanish (Ecuador)",
        0x440A => "Spanish (El Salvador)",
        0x100A => "Spanish (Guatemala)",
        0x480A => "Spanish (Honduras)",
        0x080A => "Spanish (Mexico)",
        0x4C0A => "Spanish (Nicaragua)",
        0x180A => "Spanish (Panama)",
        0x3C0A => "Spanish (Paraguay)",
        0x280A => "Spanish (Peru)",
        0x500A => "Spanish (Puerto Rico)",
        0x0C0A => "Spanish (Modern Sort) (Spain)",
        0x040A => "Spanish (Traditional Sort) (Spain)",
        0x540A => "Spanish (United States)",
        0x380A => "Spanish (Uruguay)",
        0x200A => "Spanish (Venezuela)",
        0x081D => "Sweden (Finland)",
        0x041D => "Swedish (Sweden)",
        0x045A => "Syriac (Syria)",
        0x0428 => "Tajik (Cyrillic) (Tajikistan)",
        0x085F => "Tamazight (Latin) (Algeria)",
        0x0449 => "Tamil (India)",
        0x0444 => "Tatar (Russia)",
        0x044A => "Telugu (India)",
        0x041E => "Thai (Thailand)",
        0x0451 => "Tibetan (PRC)",
        0x041F => "Turkish (Turkey)",
        0x0442 => "Turkmen (Turkmenistan)",
        0x0480 => "Uighur (PRC)",
        0x0422 => "Ukrainian (Ukraine)",
        0x042E => "Upper Sorbian (Germany)",
        0x0420 => "Urdu (Islamic Republic of Pakistan)",
        0x0843 => "Uzbek (Cyrillic) (Uzbekistan)",
        0x0443 => "Uzbek (Latin) (Uzbekistan)",
        0x042A => "Vietnamese (Vietnam)",
        0x0452 => "Welsh (United Kingdom)",
        0x0488 => "Wolof (Senegal)",
        0x0485 => "Yakut (Russia)",
        0x0478 => "Yi (PRC)",
        0x046A => "Yoruba (Nigeria)",
        _ => "unknown",
    }
}

/// The label of a record's language: Windows ids are looked up, every other
/// platform is left unresolved.
pub open spec fn language_label(platform: Option<Platform>, language_id: u16) -> &'static str {
    match platform {
        Some(Platform::Windows) => windows_language_name(language_id),
        _ => "unknown (todo)",
    }
}

fn windows_language(language_id: u16) -> (r: &'static str)
    ensures
        r == windows_language_name(language_id),
{
    match language_id {
        0 => "None",
        0x0436 => "Afrikaans (South Africa)",
        0x041C => "Albanian (Albania)",
        0x0484 => "Alsatian (France)",
        0x045E => "Amharic (Ethiopia)",
        0x1401 => "Arabic (Algeria)",
        0x3C01 => "Arabic (Bahrain)",
        0x0C01 => "Arabic (Egypt)",
        0x0801 => "Arabic (Iraq)",
        0x2C01 => "Arabic (Jordan)",
        0x3401 => "Arabic (Kuwait)",
        0x3001 => "Arabic (Lebanon)",
        0x1001 => "Arabic (Libya)",
        0x1801 => "Arabic (Morocco)",
        0x2001 => "Arabic (Oman)",
        0x4001 => "Arabic (Qatar)",
        0x0401 => "Arabic (Saudi Arabia)",
        0x2801 => "Arabic (Syria)",
        0x1C01 => "Arabic (Tunisia)",
        0x3801 => "Arabic (U.A.E.)",
        0x2401 => "Arabic (Yemen)",
        0x042B => "Armenian (Armenia)",
        0x044D => "Assamese (India)",
        0x082C => "Azeri (Cyrillic) (Azerbaijan)",
        0x042C => "Azeri (Latin) (Azerbaijan)",
        0x046D => "Bashkir (Russia)",
        0x042D => "Basque (Basque)",
        0x0423 => "Belarusian (Belarus)",
        0x0845 => "Bengali (Bangladesh)",
        0x0445 => "Bengali (India)",
        0x201A => "Bosnian (Cyrillic) (Bosnia and Herzegovina)",
        0x141A => "Bosnian (Latin) (Bosnia and Herzegovina)",
        0x047E => "Breton (France)",
        0x0402 => "Bulgarian (Bulgaria)",
        0x0403 => "Catalan (Catalan)",
        0x0C04 => "Chinese (Hong Kong S.A.R.)",
        0x1404 => "Chinese (Macao S.A.R.)",
        0x0804 => "Chinese (People’s Republic of China)",
        0x1004 => "Chinese (Singapore)",
        0x0404 => "Chinese (Taiwan)",
        0x0483 => "Corsican (France)",
        0x041A => "Croatian (Croatia)",
        0x101A => "Croatian (Latin) (Bosnia and Herzegovina)",
        0x0405 => "Czech (Czech Republic)",
        0x0406 => "Danish (Denmark)",
        0x048C => "Dari (Afghanistan)",
        0x0465 => "Divehi (Maldives)",
        0x0813 => "Dutch (Belgium)",
        0x0413 => "Dutch (Netherlands)",
        0x0C09 => "English (Australia)",
        0x2809 => "English (Belize)",
        0x1009 => "English (Canada)",
        0x2409 => "English (Caribbean)",
        0x4009 => "English (India)",
        0x1809 => "English (Ireland)",
        0x2009 => "English (Jamaica)",
        0x4409 => "English (Malaysia)",
        0x1409 => "English (New Zealand)",
        0x3409 => "English (Republic of the Philippines)",
        0x4809 => "English (Singapore)",
        0x1C09 => "English (South Africa)",
        0x2C09 => "English (Trinidad and Tobago)",
        0x0809 => "English (United Kingdom)",
        0x0409 => "English (United States)",
        0x3009 => "English (Zimbabwe)",
        0x0425 => "Estonian (Estonia)",
        0x0438 => "Faroese (Faroe Islands)",
        0x0464 => "Filipino (Philippines)",
        0x040B => "Finnish (Finland)",
        0x080C => "French (Belgium)",
        0x0C0C => "French (Canada)",
        0x040C => "French (France)",
        0x140c => "French (Luxembourg)",
        0x180C => "French (Principality of Monaco)",
        0x100C => "French (Switzerland)",
        0x0462 => "Frisian (Netherlands)",
        0x0456 => "Galician (Galician)",
        0x0437 => "Georgian (Georgia)",
        0x0C07 => "German (Austria)",
        0x0407 => "German (Germany)",
        0x1407 => "German (Liechtenstein)",
        0x1007 => "German (Luxembourg)",
        0x0807 => "German (Switzerland)",
        0x0408 => "Greek (Greece)",
        0x046F => "Greenlandic (Greenland)",
        0x0447 => "Gujarati (India)",
        0x0468 => "Hausa (Latin) (Nigeria)",
        0x040D => "Hebrew (Israel)",
        0x0439 => "Hindi (India)",
        0x040E => "Hungarian (Hungary)",
        0x040F => "Icelandic (Iceland)",
        0x0470 => "Igbo (Nigeria)",
        0x0421 => "Indonesian (Indonesia)",
        0x045D => "Inuktitut (Canada)",
        0x085D => "Inuktitut (Latin) (Canada)",
        0x083C => "Irish (Ireland)",
        0x0434 => "isiXhosa (South Africa)",
        0x0435 => "isiZulu (South Africa)",
        0x0410 => "Italian (Italy)",
        0x0810 => "Italian (Switzerland)",
        0x0411 => "Japanese (Japan)",
        0x044B => "Kannada (India)",
        0x043F => "Kazakh (Kazakhstan)",
        0x0453 => "Khmer (Cambodia)",
        0x0486 => "K’iche (Guatemala)",
        0x0487 => "Kinyarwanda (Rwanda)",
        0x0441 => "Kiswahili (Kenya)",
        0x0457 => "Konkani (India)",
        0x0412 => "Korean (Korea)",
        0x0440 => "Kyrgyz (Kyrgyzstan)",
        0x0454 => "Lao (Lao P.D.R.)",
        0x0426 => "Latvian (Latvia)",
        0x0427 => "Lithuanian (Lithuania)",
        0x082E => "Lower Sorbian (Germany)",
        0x046E => "Luxembourgish (Luxembourg)",
        0x042F => "Macedonian (FYROM) (Former Yugoslav Republic of Macedonia)",
        0x083E => "Malay (Brunei Darussalam)",
        0x043E => "Malay (Malaysia)",
        0x044C => "Malayalam (India)",
        0x043A => "Maltese (Malta)",
        0x0481 => "Maori (New Zealand)",
        0x047A => "Mapudungun (Chile)",
        0x044E => "Marathi (India)",
        0x047C => "Mohawk (Mohawk)",
        0x0450 => "Mongolian (Cyrillic) (Mongolia)",
        0x0850 => "Mongolian (Traditional) (People’s Republic of China)",
        0x0461 => "Nepali (Nepal)",
        0x0414 => "Norwegian (Bokmal) (Norway)",
        0x0814 => "Norwegian (Nynorsk) (Norway)",
        0x0482 => "Occitan (France)",
        0x0448 => "Odia (formerly Oriya) (India)",
        0x0463 => "Pashto (Afghanistan)",
        0x0415 => "Polish (Poland)",
        0x0416 => "Portuguese (Brazil)",
        0x0816 => "Portuguese (Portugal)",
        0x0446 => "Punjabi (India)",
        0x046B => "Quechua (Bolivia)",
        0x086B => "Quechua (Ecuador)",
        0x0C6B => "Quechua (Peru)",
        0x0418 => "Romanian (Romania)",
        0x0417 => "Romansh (Switzerland)",
        0x0419 => "Russian (Russia)",
        0x243B => "Sami (Inari) (Finland)",
        0x103B => "Sami (Lule) (Norway)",
        0x143B => "Sami (Lule) (Sweden)",
        0x0C3B => "Sami (Northern) (Finland)",
        0x043B => "Sami (Northern) (Norway)",
        0x083B => "Sami (Northern) (Sweden)",
        0x203B => "Sami (Skolt) (Finland)",
        0x183B => "Sami (Southern) (Norway)",
        0x1C3B => "Sami (Southern) (Sweden)",
        0x044F => "Sanskrit (India)",
        0x1C1A => "Serbian (Cyrillic) (Bosnia and Herzegovina)",
        0x0C1A => "Serbian (Cyrillic) (Serbia)",
        0x181A => "Serbian (Latin) (Bosnia and Herzegovina)",
        0x081A => "Serbian (Latin) (Serbia)",
        0x046C => "Sesotho sa Leboa (South Africa)",
        0x0432 => "Setswana (South Africa)",
        0x045B => "Sinhala (Sri Lanka)",
        0x041B => "Slovak (Slovakia)",
        0x0424 => "Slovenian (Slovenia)",
        0x2C0A => "Spanish (Argentina)",
        0x400A => "Spanish (Bolivia)",
        0x340A => "Spanish (Chile)",
        0x240A => "Spanish (Colombia)",
        0x140A => "Spanish (Costa Rica)",
        0x1C0A => "Spanish (Dominican Republic)",
        0x300A => "Spanish (Ecuador)",
        0x440A => "Spanish (El Salvador)",
        0x100A => "Spanish (Guatemala)",
        0x480A => "Spanish (Honduras)",
        0x080A => "Spanish (Mexico)",
        0x4C0A => "Spanish (Nicaragua)",
        0x180A => "Spanish (Panama)",
        0x3C0A => "Spanish (Paraguay)",
        0x280A => "Spanish (Peru)",
        0x500A => "Spanish (Puerto Rico)",
        0x0C0A => "Spanish (Modern Sort) (Spain)",
        0x040A => "Spanish (Traditional Sort) (Spain)",
        0x540A => "Spanish (United States)",
        0x380A => "Spanish (Uruguay)",
        0x200A => "Spanish (Venezuela)",
        0x081D => "Sweden (Finland)",
        0x041D => "Swedish (Sweden)",
        0x045A => "Syriac (Syria)",
        0x0428 => "Tajik (Cyrillic) (Tajikistan)",
        0x085F => "Tamazight (Latin) (Algeria)",
        0x0449 => "Tamil (India)",
        0x0444 => "Tatar (Russia)",
        0x044A => "Telugu (India)",
        0x041E => "Thai (Thailand)",
        0x0451 => "Tibetan (PRC)",
        0x041F => "Turkish (Turkey)",
        0x0442 => "Turkmen (Turkmenistan)",
        0x0480 => "Uighur (PRC)",
        0x0422 => "Ukrainian (Ukraine)",
        0x042E => "Upper Sorbian (Germany)",
        0x0420 => "Urdu (Islamic Republic of Pakistan)",
        0x0843 => "Uzbek (Cyrillic) (Uzbekistan)",
        0x0443 => "Uzbek (Latin) (Uzbekistan)",
        0x042A => "Vietnamese (Vietnam)",
        0x0452 => "Welsh (United Kingdom)",
        0x0488 => "Wolof (Senegal)",
        0x0485 => "Yakut (Russia)",
        0x0478 => "Yi (PRC)",
        0x046A => "Yoruba (Nigeria)",
        _ => "unknown",
    }
}

/// Resolves the language of a name record to its label.
pub fn language(platform_id: Option<Platform>, language_id: u16) -> (r: &'static str)
    ensures
        r == language_label(platform_id, language_id),
{
    match platform_id {
        Some(Platform::Windows) => windows_language(language_id),
        _ => "unknown (todo)",
    }
}

/// Only Windows language ids are resolved: on every other platform, and
/// where the platform is unknown, the label is "unknown (todo)" whatever the id.
pub proof fn lemma_non_windows_unresolved(platform: Option<Platform>, language_id: u16)
    requires
        platform != Some(Platform::Windows),
    ensures
        language_label(platform, language_id) == "unknown (todo)",
{
}

} // verus!
