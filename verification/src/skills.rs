//! Localized skill text rows.

use vstd::prelude::*;

verus! {

/// The languages the localization pipeline keeps text for.
#[derive(Clone, Copy, PartialEq, Eq, Debug)]
pub enum Language {
    Chs,
    Cht,
    De,
    En,
    Es,
    Fr,
    Id,
    Jp,
    Kr,
    Pt,
    Ru,
    Th,
    Vi,
}

/// The lower-case storage code of a language.
pub open spec fn spec_language_code(language: Language) -> Seq<char> {
    match language {
        Language::Chs => "chs"@,
        Language::Cht => "cht"@,
        Language::De => "de"@,
        Language::En => "en"@,
        Language::Es => "es"@,
        Language::Fr => "fr"@,
        Language::Id => "id"@,
        Language::Jp => "jp"@,
        Language::Kr => "kr"@,
        Language::Pt => "pt"@,
        Language::Ru => "ru"@,
        Language::Th => "th"@,
        Language::Vi => "vi"@,
    }
}

impl Language {
    /// Renders the language as its lower-case storage code.
    pub fn code(&self) -> (s: String)
        ensures
            s@ == spec_language_code(*self),
    {
        match self {
            Language::Chs => "chs".to_owned(),
            Language::Cht => "cht".to_owned(),
            Language::De => "de".to_owned(),
            Language::En => "en".to_owned(),
            Language::Es => "es".to_owned(),
            Language::Fr => "fr".to_owned(),
            Language::Id => "id".to_owned(),
            Language::Jp => "jp".to_owned(),
            Language::Kr => "kr".to_owned(),
            Language::Pt => "pt".to_owned(),
            Language::Ru => "ru".to_owned(),
            Language::Th => "th".to_owned(),
            Language::Vi => "vi".to_owned(),
        }
    }
}

/// One localized skill name row, keyed by skill identifier and
/// language.
#[derive(Clone, PartialEq, Eq, Debug)]
pub struct DbSkillText {
    pub id: i32,
    pub language: Language,
    pub name: String,
}

} // verus!
