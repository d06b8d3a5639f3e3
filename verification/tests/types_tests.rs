use gacha_stats::scores::{Region, ScoresParams};
use gacha_stats::skills::{DbSkillText, Language};

#[test]
fn region_codes_round_trip() {
    for region in [Region::NA, Region::EU, Region::Asia, Region::CN] {
        let code = region.code();
        assert_eq!(Region::from_code(&code), Some(region));
    }
    assert_eq!(Region::NA.code(), "na");
    assert_eq!(Region::EU.code(), "eu");
    assert_eq!(Region::Asia.code(), "asia");
    assert_eq!(Region::CN.code(), "cn");
    assert_eq!(Region::from_code(&"moon".to_owned()), None);
    assert_eq!(Region::from_code(&"NA".to_owned()), None);
}

#[test]
fn scores_params_carry_their_filters() {
    let params = ScoresParams {
        region: Some(Region::EU),
        query: Some("alice".to_owned()),
        limit: Some(20),
        offset: Some(40),
    };
    assert_eq!(params.region, Some(Region::EU));
    assert_eq!(params.query.as_deref(), Some("alice"));
    assert_eq!(params.limit, Some(20));
    assert_eq!(params.offset, Some(40));
}

#[test]
fn language_codes_are_lower_case() {
    assert_eq!(Language::Chs.code(), "chs");
    assert_eq!(Language::Cht.code(), "cht");
    assert_eq!(Language::De.code(), "de");
    assert_eq!(Language::En.code(), "en");
    assert_eq!(Language::Es.code(), "es");
    assert_eq!(Language::Fr.code(), "fr");
    assert_eq!(Language::Id.code(), "id");
    assert_eq!(Language::Jp.code(), "jp");
    assert_eq!(Language::Kr.code(), "kr");
    assert_eq!(Language::Pt.code(), "pt");
    assert_eq!(Language::Ru.code(), "ru");
    assert_eq!(Language::Th.code(), "th");
    assert_eq!(Language::Vi.code(), "vi");
}

#[test]
fn skill_text_rows_compare_by_fields() {
    let row = DbSkillText { id: 7, language: Language::En, name: "Sharpshooter".to_owned() };
    let same = DbSkillText { id: 7, language: Language::En, name: "Sharpshooter".to_owned() };
    let other = DbSkillText { id: 7, language: Language::Fr, name: "Tireur".to_owned() };
    assert_eq!(row, same);
    assert_ne!(row, other);
}
