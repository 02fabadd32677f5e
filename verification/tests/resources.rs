use stracciatella::resources::ResourceVersion;

#[test]
fn it_works() {
    assert_eq!(2 + 2, 4);
}

#[test]
fn it_creates_resource_version_from_string_correctly() {
    assert_eq!(ResourceVersion::from_str("bla"), Err(String::from("Resource version bla is unknown")));
    assert_eq!(ResourceVersion::from_str("DUTCH"), Ok(ResourceVersion::DUTCH));
    assert_eq!(ResourceVersion::from_str("ENGLISH"), Ok(ResourceVersion::ENGLISH));
    assert_eq!(ResourceVersion::from_str("FRENCH"), Ok(ResourceVersion::FRENCH));
    assert_eq!(ResourceVersion::from_str("GERMAN"), Ok(ResourceVersion::GERMAN));
    assert_eq!(ResourceVersion::from_str("ITALIAN"), Ok(ResourceVersion::ITALIAN));
    assert_eq!(ResourceVersion::from_str("POLISH"), Ok(ResourceVersion::POLISH));
    assert_eq!(ResourceVersion::from_str("RUSSIAN"), Ok(ResourceVersion::RUSSIAN));
    assert_eq!(ResourceVersion::from_str("RUSSIAN_GOLD"), Ok(ResourceVersion::RUSSIAN_GOLD));
}

#[test]
fn it_displays_resource_version_correctly() {
    assert_eq!(ResourceVersion::DUTCH.to_string(), "DUTCH");
    assert_eq!(ResourceVersion::ENGLISH.to_string(), "ENGLISH");
    assert_eq!(ResourceVersion::FRENCH.to_string(), "FRENCH");
    assert_eq!(ResourceVersion::GERMAN.to_string(), "GERMAN");
    assert_eq!(ResourceVersion::ITALIAN.to_string(), "ITALIAN");
    assert_eq!(ResourceVersion::POLISH.to_string(), "POLISH");
    assert_eq!(ResourceVersion::RUSSIAN.to_string(), "RUSSIAN");
    assert_eq!(ResourceVersion::RUSSIAN_GOLD.to_string(), "RUSSIAN_GOLD");
}

#[test]
fn every_tag_reads_back_as_its_version() {
    let all = [
        ResourceVersion::DUTCH,
        ResourceVersion::ENGLISH,
        ResourceVersion::FRENCH,
        ResourceVersion::GERMAN,
        ResourceVersion::ITALIAN,
        ResourceVersion::POLISH,
        ResourceVersion::RUSSIAN,
        ResourceVersion::RUSSIAN_GOLD,
    ];
    for version in all.iter() {
        assert_eq!(ResourceVersion::from_str(version.as_str()), Ok(*version));
        assert_eq!(ResourceVersion::from_str(&version.to_string()).unwrap().to_string(), version.as_str());
    }
}

#[test]
fn tags_are_case_sensitive_and_exact() {
    assert_eq!(ResourceVersion::from_str("english"), Err(String::from("Resource version english is unknown")));
    assert_eq!(ResourceVersion::from_str("RUSSIAN_"), Err(String::from("Resource version RUSSIAN_ is unknown")));
    assert_eq!(ResourceVersion::from_str(" DUTCH"), Err(String::from("Resource version  DUTCH is unknown")));
    assert_eq!(ResourceVersion::from_str(""), Err(String::from("Resource version  is unknown")));
}

#[test]
fn tags_parse_through_the_standard_trait() {
    assert_eq!("POLISH".parse::<ResourceVersion>(), Ok(ResourceVersion::POLISH));
    assert_eq!("polish".parse::<ResourceVersion>(), Err(String::from("Resource version polish is unknown")));
}

#[test]
fn an_unknown_tag_in_a_settings_file_is_named_with_all_tags() {
    assert_eq!(
        ResourceVersion::from_variant("TESTUNKNOWN"),
        Err(String::from("unknown variant `TESTUNKNOWN`, expected one of `DUTCH`, `ENGLISH`, `FRENCH`, `GERMAN`, `ITALIAN`, `POLISH`, `RUSSIAN`, `RUSSIAN_GOLD`"))
    );
    assert_eq!(ResourceVersion::from_variant("RUSSIAN"), Ok(ResourceVersion::RUSSIAN));
    assert_eq!(ResourceVersion::from_variant("ITALIAN"), Ok(ResourceVersion::ITALIAN));
}
