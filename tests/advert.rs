use applier::{find_config, ids_to_url, region_code, Advert, PipelineError};

const URL: &str = "https://arbetsformedlingen.se/platsbanken/annonser/ABCDE12345";

#[test]
fn advert_url_resolves_id_and_api() {
    let advert = Advert::from_url(URL).unwrap();
    assert_eq!(advert.get_id(), "ABCDE12345");
    assert_eq!(
        advert.get_api(),
        "https://platsbanken-api.arbetsformedlingen.se/jobs/v1/job/ABCDE12345"
    );
}

#[test]
fn advert_url_of_other_source_is_refused() {
    assert!(matches!(
        Advert::from_url("https://example.com/platsbanken/annonser/ABCDE12345xxxxxxxxxx"),
        Err(PipelineError::InvalidAdvert)
    ));
}

#[test]
fn advert_url_without_id_is_refused() {
    assert!(matches!(
        Advert::from_url("https://arbetsformedlingen.se/platsbanken/annonser/"),
        Err(PipelineError::InvalidAdvert)
    ));
    assert!(matches!(Advert::from_url(""), Err(PipelineError::InvalidAdvert)));
}

#[test]
fn advert_id_keeps_non_ascii_text() {
    let advert = Advert::from_url("https://arbetsformedlingen.se/platsbanken/annonser/åäö1").unwrap();
    assert_eq!(advert.get_id(), "åäö1");
}

#[test]
fn cache_file_name_under_config_root() {
    let advert = Advert::from_url(URL).unwrap();
    assert_eq!(
        advert.to_json_file_name("/home/u/.config/JobApplier"),
        "/home/u/.config/JobApplier/Jobs/ABCDE12345.json"
    );
    assert_eq!(
        advert.to_json_file_name("/home/u/.config/JobApplier/"),
        "/home/u/.config/JobApplier/Jobs/ABCDE12345.json"
    );
}

#[test]
fn config_root_under_home() {
    assert_eq!(find_config(Some("/home/u")).unwrap(), "/home/u/.config/JobApplier");
    assert_eq!(find_config(Some("/home/u/")).unwrap(), "/home/u/.config/JobApplier");
}

#[test]
fn config_root_without_home_is_an_error() {
    assert!(matches!(find_config(None), Err(PipelineError::MissingHome)));
}

#[test]
fn ids_become_listing_urls() {
    let urls = ids_to_url(vec!["A1".to_string(), "B2".to_string()]);
    assert_eq!(
        urls,
        vec![
            "https://arbetsformedlingen.se/platsbanken/annonser/A1".to_string(),
            "https://arbetsformedlingen.se/platsbanken/annonser/B2".to_string()
        ]
    );
    assert!(ids_to_url(Vec::new()).is_empty());
}

#[test]
fn regions_map_to_codes() {
    assert_eq!(region_code("Jonkoping").unwrap(), "KURg_KJF_Lwc");
    assert_eq!(region_code("Skovde").unwrap(), "fqAy_4ji_Lz2");
    assert!(region_code("Stockholm").is_none());
}
