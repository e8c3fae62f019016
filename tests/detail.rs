use applier::{
    email_subject, find_email, get_list, load_detail, parse_u32, text_to_json, AdvertDetail,
    LogRecord, MailConfig, PipelineError,
};

fn empty_detail() -> AdvertDetail {
    AdvertDetail {
        id: None,
        title: None,
        occupation: None,
        work_time_extent: None,
        company: None,
        region: None,
        application_email: None,
        application_mail: None,
    }
}

#[test]
fn mail_field_gives_recipient_and_title_gives_subject() {
    let d = load_detail(r#"{"application": {"mail": "hr@acme.se"}, "title": "Server"}"#).unwrap();
    assert_eq!(find_email(&d).unwrap(), "hr@acme.se");
    assert_eq!(email_subject(&d), "Ansökan för 'Server'");
}

#[test]
fn email_field_wins_over_mail_field() {
    let d = load_detail(r#"{"application": {"email": "a@x.se", "mail": "b@x.se"}}"#).unwrap();
    assert_eq!(find_email(&d).unwrap(), "a@x.se");
}

#[test]
fn non_string_email_is_no_email() {
    let d = load_detail(r#"{"application": {"email": 5, "mail": null}}"#).unwrap();
    assert!(find_email(&d).is_none());
}

#[test]
fn no_application_fields_gives_no_email_and_placeholder() {
    let d = load_detail(r#"{"title": "Kock"}"#).unwrap();
    assert!(find_email(&d).is_none());
    let rec = LogRecord::from_detail(&d);
    assert_eq!(rec.email, "none");
}

#[test]
fn subject_without_title_uses_generic_word() {
    assert_eq!(email_subject(&empty_detail()), "Ansökan för 'Ansökan'");
}

#[test]
fn unparsable_detail_is_corrupt_cache() {
    assert!(matches!(load_detail("not json {"), Err(PipelineError::CorruptCache)));
    assert!(matches!(load_detail(""), Err(PipelineError::CorruptCache)));
}

#[test]
fn detail_document_fields_are_read() {
    let d = load_detail(
        r#"{"id": "123", "title": "Server", "occupation": "Servitör", "workTimeExtent": "Heltid",
            "company": {"name": "Acme"}, "workplace": {"region": "Jönköpings län"}}"#,
    )
    .unwrap();
    let rec = LogRecord::from_detail(&d);
    assert_eq!(rec.id, 123);
    assert_eq!(rec.title, "Server");
    assert_eq!(rec.occupation, "Servitör");
    assert_eq!(rec.work_time_extent, "Heltid");
    assert_eq!(rec.company, "Acme");
    assert_eq!(rec.city, "Jönköpings län");
    assert_eq!(rec.email, "none");
}

#[test]
fn missing_fields_get_placeholders() {
    let rec = LogRecord::from_detail(&empty_detail());
    assert_eq!(rec.id, 0);
    assert_eq!(rec.title, "empty");
    assert_eq!(rec.occupation, "empty");
    assert_eq!(rec.work_time_extent, "empty");
    assert_eq!(rec.company, "empty");
    assert_eq!(rec.city, "empty");
    assert_eq!(rec.email, "none");
}

#[test]
fn non_numeric_id_logs_as_zero() {
    let mut d = empty_detail();
    d.id = Some("ABC".to_string());
    assert_eq!(LogRecord::from_detail(&d).id, 0);
}

#[test]
fn decimal_ids_parse_like_std() {
    assert_eq!(parse_u32("123"), Some(123));
    assert_eq!(parse_u32("+7"), Some(7));
    assert_eq!(parse_u32("007"), Some(7));
    assert_eq!(parse_u32("4294967295"), Some(4294967295));
    assert_eq!(parse_u32("4294967296"), None);
    assert_eq!(parse_u32("99999999999999999999"), None);
    assert_eq!(parse_u32(""), None);
    assert_eq!(parse_u32("+"), None);
    assert_eq!(parse_u32("-1"), None);
    assert_eq!(parse_u32("12a"), None);
    assert_eq!(parse_u32(" 1"), None);
}

#[test]
fn search_response_lists_ids() {
    let doc = text_to_json(r#"{"numberOfAds": 2, "ads": [{"id": "A1"}, {"id": "B2"}]}"#).unwrap();
    assert_eq!(get_list(&doc).unwrap(), vec!["A1".to_string(), "B2".to_string()]);
}

#[test]
fn search_response_without_count_lists_nothing() {
    let doc = text_to_json(r#"{"ads": []}"#).unwrap();
    assert!(get_list(&doc).is_none());
    assert!(text_to_json("[").is_none());
}

#[test]
fn mail_config_fields_are_read() {
    let doc = text_to_json(
        r#"{"SMTP": {"username": "me@x.se", "token": "t0k", "server": "smtp.x.se"}, "resumePath": "/cv.pdf"}"#,
    )
    .unwrap();
    let c = MailConfig::from_document(&doc);
    assert_eq!(c.username, "me@x.se");
    assert_eq!(c.token, "t0k");
    assert_eq!(c.server, "smtp.x.se");
    assert_eq!(c.resume_path, "/cv.pdf");
}

#[test]
fn search_response_keeps_order_and_count() {
    let doc = text_to_json(
        r#"{"numberOfAds": 2, "ads": [{"id": "Z9"}, {"id": "A1"}, {"id": "C3"}]}"#,
    )
    .unwrap();
    assert_eq!(get_list(&doc).unwrap(), vec!["Z9".to_string(), "A1".to_string()]);
}

#[test]
fn search_response_with_missing_id_lists_nothing() {
    let doc = text_to_json(r#"{"numberOfAds": 2, "ads": [{"id": "A1"}, {"id": 7}]}"#).unwrap();
    assert!(get_list(&doc).is_none());
    let short = text_to_json(r#"{"numberOfAds": 3, "ads": [{"id": "A1"}]}"#).unwrap();
    assert!(get_list(&short).is_none());
    let none = text_to_json(r#"{"numberOfAds": 0}"#).unwrap();
    assert!(get_list(&none).unwrap().is_empty());
}

#[test]
fn mail_config_missing_member_shows_null() {
    let doc = text_to_json(r#"{"SMTP": {"username": "me@x.se", "token": 5}}"#).unwrap();
    let c = MailConfig::from_document(&doc);
    assert_eq!(c.username, "me@x.se");
    assert_eq!(c.token, "5");
    assert_eq!(c.server, "null");
    assert_eq!(c.resume_path, "null");
}

#[test]
fn detail_fields_come_from_their_own_keys() {
    let d = load_detail(
        r#"{"company": {"name": "Acme", "region": "X"}, "workplace": {"name": "Y", "region": "Norr"},
            "application": {"email": "e@x.se"}, "name": "top"}"#,
    )
    .unwrap();
    assert_eq!(d.company.as_deref(), Some("Acme"));
    assert_eq!(d.region.as_deref(), Some("Norr"));
    assert_eq!(d.application_email.as_deref(), Some("e@x.se"));
    assert!(d.application_mail.is_none());
    assert!(d.title.is_none());
}
