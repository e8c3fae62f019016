use vstd::prelude::*;
use vstd::string::*;

use crate::advert::PipelineError;
use crate::document::{json_of, opt_text, parse_document, str_at, str_under, text_at, text_under};

verus! {

/// The fields of an advert's detail document that the pipeline reads, each
/// absent where the document has no string there.
pub struct AdvertDetail {
    pub id: Option<String>,
    pub title: Option<String>,
    pub occupation: Option<String>,
    pub work_time_extent: Option<String>,
    pub company: Option<String>,
    pub region: Option<String>,
    pub application_email: Option<String>,
    pub application_mail: Option<String>,
}

pub open spec fn text_or(o: Option<String>, fallback: Seq<char>) -> Seq<char> {
    match o {
        Some(s) => s@,
        None => fallback,
    }
}

/// The application address: `application.email`, else `application.mail`.
pub open spec fn email_of(d: AdvertDetail) -> Option<Seq<char>> {
    if d.application_email is Some {
        opt_text(d.application_email)
    } else {
        opt_text(d.application_mail)
    }
}

/// The subject of an application mail for the advert.
pub open spec fn subject_of(d: AdvertDetail) -> Seq<char> {
    "Ansökan för '"@ + text_or(d.title, "Ansökan"@) + "'"@
}

fn copy_text(o: &Option<String>) -> (r: Option<String>)
    ensures
        opt_text(r) == opt_text(*o),
{
    match o {
        Some(s) => Some(s.clone()),
        None => None,
    }
}

/// The text of a field, or a placeholder where it is missing.
pub(crate) fn copy_text_or(o: &Option<String>, fallback: &str) -> (r: String)
    ensures
        r@ == text_or(*o, fallback@),
{
    match o {
        Some(s) => s.clone(),
        None => fallback.to_owned(),
    }
}

/// The detail holds the document's fields: `id`, `title`, `occupation`,
/// `workTimeExtent`, `company.name`, `workplace.region`, `application.email`
/// and `application.mail`, each where it is a string.
pub open spec fn reads_document(d: AdvertDetail, doc: json::JsonValue) -> bool {
    &&& opt_text(d.id) == str_at(doc, "id"@)
    &&& opt_text(d.title) == str_at(doc, "title"@)
    &&& opt_text(d.occupation) == str_at(doc, "occupation"@)
    &&& opt_text(d.work_time_extent) == str_at(doc, "workTimeExtent"@)
    &&& opt_text(d.company) == str_under(doc, "company"@, "name"@)
    &&& opt_text(d.region) == str_under(doc, "workplace"@, "region"@)
    &&& opt_text(d.application_email) == str_under(doc, "application"@, "email"@)
    &&& opt_text(d.application_mail) == str_under(doc, "application"@, "mail"@)
}

impl AdvertDetail {
    /// Reads the fields of a parsed detail document.
    pub fn from_document(doc: &json::JsonValue) -> (r: AdvertDetail)
        ensures
            reads_document(r, *doc),
    {
        AdvertDetail {
            id: text_at(doc, "id"),
            title: text_at(doc, "title"),
            occupation: text_at(doc, "occupation"),
            work_time_extent: text_at(doc, "workTimeExtent"),
            company: text_under(doc, "company", "name"),
            region: text_under(doc, "workplace", "region"),
            application_email: text_under(doc, "application", "email"),
            application_mail: text_under(doc, "application", "mail"),
        }
    }
}

/// Reads a stored detail document; text that is no JSON document is a
/// corrupt cache entry.
pub fn load_detail(text: &str) -> (r: Result<AdvertDetail, PipelineError>)
    ensures
        match json_of(text@) {
            Some(doc) => r is Ok && reads_document(r->Ok_0, doc),
            None => r == Err::<AdvertDetail, PipelineError>(PipelineError::CorruptCache),
        },
{
    match parse_document(text) {
        Some(doc) => Ok(AdvertDetail::from_document(&doc)),
        None => Err(PipelineError::CorruptCache),
    }
}

/// The application address of the advert, if the document gives one.
pub fn find_email(d: &AdvertDetail) -> (r: Option<String>)
    ensures
        opt_text(r) == email_of(*d),
{
    if d.application_email.is_some() {
        copy_text(&d.application_email)
    } else {
        copy_text(&d.application_mail)
    }
}

/// The subject line of the application mail: the advert's title in quotes,
/// or a generic word where the title is missing.
pub fn email_subject(d: &AdvertDetail) -> (r: String)
    ensures
        r@ == subject_of(*d),
{
    let mut out = "Ansökan för '".to_owned();
    match &d.title {
        Some(t) => out.append(t.as_str()),
        None => out.append("Ansökan"),
    }
    out.append("'");
    out
}

} // verus!
