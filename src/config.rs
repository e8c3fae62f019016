use vstd::prelude::*;

use crate::advert::{join, path_join, PipelineError};
use crate::document::{display_at, display_under, shown_at, shown_under};

verus! {

/// The configuration root under a home directory; without a home directory
/// there is none.
pub fn find_config(home: Option<&str>) -> (r: Result<String, PipelineError>)
    ensures
        home is None ==> r == Err::<String, PipelineError>(PipelineError::MissingHome),
        home is Some ==> r is Ok && r->Ok_0@ == path_join(home->Some_0@, ".config/JobApplier"@),
{
    match home {
        Some(h) => Ok(join(h, ".config/JobApplier")),
        None => Err(PipelineError::MissingHome),
    }
}

/// The mail account and attachment that applications are sent with.
pub struct MailConfig {
    pub username: String,
    pub token: String,
    pub server: String,
    pub resume_path: String,
}

impl MailConfig {
    /// Reads `SMTP.username`, `SMTP.token`, `SMTP.server` and `resumePath`
    /// of a configuration document, each as its text.
    pub fn from_document(doc: &json::JsonValue) -> (r: MailConfig)
        ensures
            r.username@ == shown_under(*doc, "SMTP"@, "username"@),
            r.token@ == shown_under(*doc, "SMTP"@, "token"@),
            r.server@ == shown_under(*doc, "SMTP"@, "server"@),
            r.resume_path@ == shown_at(*doc, "resumePath"@),
    {
        MailConfig {
            username: display_under(doc, "SMTP", "username"),
            token: display_under(doc, "SMTP", "token"),
            server: display_under(doc, "SMTP", "server"),
            resume_path: display_at(doc, "resumePath"),
        }
    }
}

} // verus!
