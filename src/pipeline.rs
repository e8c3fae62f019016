use vstd::prelude::*;
use vstd::string::*;

use crate::advert::{advert_id, is_advert_url, Advert};
use crate::detail::{email_of, email_subject, find_email, subject_of, AdvertDetail};
use crate::record::{missing_email, record_of, LogRecord};
use crate::store::{claim_result, insert_or_ignore, CacheResult, ClaimStore, LogTable};

verus! {

/// How the processing of one advert ended.
#[derive(PartialEq, Eq, Structural, Debug, Clone, Copy)]
pub enum Outcome {
    /// An application mail was handed to the mailer.
    Sent,
    /// The advert was handled before; nothing was sent again.
    AlreadySent,
    /// The advert names no application address.
    NoEmail,
    /// The advert could not be resolved or read.
    Error,
}

/// An application mail.
pub struct Email {
    pub subject: String,
    pub body: String,
    pub recipient: String,
}

/// What to do for an advert once its detail is read: the mail to send, if
/// any, the row to log, and the outcome to report.
pub struct Plan {
    pub mail: Option<Email>,
    pub record: LogRecord,
    pub outcome: Outcome,
}

/// The outcome for an advert whose claim gave `cache`: a seen advert is never
/// mailed again; a fresh one is mailed where it names an address.
pub open spec fn outcome_of(cache: CacheResult, d: AdvertDetail) -> Outcome {
    match cache {
        CacheResult::AlreadyProcessed => Outcome::AlreadySent,
        CacheResult::Fresh => if email_of(d) is Some {
            Outcome::Sent
        } else {
            Outcome::NoEmail
        },
    }
}

/// The mail that goes out for an advert: its subject, the letter as body,
/// the address the advert names.
pub open spec fn is_mail_for(m: Email, d: AdvertDetail, letter: Seq<char>) -> bool {
    &&& m.subject@ == subject_of(d)
    &&& m.body@ == letter
    &&& email_of(d) == Some(m.recipient@)
}

/// Decides what follows once the claim result is known and the detail read.
pub fn plan(cache: CacheResult, d: &AdvertDetail, letter: &str) -> (r: Plan)
    ensures
        r.outcome == outcome_of(cache, *d),
        r.record@ == record_of(*d),
        r.mail is Some <==> r.outcome == Outcome::Sent,
        r.mail is Some ==> is_mail_for(r.mail->Some_0, *d, letter@),
{
    let record = LogRecord::from_detail(d);
    match cache {
        CacheResult::AlreadyProcessed => Plan { mail: None, record, outcome: Outcome::AlreadySent },
        CacheResult::Fresh => match find_email(d) {
            None => Plan { mail: None, record, outcome: Outcome::NoEmail },
            Some(recipient) => {
                let mail = Email { subject: email_subject(d), body: letter.to_owned(), recipient };
                Plan { mail: Some(mail), record, outcome: Outcome::Sent }
            },
        },
    }
}

/// The outcome of processing a listing URL against the claimed identifiers.
pub open spec fn run_outcome(claimed: Set<Seq<char>>, url: Seq<char>, d: AdvertDetail) -> Outcome {
    if is_advert_url(url) {
        outcome_of(claim_result(claimed, advert_id(url)), d)
    } else {
        Outcome::Error
    }
}

/// The claimed identifiers after processing a listing URL.
pub open spec fn claimed_after(claimed: Set<Seq<char>>, url: Seq<char>) -> Set<Seq<char>> {
    if is_advert_url(url) {
        claimed.insert(advert_id(url))
    } else {
        claimed
    }
}

/// Processes one listing URL against a claim store and a log table, where
/// `d` is the detail that the advert's cache entry holds: resolves the
/// advert, claims it, decides, and logs. The mail to send is handed back.
pub fn process(
    claims: &mut ClaimStore,
    log: &mut LogTable,
    url: &str,
    d: &AdvertDetail,
    letter: &str,
) -> (r: (Outcome, Option<Email>))
    requires
        old(log).wf(),
    ensures
        r.0 == run_outcome(old(claims)@, url@, *d),
        r.1 is Some <==> r.0 == Outcome::Sent,
        r.1 is Some ==> is_mail_for(r.1->Some_0, *d, letter@),
        final(claims)@ == claimed_after(old(claims)@, url@),
        final(log)@ == if is_advert_url(url@) {
            insert_or_ignore(old(log)@, record_of(*d))
        } else {
            old(log)@
        },
        final(log).wf(),
{
    match Advert::from_url(url) {
        Err(_) => (Outcome::Error, None),
        Ok(advert) => {
            let id = advert.get_id();
            let cache = claims.try_claim(id.as_str());
            let p = plan(cache, d, letter);
            log.record(p.record);
            (p.outcome, p.mail)
        },
    }
}

/// Processing a URL a second time never sends a second mail: whatever
/// detail is read then, the second run ends as already sent.
pub proof fn lemma_second_run_already_sent(claimed: Set<Seq<char>>, url: Seq<char>, d: AdvertDetail)
    requires
        is_advert_url(url),
    ensures
        run_outcome(claimed_after(claimed, url), url, d) == Outcome::AlreadySent,
{
}

/// An advert that names no application address is never mailed: a fresh one
/// ends without address, and its log row holds the placeholder address.
pub proof fn lemma_no_address_no_mail(claimed: Set<Seq<char>>, url: Seq<char>, d: AdvertDetail)
    requires
        email_of(d) is None,
    ensures
        run_outcome(claimed, url, d) != Outcome::Sent,
        is_advert_url(url) && !claimed.contains(advert_id(url)) ==> run_outcome(claimed, url, d)
            == Outcome::NoEmail,
        record_of(d).email == missing_email(),
{
}

} // verus!
