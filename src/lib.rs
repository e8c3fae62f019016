//! Per-advert processing for an automatic job applier: advert identity,
//! the detail document view, recipient resolution, the claim store that
//! guards against duplicate sends, the insert-or-ignore outcome log and the
//! decisions that tie them together.

mod advert;
mod config;
mod detail;
mod document;
mod pipeline;
mod record;
mod search;
mod store;

pub use advert::{advert_id, advert_prefix, api_base, is_advert_url, path_join, Advert, PipelineError};
pub use detail::{email_of, email_subject, find_email, load_detail, reads_document, subject_of, text_or, AdvertDetail};
pub use document::{count_at, json_of, opt_text, shown_at, shown_under, str_at, str_in_list, str_under};
pub use record::{all_digits, decimal_u32, digits_value, is_digit, log_id, missing_email, missing_text, parse_u32, record_of, unsigned_digits, LogRecord, RecordView};
pub use store::{claim_result, claim_results, distinct_ids, has_row, insert_or_ignore, lemma_one_claim_wins, lemma_one_row_per_id, record_all, rows_with, CacheResult, ClaimStore, LogTable};
pub use pipeline::{claimed_after, is_mail_for, lemma_no_address_no_mail, lemma_second_run_already_sent, outcome_of, plan, process, run_outcome, Email, Outcome, Plan};
pub use search::{get_list, ids_to_url, lists_ids, region_code, region_code_of, text_to_json};
pub use config::{find_config, MailConfig};
