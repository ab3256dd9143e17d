//! Uploads one local file to an object-storage bucket under a date-partitioned
//! key. This crate holds the decisions of that run: the object key, the
//! configuration rules, the public URL and the report of the outcome.

mod config;
mod date;
mod decimal;
mod key;
mod report;
mod run;

pub use config::{
    document_complete, document_error, field_at, first_empty, first_missing,
    lemma_document_accepted_iff_complete, opt_view, Config, ConfigDocument, ConfigError,
    ConfigField, CONFIG_FILE, LOG_FILE, TOKEN_EXPIRY_SECS,
};
pub use date::LocalDate;
pub use decimal::{append_decimal, append_padded2, decimal_text, digit_char, padded2_text};
pub use key::{
    build_object_key, build_object_key_today, file_base_name, has_no_final_name, is_infix,
    is_plain_name, is_segment_of, lemma_key_ends_with_name, object_key, object_key_text, year_text, UploadTarget,
    FALLBACK_NAME,
};
pub use report::{
    double_slash_at, file_argument, final_url, input_file, lemma_url_adds_no_double_slash,
    report_line, report_text, upload_outcome, url_text, BackupOutcome, RunError,
};
pub use run::{
    awaits, lemma_backup_outcome_never_fails_run, lemma_no_argument_fails,
    lemma_not_a_file_fails, step, step_post, Action, Event, Phase,
};
