use vstd::prelude::*;
use crate::config::{Config, ConfigError};
use crate::date::LocalDate;
use crate::key::{
    build_object_key, has_no_final_name, is_plain_name, is_segment_of, object_key_text,
    FALLBACK_NAME,
};
use crate::report::{
    file_argument, input_file, report_line, report_text, upload_outcome, url_text, BackupOutcome,
    RunError,
};

verus! {

/// Where a run stands between two pieces of outside work.
pub enum Phase {
    /// Nothing is known yet.
    Start,
    /// The configuration is loaded; the input path is to be inspected.
    CheckingPath { config: Config, path: String },
    /// The file is being uploaded under the name `file_name`.
    Uploading { config: Config, path: String, file_name: String },
    /// The upload succeeded; the local backup copy is being made.
    BackingUp { url: String },
    /// The run is over.
    Done,
}

/// What the outside world reports back.
pub enum Event {
    /// The configuration was loaded (or not) and the command line was read.
    Started { config: Result<Config, ConfigError>, argument: Option<String> },
    /// The input path was inspected on the local date `date`.
    PathChecked { is_file: bool, date: LocalDate },
    /// The storage service answered with the stored key, or a failure reason.
    Uploaded(Result<String, String>),
    /// The backup copy was written to this path, or failed for this reason.
    BackedUp(Result<String, String>),
}

/// The next piece of outside work.
pub enum Action {
    /// Find out whether `path` names an existing regular file.
    CheckPath { path: String },
    /// Upload the file at `path` under `object_key`, shown as `file_name`.
    Upload { path: String, object_key: String, file_name: String },
    /// Copy the file at `source` into the directory `dir` as `file_name`.
    Backup { source: String, dir: String, file_name: String },
    /// Record `log`, print `url` as the last line of output, and exit 0.
    Succeed { url: String, log: String },
    /// Report the error and exit non-zero.
    Fail(RunError),
}

/// The event is one that the phase waits for.
pub open spec fn awaits(phase: Phase, event: Event) -> bool {
    match phase {
        Phase::Start => event is Started,
        Phase::CheckingPath { .. } => event matches Event::PathChecked { date, .. } && date.wf(),
        Phase::Uploading { .. } => event is Uploaded,
        Phase::BackingUp { .. } => event is BackedUp,
        Phase::Done => false,
    }
}

/// What `step` decides, case by case.
pub open spec fn step_post(phase: Phase, event: Event, r: (Phase, Action)) -> bool {
    match (phase, event) {
        (Phase::Start, Event::Started { config: Err(e), .. }) => match r {
            (Phase::Done, Action::Fail(RunError::Config(f))) => f == e,
            _ => false,
        },
        (Phase::Start, Event::Started { config: Ok(_), argument: None }) => match r {
            (Phase::Done, Action::Fail(RunError::Usage)) => true,
            _ => false,
        },
        (Phase::Start, Event::Started { config: Ok(c), argument: Some(p) }) => match r {
            (Phase::CheckingPath { config, path }, Action::CheckPath { path: q }) => {
                &&& config == c
                &&& path@ == p@
                &&& q@ == p@
            },
            _ => false,
        },
        (Phase::CheckingPath { path, .. }, Event::PathChecked { is_file: false, .. }) => match r {
            (Phase::Done, Action::Fail(RunError::InvalidInputPath(p))) => p@ == path@,
            _ => false,
        },
        (Phase::CheckingPath { config, path }, Event::PathChecked { is_file: true, date }) => match r {
            (
                Phase::Uploading { config: c, path: p, file_name: n },
                Action::Upload { path: up, object_key: k, file_name: un },
            ) => {
                &&& c == config
                &&& p@ == path@
                &&& up@ == path@
                &&& un@ == n@
                &&& k@ == object_key_text(date, n@)
                &&& n@ == FALLBACK_NAME@ || is_segment_of(n@, path@)
                &&& has_no_final_name(path@) ==> n@ == FALLBACK_NAME@
                &&& is_plain_name(path@) ==> n@ == path@
            },
            _ => false,
        },
        (Phase::Uploading { .. }, Event::Uploaded(Err(why))) => match r {
            (Phase::Done, Action::Fail(RunError::UploadFailed(w))) => w@ == why@,
            _ => false,
        },
        (Phase::Uploading { config, path, file_name }, Event::Uploaded(Ok(key))) => match config.base_dir {
            Some(d) => match r {
                (Phase::BackingUp { url }, Action::Backup { source, dir, file_name: n }) => {
                    &&& url@ == url_text(config.base_url@, key@)
                    &&& source@ == path@
                    &&& dir@ == d@
                    &&& n@ == file_name@
                },
                _ => false,
            },
            None => match r {
                (Phase::Done, Action::Succeed { url, log }) => {
                    &&& url@ == url_text(config.base_url@, key@)
                    &&& log@ == report_text(url@, BackupOutcome::Skipped)
                },
                _ => false,
            },
        },
        (Phase::BackingUp { url }, Event::BackedUp(copied)) => match r {
            (Phase::Done, Action::Succeed { url: u, log }) => {
                &&& u@ == url@
                &&& log@ == report_text(
                    url@,
                    match copied {
                        Ok(dest) => BackupOutcome::Copied(dest),
                        Err(why) => BackupOutcome::Failed(why),
                    },
                )
            },
            _ => false,
        },
        _ => true,
    }
}

/// Decides what follows `event` in `phase`.
///
/// A missing configuration or argument, or an input that is not a regular
/// file, ends the run in failure before any upload is asked for. An upload
/// failure ends it in failure. After a successful upload the backup copy is
/// asked for when a backup directory is configured, and the run then
/// succeeds with the public URL whatever became of the copy.
pub fn step(phase: Phase, event: Event) -> (r: (Phase, Action))
    requires
        awaits(phase, event),
    ensures
        step_post(phase, event, r),
{
    match phase {
        Phase::Start => match event {
            Event::Started { config, argument } => match config {
                Err(e) => (Phase::Done, Action::Fail(RunError::Config(e))),
                Ok(config) => match file_argument(argument) {
                    Err(e) => (Phase::Done, Action::Fail(e)),
                    Ok(path) => {
                        let check = Action::CheckPath { path: path.clone() };
                        (Phase::CheckingPath { config, path }, check)
                    },
                },
            },
            // excluded by `awaits`
            _ => (Phase::Done, Action::Fail(RunError::Usage)),
        },
        Phase::CheckingPath { config, path } => match event {
            Event::PathChecked { is_file, date } => match input_file(path, is_file) {
                Err(e) => (Phase::Done, Action::Fail(e)),
                Ok(path) => {
                    let target = build_object_key(path.as_str(), &date);
                    let upload = Action::Upload {
                        path: path.clone(),
                        object_key: target.object_key,
                        file_name: target.file_name.clone(),
                    };
                    (Phase::Uploading { config, path, file_name: target.file_name }, upload)
                },
            },
            // excluded by `awaits`
            _ => (Phase::Done, Action::Fail(RunError::Usage)),
        },
        Phase::Uploading { config, path, file_name } => match event {
            Event::Uploaded(uploaded) => match upload_outcome(&config, uploaded) {
                Err(e) => (Phase::Done, Action::Fail(e)),
                Ok(url) => match config.base_dir {
                    Some(dir) => (
                        Phase::BackingUp { url },
                        Action::Backup { source: path, dir, file_name },
                    ),
                    None => {
                        let log = report_line(url.as_str(), &BackupOutcome::Skipped);
                        (Phase::Done, Action::Succeed { url, log })
                    },
                },
            },
            // excluded by `awaits`
            _ => (Phase::Done, Action::Fail(RunError::Usage)),
        },
        Phase::BackingUp { url } => match event {
            Event::BackedUp(copied) => {
                let outcome = match copied {
                    Ok(dest) => BackupOutcome::Copied(dest),
                    Err(why) => BackupOutcome::Failed(why),
                };
                let log = report_line(url.as_str(), &outcome);
                (Phase::Done, Action::Succeed { url, log })
            },
            // excluded by `awaits`
            _ => (Phase::Done, Action::Fail(RunError::Usage)),
        },
        // excluded by `awaits`
        Phase::Done => (Phase::Done, Action::Fail(RunError::Usage)),
    }
}

/// Without a file argument the run fails with a usage error, and nothing
/// further is awaited: no upload is ever asked for.
pub proof fn lemma_no_argument_fails(config: Config, r: (Phase, Action))
    requires
        step_post(Phase::Start, (Event::Started { config: Ok(config), argument: None }), r),
    ensures
        r.1 matches Action::Fail(RunError::Usage),
        forall|e: Event| !awaits(r.0, e),
{
}

/// An input path that is not a regular file (absent, or a directory) ends the
/// run in failure: no upload is asked for, no URL is printed, and nothing
/// further is awaited.
pub proof fn lemma_not_a_file_fails(
    config: Config,
    path: String,
    date: LocalDate,
    r: (Phase, Action),
)
    requires
        step_post(
            (Phase::CheckingPath { config, path }),
            (Event::PathChecked { is_file: false, date }),
            r,
        ),
    ensures
        r.1 matches Action::Fail(RunError::InvalidInputPath(p)) && p@ == path@,
        forall|e: Event| !awaits(r.0, e),
{
}

/// Once the upload succeeded, the run succeeds with the public URL whatever
/// became of the backup copy.
pub proof fn lemma_backup_outcome_never_fails_run(
    url: String,
    copied: Result<String, String>,
    r: (Phase, Action),
)
    requires
        step_post((Phase::BackingUp { url }), Event::BackedUp(copied), r),
    ensures
        r.1 matches Action::Succeed { url: u, .. } && u@ == url@,
        forall|e: Event| !awaits(r.0, e),
{
}

} // verus!
