use vstd::prelude::*;
use crate::config::{Config, ConfigError};

verus! {

/// Why a run ends without a public URL.
#[derive(Clone, Debug)]
pub enum RunError {
    /// No file argument was given.
    Usage,
    /// The argument does not name an existing regular file.
    InvalidInputPath(String),
    /// The configuration could not be loaded.
    Config(ConfigError),
    /// The storage service refused or failed the upload, for this reason.
    UploadFailed(String),
}

/// What became of the local backup copy.
#[derive(Clone, Debug)]
pub enum BackupOutcome {
    /// No backup directory is configured.
    Skipped,
    /// The file was copied to this path.
    Copied(String),
    /// The copy failed, for this reason.
    Failed(String),
}

/// Takes the file argument of the command line; its absence is a usage error.
pub fn file_argument(arg: Option<String>) -> (r: Result<String, RunError>)
    ensures
        arg is None <==> (r matches Err(e) && e is Usage),
        arg is Some ==> (r matches Ok(p) && p@ == arg->0@),
{
    match arg {
        Some(p) => Ok(p),
        None => Err(RunError::Usage),
    }
}

/// Accepts the input path only where it names an existing regular file.
pub fn input_file(path: String, is_file: bool) -> (r: Result<String, RunError>)
    ensures
        is_file ==> (r matches Ok(p) && p@ == path@),
        !is_file ==> (r matches Err(e) && e matches RunError::InvalidInputPath(p) && p@ == path@),
{
    if is_file {
        Ok(path)
    } else {
        Err(RunError::InvalidInputPath(path))
    }
}

/// The public URL of an object: `<base_url>/<key>`.
pub open spec fn url_text(base_url: Seq<char>, key: Seq<char>) -> Seq<char> {
    base_url + seq!['/'] + key
}

/// The public URL of the object stored under `key`.
pub fn final_url(base_url: &str, key: &str) -> (r: String)
    ensures
        r@ == url_text(base_url@, key@),
{
    let mut s = String::from_str(base_url);
    s.append("/");
    s.append(key);
    proof {
        reveal_strlit("/");
    }
    assert(s@ =~= url_text(base_url@, key@));
    s
}

/// `s` holds two `/` in a row, starting at `i`.
pub open spec fn double_slash_at(s: Seq<char>, i: int) -> bool {
    0 <= i && i + 1 < s.len() && s[i] == '/' && s[i + 1] == '/'
}

/// Joining a base URL without a trailing slash to a key without a leading
/// slash introduces no `//`: every one in the URL lies wholly within the base
/// URL or wholly within the key.
pub proof fn lemma_url_adds_no_double_slash(base_url: Seq<char>, key: Seq<char>, i: int)
    requires
        base_url.len() > 0,
        base_url.last() != '/',
        key.len() > 0 ==> key[0] != '/',
        double_slash_at(url_text(base_url, key), i),
    ensures
        double_slash_at(base_url, i) || double_slash_at(key, i - base_url.len() - 1),
{
    let u = url_text(base_url, key);
    let n = base_url.len() as int;
    assert(u[n] == '/');
    if i + 1 < n {
        assert(u[i] == base_url[i] && u[i + 1] == base_url[i + 1]);
    } else if i + 1 == n {
        assert(u[i + 1] == base_url.last());
    } else if i == n {
        assert(u[i + 1] == key[0]);
    } else {
        assert(u[i] == key[i - n - 1] && u[i + 1] == key[i - n]);
    }
}

/// The outcome of the upload step: the public URL of the returned key, or the
/// upload error.
pub fn upload_outcome(config: &Config, uploaded: Result<String, String>) -> (r: Result<
    String,
    RunError,
>)
    ensures
        uploaded is Ok ==> (r matches Ok(url) && url@ == url_text(
            config.base_url@,
            uploaded->Ok_0@,
        )),
        uploaded is Err ==> (r matches Err(e) && e matches RunError::UploadFailed(why) && why@
            == uploaded->Err_0@),
{
    match uploaded {
        Ok(key) => Ok(final_url(config.base_url.as_str(), key.as_str())),
        Err(why) => Err(RunError::UploadFailed(why)),
    }
}

/// The log record of a successful upload and of its backup.
pub open spec fn report_text(url: Seq<char>, backup: BackupOutcome) -> Seq<char> {
    "upload succeeded, file link: "@ + url + "; backup: "@ + match backup {
        BackupOutcome::Skipped => "skipped, no base_dir configured"@,
        BackupOutcome::Copied(path) => "copied to "@ + path@,
        BackupOutcome::Failed(why) => "failed: "@ + why@,
    }
}

/// The log record that summarises a successful run. A failed backup only
/// shows here: it never turns the run into a failure.
pub fn report_line(url: &str, backup: &BackupOutcome) -> (r: String)
    ensures
        r@ == report_text(url@, *backup),
{
    let mut s = String::from_str("upload succeeded, file link: ");
    s.append(url);
    s.append("; backup: ");
    match backup {
        BackupOutcome::Skipped => s.append("skipped, no base_dir configured"),
        BackupOutcome::Copied(path) => {
            s.append("copied to ");
            s.append(path.as_str());
        },
        BackupOutcome::Failed(why) => {
            s.append("failed: ");
            s.append(why.as_str());
        },
    }
    assert(s@ =~= report_text(url@, *backup));
    s
}

} // verus!
