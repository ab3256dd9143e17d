use vstd::prelude::*;

verus! {

/// Name of the configuration file, found beside the executable.
pub const CONFIG_FILE: &'static str = "config.json";

/// Name of the log file.
pub const LOG_FILE: &'static str = "log.log";

/// Lifetime, in seconds, of the signed upload token.
pub const TOKEN_EXPIRY_SECS: u64 = 3600;

/// A required field of the configuration.
#[derive(Clone, Copy, Debug, PartialEq, Eq, Structural)]
pub enum ConfigField {
    AccessKey,
    SecretKey,
    BucketName,
    BaseUrl,
}

/// Why a configuration could not be loaded.
#[derive(Clone, Copy, Debug, PartialEq, Eq, Structural)]
pub enum ConfigError {
    /// The file could not be located or read.
    Read,
    /// The text is not JSON of the expected shape.
    Parse,
    /// A required field is absent from the document.
    MissingField(ConfigField),
    /// A required field is an empty string.
    EmptyField(ConfigField),
}

/// The configuration of a run. One returned by [`Config::from_document`]
/// satisfies `wf`: its four required fields are non-empty.
#[derive(Clone, Debug)]
pub struct Config {
    pub access_key: String,
    pub secret_key: String,
    pub bucket_name: String,
    pub base_url: String,
    pub base_dir: Option<String>,
}

impl Config {
    /// The required fields are non-empty.
    pub open spec fn wf(&self) -> bool {
        &&& self.access_key@.len() > 0
        &&& self.secret_key@.len() > 0
        &&& self.bucket_name@.len() > 0
        &&& self.base_url@.len() > 0
    }
}

/// The fields of a configuration document as they were read, each one
/// absent or a string.
#[derive(Clone, Debug)]
pub struct ConfigDocument {
    pub access_key: Option<String>,
    pub secret_key: Option<String>,
    pub bucket_name: Option<String>,
    pub base_url: Option<String>,
    pub base_dir: Option<String>,
}

impl ConfigDocument {
    /// The view of the required fields, in the order they are checked.
    pub open spec fn required(&self) -> Seq<Option<Seq<char>>> {
        seq![
            opt_view(self.access_key),
            opt_view(self.secret_key),
            opt_view(self.bucket_name),
            opt_view(self.base_url),
        ]
    }
}

/// The view of an optional string.
pub open spec fn opt_view(o: Option<String>) -> Option<Seq<char>> {
    match o {
        Some(s) => Some(s@),
        None => None,
    }
}

/// The field checked at position `i`.
pub open spec fn field_at(i: int) -> ConfigField {
    if i == 0 {
        ConfigField::AccessKey
    } else if i == 1 {
        ConfigField::SecretKey
    } else if i == 2 {
        ConfigField::BucketName
    } else {
        ConfigField::BaseUrl
    }
}

/// The first absent field among `fields[i..]`, if any.
pub open spec fn first_missing(fields: Seq<Option<Seq<char>>>, i: nat) -> Option<ConfigField>
    decreases fields.len() - i,
{
    if i >= fields.len() {
        None
    } else if fields[i as int] is None {
        Some(field_at(i as int))
    } else {
        first_missing(fields, i + 1)
    }
}

/// The first empty field among `fields[i..]`, if any.
pub open spec fn first_empty(fields: Seq<Option<Seq<char>>>, i: nat) -> Option<ConfigField>
    decreases fields.len() - i,
{
    if i >= fields.len() {
        None
    } else if (fields[i as int] matches Some(v) && v.len() == 0) {
        Some(field_at(i as int))
    } else {
        first_empty(fields, i + 1)
    }
}

/// What checking a document finds: the first absent required field, else the
/// first empty one, else nothing.
pub open spec fn document_error(doc: ConfigDocument) -> Option<ConfigError> {
    match first_missing(doc.required(), 0) {
        Some(f) => Some(ConfigError::MissingField(f)),
        None => match first_empty(doc.required(), 0) {
            Some(f) => Some(ConfigError::EmptyField(f)),
            None => None,
        },
    }
}

/// Each required field is present and non-empty.
pub open spec fn document_complete(doc: ConfigDocument) -> bool {
    &&& (doc.access_key matches Some(s) && s@.len() > 0)
    &&& (doc.secret_key matches Some(s) && s@.len() > 0)
    &&& (doc.bucket_name matches Some(s) && s@.len() > 0)
    &&& (doc.base_url matches Some(s) && s@.len() > 0)
}

impl Config {
    /// Checks a configuration document. It is refused with the first absent
    /// required field (in the order access_key, secret_key, bucket_name,
    /// base_url), else with the first empty one; `base_dir` is optional.
    pub fn from_document(doc: ConfigDocument) -> (r: Result<Config, ConfigError>)
        ensures
            document_error(doc) matches Some(e) ==> r == Err::<Config, ConfigError>(e),
            document_error(doc) is None ==> (r matches Ok(c) && c.wf() && Some(c.access_key@)
                == opt_view(doc.access_key) && Some(c.secret_key@) == opt_view(doc.secret_key)
                && Some(c.bucket_name@) == opt_view(doc.bucket_name) && Some(c.base_url@)
                == opt_view(doc.base_url) && opt_view(c.base_dir) == opt_view(doc.base_dir)),
    {
        proof {
            reveal_with_fuel(first_missing, 5);
            reveal_with_fuel(first_empty, 5);
        }
        let ConfigDocument { access_key, secret_key, bucket_name, base_url, base_dir } = doc;
        let access_key = match access_key {
            Some(s) => s,
            None => return Err(ConfigError::MissingField(ConfigField::AccessKey)),
        };
        let secret_key = match secret_key {
            Some(s) => s,
            None => return Err(ConfigError::MissingField(ConfigField::SecretKey)),
        };
        let bucket_name = match bucket_name {
            Some(s) => s,
            None => return Err(ConfigError::MissingField(ConfigField::BucketName)),
        };
        let base_url = match base_url {
            Some(s) => s,
            None => return Err(ConfigError::MissingField(ConfigField::BaseUrl)),
        };
        if access_key.as_str().is_empty() {
            return Err(ConfigError::EmptyField(ConfigField::AccessKey));
        }
        if secret_key.as_str().is_empty() {
            return Err(ConfigError::EmptyField(ConfigField::SecretKey));
        }
        if bucket_name.as_str().is_empty() {
            return Err(ConfigError::EmptyField(ConfigField::BucketName));
        }
        if base_url.as_str().is_empty() {
            return Err(ConfigError::EmptyField(ConfigField::BaseUrl));
        }
        Ok(Config { access_key, secret_key, bucket_name, base_url, base_dir })
    }
}

/// A document is accepted exactly when its four required fields are present
/// and non-empty; whether `base_dir` is present plays no part.
pub proof fn lemma_document_accepted_iff_complete(doc: ConfigDocument)
    ensures
        document_error(doc) is None <==> document_complete(doc),
        document_error(doc) == document_error((ConfigDocument { base_dir: None, ..doc })),
{
    reveal_with_fuel(first_missing, 5);
    reveal_with_fuel(first_empty, 5);
}

} // verus!
