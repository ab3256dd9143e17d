use qiniu_uploader::{Config, ConfigDocument, ConfigError, ConfigField, TOKEN_EXPIRY_SECS};

fn doc(
    a: Option<&str>,
    s: Option<&str>,
    b: Option<&str>,
    u: Option<&str>,
    d: Option<&str>,
) -> ConfigDocument {
    ConfigDocument {
        access_key: a.map(String::from),
        secret_key: s.map(String::from),
        bucket_name: b.map(String::from),
        base_url: u.map(String::from),
        base_dir: d.map(String::from),
    }
}

fn err(d: ConfigDocument) -> ConfigError {
    match Config::from_document(d) {
        Err(e) => e,
        Ok(_) => panic!("configuration accepted"),
    }
}

#[test]
fn complete_config_is_accepted_with_and_without_base_dir() {
    let c = Config::from_document(doc(Some("ak"), Some("sk"), Some("bkt"), Some("https://cdn.example.com"), None)).unwrap();
    assert_eq!(c.access_key, "ak");
    assert_eq!(c.secret_key, "sk");
    assert_eq!(c.bucket_name, "bkt");
    assert_eq!(c.base_url, "https://cdn.example.com");
    assert_eq!(c.base_dir, None);
    let c = Config::from_document(doc(Some("ak"), Some("sk"), Some("bkt"), Some("u"), Some("/backup"))).unwrap();
    assert_eq!(c.base_dir.as_deref(), Some("/backup"));
}

#[test]
fn missing_fields_are_rejected_in_order() {
    assert_eq!(err(doc(None, Some("s"), Some("b"), Some("u"), None)), ConfigError::MissingField(ConfigField::AccessKey));
    assert_eq!(err(doc(Some("a"), None, Some("b"), Some("u"), None)), ConfigError::MissingField(ConfigField::SecretKey));
    assert_eq!(err(doc(Some("a"), Some("s"), None, Some("u"), None)), ConfigError::MissingField(ConfigField::BucketName));
    assert_eq!(err(doc(Some("a"), Some("s"), Some("b"), None, None)), ConfigError::MissingField(ConfigField::BaseUrl));
    assert_eq!(err(doc(None, None, None, None, Some("d"))), ConfigError::MissingField(ConfigField::AccessKey));
}

#[test]
fn empty_fields_are_rejected_in_order() {
    assert_eq!(err(doc(Some(""), Some("s"), Some("b"), Some("u"), None)), ConfigError::EmptyField(ConfigField::AccessKey));
    assert_eq!(err(doc(Some("a"), Some(""), Some("b"), Some("u"), None)), ConfigError::EmptyField(ConfigField::SecretKey));
    assert_eq!(err(doc(Some("a"), Some("s"), Some(""), Some("u"), None)), ConfigError::EmptyField(ConfigField::BucketName));
    assert_eq!(err(doc(Some("a"), Some("s"), Some("b"), Some(""), None)), ConfigError::EmptyField(ConfigField::BaseUrl));
    assert_eq!(err(doc(Some(""), Some(""), Some(""), Some(""), None)), ConfigError::EmptyField(ConfigField::AccessKey));
}

#[test]
fn a_missing_field_is_reported_before_an_empty_one() {
    assert_eq!(err(doc(Some(""), Some("s"), Some("b"), None, None)), ConfigError::MissingField(ConfigField::BaseUrl));
}

#[test]
fn token_lifetime_is_one_hour() {
    assert_eq!(TOKEN_EXPIRY_SECS, 3600);
}
