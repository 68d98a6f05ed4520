use r2_storage::error::StorageError;
use r2_storage::files::{app_dir_name, config_file_name, history_file_name, WriteOutcome};
use r2_storage::r2::{
    access_key_id_variable, account_id_variable, bucket_name_variable, env_file_choice,
    public_url_variable, secret_access_key_variable, ConfigFile, EnvFile, Environment, R2Config,
    ResolveStep,
};

fn file_config() -> R2Config {
    R2Config {
        account_id: "file-account".to_string(),
        access_key_id: "file-key".to_string(),
        secret_access_key: "file-secret".to_string(),
        bucket_name: "file-bucket".to_string(),
        public_url: "https://file.example.com".to_string(),
    }
}

fn env_config() -> R2Config {
    R2Config {
        account_id: "env-account".to_string(),
        access_key_id: "env-key".to_string(),
        secret_access_key: "env-secret".to_string(),
        bucket_name: "env-bucket".to_string(),
        public_url: "https://env.example.com".to_string(),
    }
}

fn full_env() -> Environment {
    let c = env_config();
    Environment {
        account_id: Some(c.account_id),
        access_key_id: Some(c.access_key_id),
        secret_access_key: Some(c.secret_access_key),
        bucket_name: Some(c.bucket_name),
        public_url: Some(c.public_url),
    }
}

fn empty_env() -> Environment {
    Environment {
        account_id: None,
        access_key_id: None,
        secret_access_key: None,
        bucket_name: None,
        public_url: None,
    }
}

fn missing(name: &str) -> Result<R2Config, StorageError> {
    Err(StorageError::ConfigMissing(name.to_string()))
}

#[test]
fn file_wins_over_environment() {
    assert_eq!(
        R2Config::from_env(ConfigFile::Parsed(file_config()), full_env()),
        Ok(file_config())
    );
    assert_eq!(
        R2Config::from_env(ConfigFile::Parsed(file_config()), empty_env()),
        Ok(file_config())
    );
}

#[test]
fn nothing_anywhere_names_the_account_id() {
    let result = R2Config::from_env(ConfigFile::Missing, empty_env());
    assert_eq!(result, missing("R2_ACCOUNT_ID"));
    assert_eq!(
        result.unwrap_err().message(),
        "R2_ACCOUNT_ID not set. Please configure your credentials."
    );
}

#[test]
fn environment_is_used_where_the_file_gives_nothing() {
    assert_eq!(R2Config::from_env(ConfigFile::Missing, full_env()), Ok(env_config()));
    assert_eq!(R2Config::from_env(ConfigFile::NoHomeDirectory, full_env()), Ok(env_config()));
    assert_eq!(
        R2Config::from_env(ConfigFile::DirectoryFailed("x".to_string()), full_env()),
        Ok(env_config())
    );
    assert_eq!(
        R2Config::from_env(ConfigFile::Unreadable("x".to_string()), full_env()),
        Ok(env_config())
    );
    assert_eq!(
        R2Config::from_env(ConfigFile::Malformed("x".to_string()), full_env()),
        Ok(env_config())
    );
}

#[test]
fn first_missing_variable_is_named() {
    let mut env = full_env();
    env.public_url = None;
    assert_eq!(R2Config::from_variables(env), missing("R2_PUBLIC_URL"));

    let mut env = full_env();
    env.bucket_name = None;
    env.public_url = None;
    assert_eq!(R2Config::from_variables(env), missing("R2_BUCKET_NAME"));

    let mut env = full_env();
    env.secret_access_key = None;
    env.public_url = None;
    assert_eq!(R2Config::from_variables(env), missing("R2_SECRET_ACCESS_KEY"));

    let mut env = full_env();
    env.access_key_id = None;
    env.secret_access_key = None;
    assert_eq!(R2Config::from_variables(env), missing("R2_ACCESS_KEY_ID"));

    let mut env = full_env();
    env.account_id = None;
    env.bucket_name = None;
    assert_eq!(R2Config::from_variables(env), missing("R2_ACCOUNT_ID"));

    assert_eq!(R2Config::from_variables(full_env()), Ok(env_config()));
}

#[test]
fn a_variable_that_is_set_and_empty_counts_as_missing() {
    let env = Environment {
        account_id: Some(String::new()),
        access_key_id: Some("ek".to_string()),
        secret_access_key: Some("es".to_string()),
        bucket_name: Some("eb".to_string()),
        public_url: Some("https://e.example".to_string()),
    };
    assert_eq!(R2Config::from_env(ConfigFile::Missing, env), missing("R2_ACCOUNT_ID"));

    let mut env = full_env();
    env.bucket_name = Some(String::new());
    assert_eq!(R2Config::from_variables(env), missing("R2_BUCKET_NAME"));

    let mut env = full_env();
    env.access_key_id = Some(String::new());
    env.secret_access_key = None;
    assert_eq!(R2Config::from_variables(env), missing("R2_ACCESS_KEY_ID"));

    let mut env = full_env();
    env.access_key_id = None;
    env.secret_access_key = Some(String::new());
    assert_eq!(R2Config::after_environment(env), ResolveStep::Done(missing("R2_ACCESS_KEY_ID")));

    let mut env = full_env();
    env.public_url = Some(String::new());
    assert_eq!(R2Config::after_environment(env), ResolveStep::Done(missing("R2_PUBLIC_URL")));
}

#[test]
fn a_file_with_an_empty_setting_holds_no_configuration() {
    let mut broken = file_config();
    broken.secret_access_key = String::new();
    assert_eq!(
        R2Config::load_from_file(ConfigFile::Parsed(broken.clone())),
        missing("R2_SECRET_ACCESS_KEY")
    );
    assert_eq!(
        R2Config::from_env(ConfigFile::Parsed(broken.clone()), full_env()),
        Ok(env_config())
    );
    assert_eq!(
        R2Config::from_env(ConfigFile::Parsed(broken.clone()), empty_env()),
        missing("R2_ACCOUNT_ID")
    );
    assert_eq!(
        R2Config::after_config_file(ConfigFile::Parsed(broken)),
        ResolveStep::ReadEnvironment
    );
}

#[test]
fn what_is_found_is_usable() {
    assert!(R2Config::from_env(ConfigFile::Parsed(file_config()), empty_env())
        .unwrap()
        .is_usable());
    assert!(R2Config::from_env(ConfigFile::Missing, full_env()).unwrap().is_usable());
}

#[test]
fn first_empty_setting_is_named() {
    assert_eq!(file_config().first_missing(), None);
    let mut c = file_config();
    c.public_url = String::new();
    assert_eq!(c.first_missing(), Some("R2_PUBLIC_URL"));
    c.bucket_name = String::new();
    assert_eq!(c.first_missing(), Some("R2_BUCKET_NAME"));
    c.secret_access_key = String::new();
    assert_eq!(c.first_missing(), Some("R2_SECRET_ACCESS_KEY"));
    c.access_key_id = String::new();
    assert_eq!(c.first_missing(), Some("R2_ACCESS_KEY_ID"));
    c.account_id = String::new();
    assert_eq!(c.first_missing(), Some("R2_ACCOUNT_ID"));
    assert_eq!(c.into_checked(), missing("R2_ACCOUNT_ID"));
    assert_eq!(file_config().into_checked(), Ok(file_config()));
}

#[test]
fn reading_the_config_file() {
    assert_eq!(R2Config::load_from_file(ConfigFile::Parsed(file_config())), Ok(file_config()));
    assert_eq!(
        R2Config::load_from_file(ConfigFile::NoHomeDirectory),
        Err(StorageError::ConfigIoFailure("Failed to get home directory".to_string()))
    );
    assert_eq!(
        R2Config::load_from_file(ConfigFile::DirectoryFailed("denied".to_string())),
        Err(StorageError::ConfigIoFailure(
            "Failed to create config directory: denied".to_string()
        ))
    );
    assert_eq!(
        R2Config::load_from_file(ConfigFile::Missing),
        Err(StorageError::ConfigIoFailure(
            "Configuration file not found. Please configure your R2 credentials.".to_string()
        ))
    );
    assert_eq!(
        R2Config::load_from_file(ConfigFile::Unreadable("denied".to_string())),
        Err(StorageError::ConfigIoFailure("Failed to read config file: denied".to_string()))
    );
    assert_eq!(
        R2Config::load_from_file(ConfigFile::Malformed("missing field".to_string())),
        Err(StorageError::ConfigUnreadable(
            "Failed to parse config file: missing field".to_string()
        ))
    );
}

#[test]
fn writing_the_config_file() {
    assert_eq!(R2Config::save_to_file(WriteOutcome::Written), Ok(()));
    assert_eq!(
        R2Config::save_to_file(WriteOutcome::NoHomeDirectory),
        Err(StorageError::ConfigIoFailure("Failed to get home directory".to_string()))
    );
    assert_eq!(
        R2Config::save_to_file(WriteOutcome::DirectoryFailed("denied".to_string())),
        Err(StorageError::ConfigIoFailure(
            "Failed to create config directory: denied".to_string()
        ))
    );
    assert_eq!(
        R2Config::save_to_file(WriteOutcome::SerializeFailed("bad".to_string())),
        Err(StorageError::ConfigIoFailure("Failed to serialize config: bad".to_string()))
    );
    assert_eq!(
        R2Config::save_to_file(WriteOutcome::WriteFailed("disk full".to_string())),
        Err(StorageError::ConfigIoFailure("Failed to write config file: disk full".to_string()))
    );
}

#[test]
fn search_ends_at_a_parsed_file() {
    assert_eq!(
        R2Config::after_config_file(ConfigFile::Parsed(file_config())),
        ResolveStep::Done(Ok(file_config()))
    );
}

#[test]
fn search_goes_on_to_the_environment() {
    assert_eq!(R2Config::after_config_file(ConfigFile::Missing), ResolveStep::ReadEnvironment);
    assert_eq!(
        R2Config::after_config_file(ConfigFile::NoHomeDirectory),
        ResolveStep::ReadEnvironment
    );
    assert_eq!(
        R2Config::after_config_file(ConfigFile::Malformed("x".to_string())),
        ResolveStep::ReadEnvironment
    );
    assert_eq!(
        R2Config::after_config_file(ConfigFile::Unreadable("x".to_string())),
        ResolveStep::ReadEnvironment
    );
    assert_eq!(
        R2Config::after_config_file(ConfigFile::DirectoryFailed("x".to_string())),
        ResolveStep::ReadEnvironment
    );
}

#[test]
fn complete_environment_is_persisted() {
    assert_eq!(R2Config::after_environment(full_env()), ResolveStep::Persist(env_config()));
    assert_eq!(
        R2Config::after_environment(empty_env()),
        ResolveStep::Done(missing("R2_ACCOUNT_ID"))
    );
}

#[test]
fn failed_persisting_is_no_failure() {
    assert_eq!(R2Config::after_persist(env_config(), WriteOutcome::Written), Ok(env_config()));
    assert_eq!(
        R2Config::after_persist(env_config(), WriteOutcome::WriteFailed("disk full".to_string())),
        Ok(env_config())
    );
    assert_eq!(
        R2Config::after_persist(env_config(), WriteOutcome::NoHomeDirectory),
        Ok(env_config())
    );
}

#[test]
fn environment_file_is_taken_from_the_nearest_place() {
    assert_eq!(env_file_choice(true, true), EnvFile::CurrentDirectory);
    assert_eq!(env_file_choice(true, false), EnvFile::CurrentDirectory);
    assert_eq!(env_file_choice(false, true), EnvFile::ParentDirectory);
    assert_eq!(env_file_choice(false, false), EnvFile::SearchOnly);
}

#[test]
fn names_of_variables_and_files() {
    assert_eq!(account_id_variable(), "R2_ACCOUNT_ID");
    assert_eq!(access_key_id_variable(), "R2_ACCESS_KEY_ID");
    assert_eq!(secret_access_key_variable(), "R2_SECRET_ACCESS_KEY");
    assert_eq!(bucket_name_variable(), "R2_BUCKET_NAME");
    assert_eq!(public_url_variable(), "R2_PUBLIC_URL");
    assert_eq!(app_dir_name(), ".storage-app");
    assert_eq!(config_file_name(), "config.json");
    assert_eq!(history_file_name(), "history.json");
}

#[test]
fn usable_means_no_setting_is_empty() {
    assert!(file_config().is_usable());
    let mut c = file_config();
    c.account_id = String::new();
    assert!(!c.is_usable());
    let mut c = file_config();
    c.access_key_id = String::new();
    assert!(!c.is_usable());
    let mut c = file_config();
    c.secret_access_key = String::new();
    assert!(!c.is_usable());
    let mut c = file_config();
    c.bucket_name = String::new();
    assert!(!c.is_usable());
    let mut c = file_config();
    c.public_url = String::new();
    assert!(!c.is_usable());
}

#[test]
fn cloned_config_is_equal() {
    assert_eq!(file_config().clone(), file_config());
}
