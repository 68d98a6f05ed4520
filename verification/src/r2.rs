//! The storage configuration and the way it is found: the configuration file
//! first, the environment only where the file gives nothing.

use vstd::prelude::*;
use crate::error::{join, unit_result_is, Failure, StorageError};
use crate::files::WriteOutcome;

verus! {

/// Credentials and settings of one bucket.
#[derive(Debug, PartialEq, Eq)]
pub struct R2Config {
    pub account_id: String,
    pub access_key_id: String,
    pub secret_access_key: String,
    pub bucket_name: String,
    pub public_url: String,
}

/// An `R2Config` as mathematical values.
pub struct Settings {
    pub account_id: Seq<char>,
    pub access_key_id: Seq<char>,
    pub secret_access_key: Seq<char>,
    pub bucket_name: Seq<char>,
    pub public_url: Seq<char>,
}

impl View for R2Config {
    type V = Settings;

    open spec fn view(&self) -> Settings {
        Settings {
            account_id: self.account_id@,
            access_key_id: self.access_key_id@,
            secret_access_key: self.secret_access_key@,
            bucket_name: self.bucket_name@,
            public_url: self.public_url@,
        }
    }
}

impl Clone for R2Config {
    fn clone(&self) -> (copy: Self)
        ensures
            copy@ == self@,
    {
        R2Config {
            account_id: self.account_id.clone(),
            access_key_id: self.access_key_id.clone(),
            secret_access_key: self.secret_access_key.clone(),
            bucket_name: self.bucket_name.clone(),
            public_url: self.public_url.clone(),
        }
    }
}

/// Whether all five settings are non-empty, as a configuration must be to be
/// of use.
pub open spec fn usable(settings: Settings) -> bool {
    &&& settings.account_id.len() > 0
    &&& settings.access_key_id.len() > 0
    &&& settings.secret_access_key.len() > 0
    &&& settings.bucket_name.len() > 0
    &&& settings.public_url.len() > 0
}

/// The name of the variable of the first setting of `settings` that is
/// empty, in the order account id, access key id, secret access key, bucket
/// name, public address; `None` where none is empty.
pub open spec fn missing_setting(settings: Settings) -> Option<Seq<char>> {
    if settings.account_id.len() == 0 {
        Some("R2_ACCOUNT_ID"@)
    } else if settings.access_key_id.len() == 0 {
        Some("R2_ACCESS_KEY_ID"@)
    } else if settings.secret_access_key.len() == 0 {
        Some("R2_SECRET_ACCESS_KEY"@)
    } else if settings.bucket_name.len() == 0 {
        Some("R2_BUCKET_NAME"@)
    } else if settings.public_url.len() == 0 {
        Some("R2_PUBLIC_URL"@)
    } else {
        None
    }
}

/// The settings, or `ConfigMissing` with the first of them that is empty.
pub open spec fn checked(settings: Settings) -> Result<Settings, Failure> {
    match missing_setting(settings) {
        Some(variable) => Err(Failure::ConfigMissing(variable)),
        None => Ok(settings),
    }
}

/// What was found where the configuration file should be.
#[derive(Debug, PartialEq, Eq)]
pub enum ConfigFile {
    /// The user's home directory is not known.
    NoHomeDirectory,
    /// The application directory could not be created.
    DirectoryFailed(String),
    /// There is no configuration file.
    Missing,
    /// The file is there and could not be read.
    Unreadable(String),
    /// The file was read and is no configuration.
    Malformed(String),
    /// The file holds this configuration.
    Parsed(R2Config),
}

/// The five variables of the environment, each with its value where it is set.
#[derive(Debug, PartialEq, Eq)]
pub struct Environment {
    pub account_id: Option<String>,
    pub access_key_id: Option<String>,
    pub secret_access_key: Option<String>,
    pub bucket_name: Option<String>,
    pub public_url: Option<String>,
}

/// The name of the variable that holds the account id.
pub fn account_id_variable() -> (name: &'static str)
    ensures
        name@ == "R2_ACCOUNT_ID"@,
{
    "R2_ACCOUNT_ID"
}

/// The name of the variable that holds the access key id.
pub fn access_key_id_variable() -> (name: &'static str)
    ensures
        name@ == "R2_ACCESS_KEY_ID"@,
{
    "R2_ACCESS_KEY_ID"
}

/// The name of the variable that holds the secret access key.
pub fn secret_access_key_variable() -> (name: &'static str)
    ensures
        name@ == "R2_SECRET_ACCESS_KEY"@,
{
    "R2_SECRET_ACCESS_KEY"
}

/// The name of the variable that holds the bucket's name.
pub fn bucket_name_variable() -> (name: &'static str)
    ensures
        name@ == "R2_BUCKET_NAME"@,
{
    "R2_BUCKET_NAME"
}

/// The name of the variable that holds the public address of the bucket.
pub fn public_url_variable() -> (name: &'static str)
    ensures
        name@ == "R2_PUBLIC_URL"@,
{
    "R2_PUBLIC_URL"
}

/// What reading the configuration file comes to: the configuration that it
/// holds, or the failure that says why there is none. A file whose
/// configuration has an empty setting holds none: the failure names the
/// first such setting.
pub open spec fn file_result(file: ConfigFile) -> Result<Settings, Failure> {
    match file {
        ConfigFile::NoHomeDirectory => Err(
            Failure::ConfigIoFailure("Failed to get home directory"@),
        ),
        ConfigFile::DirectoryFailed(reason) => Err(
            Failure::ConfigIoFailure("Failed to create config directory: "@ + reason@),
        ),
        ConfigFile::Missing => Err(
            Failure::ConfigIoFailure(
                "Configuration file not found. Please configure your R2 credentials."@,
            ),
        ),
        ConfigFile::Unreadable(reason) => Err(
            Failure::ConfigIoFailure("Failed to read config file: "@ + reason@),
        ),
        ConfigFile::Malformed(reason) => Err(
            Failure::ConfigUnreadable("Failed to parse config file: "@ + reason@),
        ),
        ConfigFile::Parsed(config) => checked(config@),
    }
}

/// The value of a variable: the empty text where it is not set.
pub open spec fn value_of(variable: Option<String>) -> Seq<char> {
    match variable {
        Some(value) => value@,
        None => Seq::<char>::empty(),
    }
}

/// The settings that the five variables hold, an unset one as the empty text.
pub open spec fn environment_settings(env: Environment) -> Settings {
    Settings {
        account_id: value_of(env.account_id),
        access_key_id: value_of(env.access_key_id),
        secret_access_key: value_of(env.secret_access_key),
        bucket_name: value_of(env.bucket_name),
        public_url: value_of(env.public_url),
    }
}

/// What the environment alone comes to: the configuration made of the five
/// values, or `ConfigMissing` with the name of the first variable, in the
/// order account id, access key id, secret access key, bucket name, public
/// address, that is not set or is set to the empty text.
pub open spec fn environment_result(env: Environment) -> Result<Settings, Failure> {
    checked(environment_settings(env))
}

/// What both sources together come to: the file's configuration where the
/// file holds one with no setting empty, whatever the environment says; else
/// what the environment comes to.
pub open spec fn resolved(file: ConfigFile, env: Environment) -> Result<Settings, Failure> {
    match file_result(file) {
        Ok(settings) => Ok(settings),
        Err(_) => environment_result(env),
    }
}

/// What writing the configuration file comes to.
pub open spec fn save_result(outcome: WriteOutcome) -> Result<(), Failure> {
    match outcome {
        WriteOutcome::NoHomeDirectory => Err(
            Failure::ConfigIoFailure("Failed to get home directory"@),
        ),
        WriteOutcome::DirectoryFailed(reason) => Err(
            Failure::ConfigIoFailure("Failed to create config directory: "@ + reason@),
        ),
        WriteOutcome::SerializeFailed(reason) => Err(
            Failure::ConfigIoFailure("Failed to serialize config: "@ + reason@),
        ),
        WriteOutcome::WriteFailed(reason) => Err(
            Failure::ConfigIoFailure("Failed to write config file: "@ + reason@),
        ),
        WriteOutcome::Written => Ok(()),
    }
}

/// Whether `result` is `expected`, the values taken by their views.
pub open spec fn config_result_is(
    result: Result<R2Config, StorageError>,
    expected: Result<Settings, Failure>,
) -> bool {
    match result {
        Ok(config) => expected == Ok::<Settings, Failure>(config@),
        Err(error) => expected == Err::<Settings, Failure>(error@),
    }
}

/// What is to be done next while a configuration is being found.
#[derive(Debug, PartialEq, Eq)]
pub enum ResolveStep {
    /// Load the environment file, read the five variables and hand them to
    /// `after_environment`.
    ReadEnvironment,
    /// Write this configuration to the configuration file and hand the
    /// outcome to `after_persist`.
    Persist(R2Config),
    /// Nothing: this is the result.
    Done(Result<R2Config, StorageError>),
}

/// Which environment file is loaded before the general search for one.
#[derive(Debug, Clone, Copy, PartialEq, Eq, Structural)]
pub enum EnvFile {
    /// The one in the current directory.
    CurrentDirectory,
    /// The one in the parent of the current directory.
    ParentDirectory,
    /// Neither: only the general search is made.
    SearchOnly,
}

/// Picks the environment file that is loaded first: the one in the current
/// directory where there is one, else the one in its parent where there is
/// one. `in_current` and `in_parent` say whether the file exists there.
pub fn env_file_choice(in_current: bool, in_parent: bool) -> (choice: EnvFile)
    ensures
        choice == if in_current {
            EnvFile::CurrentDirectory
        } else if in_parent {
            EnvFile::ParentDirectory
        } else {
            EnvFile::SearchOnly
        },
{
    if in_current {
        EnvFile::CurrentDirectory
    } else if in_parent {
        EnvFile::ParentDirectory
    } else {
        EnvFile::SearchOnly
    }
}

/// A configuration has no empty setting exactly where no setting is named as
/// missing.
pub proof fn law_usable_means_nothing_missing(settings: Settings)
    ensures
        usable(settings) <==> missing_setting(settings) is None,
        usable(settings) <==> checked(settings) == Ok::<Settings, Failure>(settings),
{
}

/// Whatever is found, from the file or from the environment, has no empty
/// setting.
pub proof fn law_found_configuration_is_usable(file: ConfigFile, env: Environment)
    ensures
        resolved(file, env) matches Ok(settings) ==> usable(settings),
        file_result(file) matches Ok(settings) ==> usable(settings),
        environment_result(env) matches Ok(settings) ==> usable(settings),
{
}

/// Where the file holds a configuration with no setting empty, that one is
/// found, whatever the environment holds.
pub proof fn law_file_takes_precedence(config: R2Config, env: Environment)
    requires
        usable(config@),
    ensures
        resolved(ConfigFile::Parsed(config), env) == Ok::<Settings, Failure>(config@),
{
}

/// Where the file holds no such configuration, what is found is what the
/// environment gives: the five values where all are set and none is empty,
/// else the first variable that is unset or empty.
pub proof fn law_environment_is_the_fallback(file: ConfigFile, env: Environment)
    requires
        file_result(file) is Err,
    ensures
        resolved(file, env) == environment_result(env),
        resolved(file, env) is Ok <==> usable(environment_settings(env)),
        resolved(file, env) is Ok ==> env.account_id is Some && env.access_key_id is Some
            && env.secret_access_key is Some && env.bucket_name is Some && env.public_url is Some,
{
}

/// The value of a variable, the empty text where it is not set.
fn value_or_empty(variable: Option<String>) -> (value: String)
    ensures
        value@ == value_of(variable),
{
    match variable {
        Some(value) => value,
        None => String::new(),
    }
}

impl R2Config {
    /// Whether all five settings are non-empty.
    pub fn is_usable(&self) -> (ok: bool)
        ensures
            ok == usable(self@),
    {
        !self.account_id.as_str().is_empty() && !self.access_key_id.as_str().is_empty()
            && !self.secret_access_key.as_str().is_empty() && !self.bucket_name.as_str().is_empty()
            && !self.public_url.as_str().is_empty()
    }

    /// The name of the variable of the first setting that is empty, if any is.
    pub fn first_missing(&self) -> (found: Option<&'static str>)
        ensures
            match found {
                Some(variable) => missing_setting(self@) == Some(variable@),
                None => missing_setting(self@) is None,
            },
    {
        if self.account_id.as_str().is_empty() {
            Some(account_id_variable())
        } else if self.access_key_id.as_str().is_empty() {
            Some(access_key_id_variable())
        } else if self.secret_access_key.as_str().is_empty() {
            Some(secret_access_key_variable())
        } else if self.bucket_name.as_str().is_empty() {
            Some(bucket_name_variable())
        } else if self.public_url.as_str().is_empty() {
            Some(public_url_variable())
        } else {
            None
        }
    }

    /// The configuration itself where no setting is empty, else the failure
    /// that names the first empty one.
    pub fn into_checked(self) -> (result: Result<R2Config, StorageError>)
        ensures
            config_result_is(result, checked(self@)),
    {
        match self.first_missing() {
            Some(variable) => Err(StorageError::ConfigMissing(variable.to_owned())),
            None => Ok(self),
        }
    }

    /// The configuration that the file holds, or why it holds none.
    pub fn load_from_file(file: ConfigFile) -> (result: Result<R2Config, StorageError>)
        ensures
            config_result_is(result, file_result(file)),
    {
        match file {
            ConfigFile::NoHomeDirectory => Err(
                StorageError::ConfigIoFailure("Failed to get home directory".to_owned()),
            ),
            ConfigFile::DirectoryFailed(reason) => Err(
                StorageError::ConfigIoFailure(
                    join("Failed to create config directory: ", reason.as_str()),
                ),
            ),
            ConfigFile::Missing => Err(
                StorageError::ConfigIoFailure(
                    "Configuration file not found. Please configure your R2 credentials.".to_owned(),
                ),
            ),
            ConfigFile::Unreadable(reason) => Err(
                StorageError::ConfigIoFailure(
                    join("Failed to read config file: ", reason.as_str()),
                ),
            ),
            ConfigFile::Malformed(reason) => Err(
                StorageError::ConfigUnreadable(
                    join("Failed to parse config file: ", reason.as_str()),
                ),
            ),
            ConfigFile::Parsed(config) => config.into_checked(),
        }
    }

    /// What an attempt to write the configuration file is reported as.
    pub fn save_to_file(outcome: WriteOutcome) -> (result: Result<(), StorageError>)
        ensures
            unit_result_is(result, save_result(outcome)),
    {
        match outcome {
            WriteOutcome::NoHomeDirectory => Err(
                StorageError::ConfigIoFailure("Failed to get home directory".to_owned()),
            ),
            WriteOutcome::DirectoryFailed(reason) => Err(
                StorageError::ConfigIoFailure(
                    join("Failed to create config directory: ", reason.as_str()),
                ),
            ),
            WriteOutcome::SerializeFailed(reason) => Err(
                StorageError::ConfigIoFailure(
                    join("Failed to serialize config: ", reason.as_str()),
                ),
            ),
            WriteOutcome::WriteFailed(reason) => Err(
                StorageError::ConfigIoFailure(
                    join("Failed to write config file: ", reason.as_str()),
                ),
            ),
            WriteOutcome::Written => Ok(()),
        }
    }

    /// The configuration made of the five variables, or the first of them
    /// that is not set or is set to the empty text.
    pub fn from_variables(env: Environment) -> (result: Result<R2Config, StorageError>)
        ensures
            config_result_is(result, environment_result(env)),
    {
        let config = R2Config {
            account_id: value_or_empty(env.account_id),
            access_key_id: value_or_empty(env.access_key_id),
            secret_access_key: value_or_empty(env.secret_access_key),
            bucket_name: value_or_empty(env.bucket_name),
            public_url: value_or_empty(env.public_url),
        };
        config.into_checked()
    }

    /// The configuration that the two sources give: the file's where the file
    /// holds one with no setting empty, else the environment's.
    pub fn from_env(file: ConfigFile, env: Environment) -> (result: Result<R2Config, StorageError>)
        ensures
            config_result_is(result, resolved(file, env)),
    {
        match R2Config::load_from_file(file) {
            Ok(config) => Ok(config),
            Err(_) => R2Config::from_variables(env),
        }
    }

    /// The step that follows a look at the configuration file: done with
    /// the file's configuration where it holds one with no setting empty,
    /// with the environment never consulted; else the environment is read.
    pub fn after_config_file(file: ConfigFile) -> (next: ResolveStep)
        ensures
            match file_result(file) {
                Ok(settings) => next matches ResolveStep::Done(Ok(found)) && found@ == settings,
                Err(_) => next is ReadEnvironment,
            },
    {
        match R2Config::load_from_file(file) {
            Ok(config) => ResolveStep::Done(Ok(config)),
            Err(_) => ResolveStep::ReadEnvironment,
        }
    }

    /// The step that follows the reading of the environment: the complete
    /// configuration is written to the configuration file; one with a
    /// variable unset or empty ends the search with the first such variable.
    pub fn after_environment(env: Environment) -> (next: ResolveStep)
        ensures
            match environment_result(env) {
                Ok(settings) => next matches ResolveStep::Persist(config) && config@ == settings,
                Err(failure) => next matches ResolveStep::Done(Err(error)) && error@ == failure,
            },
    {
        match R2Config::from_variables(env) {
            Ok(config) => ResolveStep::Persist(config),
            Err(error) => ResolveStep::Done(Err(error)),
        }
    }

    /// The end of the search once the configuration was handed to be
    /// written: the configuration, whether or not the writing succeeded.
    pub fn after_persist(config: R2Config, outcome: WriteOutcome) -> (result: Result<
        R2Config,
        StorageError,
    >)
        ensures
            result matches Ok(kept) && kept@ == config@,
    {
        Ok(config)
    }
}

} // verus!
