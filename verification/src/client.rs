//! The client of the bucket's endpoint, and the settings it is built with.

use vstd::prelude::*;
use crate::error::{join, StorageError};
use crate::r2::{R2Config, Settings};

verus! {

/// `aws_sdk_s3::Client`: held and handed on, never looked into.
#[verifier::external_type_specification]
#[verifier::external_body]
pub struct ExClient(aws_sdk_s3::Client);

/// `std::time::SystemTime`: held and handed on, never looked into.
#[verifier::external_type_specification]
#[verifier::external_body]
pub struct ExSystemTime(std::time::SystemTime);

/// What a client is built with.
#[derive(Debug, PartialEq, Eq)]
pub struct ClientSettings {
    pub access_key_id: String,
    pub secret_access_key: String,
    pub session_token: Option<String>,
    pub expires_after: Option<std::time::SystemTime>,
    pub provider_name: &'static str,
    pub region: &'static str,
    pub endpoint: String,
    pub force_path_style: bool,
}

/// `ClientSettings` as mathematical values.
pub struct Connection {
    pub access_key_id: Seq<char>,
    pub secret_access_key: Seq<char>,
    pub session_token: Option<Seq<char>>,
    pub expires_after: Option<std::time::SystemTime>,
    pub provider_name: Seq<char>,
    pub region: Seq<char>,
    pub endpoint: Seq<char>,
    pub force_path_style: bool,
}

impl View for ClientSettings {
    type V = Connection;

    open spec fn view(&self) -> Connection {
        Connection {
            access_key_id: self.access_key_id@,
            secret_access_key: self.secret_access_key@,
            session_token: match self.session_token {
                Some(token) => Some(token@),
                None => None,
            },
            expires_after: self.expires_after,
            provider_name: self.provider_name@,
            region: self.region@,
            endpoint: self.endpoint@,
            force_path_style: self.force_path_style,
        }
    }
}

/// The address of an account's endpoint.
pub open spec fn endpoint_of(account_id: Seq<char>) -> Seq<char> {
    "https://"@ + account_id + ".r2.cloudflarestorage.com"@
}

/// The connection that `settings` asks for: the account's own endpoint,
/// addressed by path, with the region `auto`, since the endpoint is given
/// and no region is routed to, and the credentials under the name `r2`,
/// without a session token and without an end to their validity.
pub open spec fn connection_for(settings: Settings) -> Connection {
    Connection {
        access_key_id: settings.access_key_id,
        secret_access_key: settings.secret_access_key,
        session_token: None,
        expires_after: None,
        provider_name: "r2"@,
        region: "auto"@,
        endpoint: endpoint_of(settings.account_id),
        force_path_style: true,
    }
}

/// A client together with the settings that it was built with. Only the
/// builder makes one, so the two always belong together.
#[derive(Debug)]
pub struct R2Client {
    settings: ClientSettings,
    inner: aws_sdk_s3::Client,
}

impl R2Client {
    /// The settings that this client was built with.
    pub closed spec fn connection(&self) -> Connection {
        self.settings@
    }

    /// The settings that this client was built with.
    pub fn settings(&self) -> (settings: &ClientSettings)
        ensures
            settings@ == self.connection(),
    {
        &self.settings
    }

    /// The client itself, for the requests that the caller sends.
    pub fn inner(&self) -> (client: &aws_sdk_s3::Client)
        ensures
            *client == self.handle(),
    {
        &self.inner
    }

    /// The client that this value holds: the one that was built with
    /// `connection()`.
    pub closed spec fn handle(&self) -> aws_sdk_s3::Client {
        self.inner
    }
}

/// Builds the client: `aws_credential_types::Credentials::new` with the
/// settings' key, secret, session token, expiry and provider name, the
/// builder of `aws_sdk_s3::Config` with these credentials and the settings'
/// region, endpoint and addressing, and `aws_sdk_s3::Client::from_conf`. The
/// client comes back together with the settings that it was built with, and
/// that is all that is claimed. No request is sent, and the endpoint's
/// address is not read yet. `from_conf` panics on a configuration without a
/// behaviour version or without a sleep implementation; the features
/// `behavior-version-latest` and `rt-tokio` of `aws-sdk-s3`, which this
/// crate builds with, give both.
#[verifier::external_body]
fn build_client(settings: ClientSettings) -> (client: R2Client)
    ensures
        client.connection() == settings@,
{
    let credentials = aws_credential_types::Credentials::new(
        settings.access_key_id.clone(),
        settings.secret_access_key.clone(),
        settings.session_token.clone(),
        settings.expires_after,
        settings.provider_name,
    );
    let conf = aws_sdk_s3::Config::builder()
        .credentials_provider(credentials)
        .region(aws_sdk_s3::config::Region::new(settings.region))
        .endpoint_url(settings.endpoint.clone())
        .force_path_style(settings.force_path_style)
        .build();
    R2Client { inner: aws_sdk_s3::Client::from_conf(conf), settings }
}

/// The settings of the client for `config`.
pub fn client_settings(config: &R2Config) -> (settings: ClientSettings)
    ensures
        settings@ == connection_for(config@),
{
    let mut endpoint = join("https://", config.account_id.as_str());
    endpoint.append(".r2.cloudflarestorage.com");
    assert(endpoint@ =~= endpoint_of(config@.account_id));
    ClientSettings {
        access_key_id: config.access_key_id.clone(),
        secret_access_key: config.secret_access_key.clone(),
        session_token: None,
        expires_after: None,
        provider_name: "r2",
        region: "auto",
        endpoint,
        force_path_style: true,
    }
}

/// The client for `config`. Building it never fails and sends nothing:
/// whether the endpoint can be reached shows with the first request.
pub fn create_r2_client(config: &R2Config) -> (result: Result<R2Client, StorageError>)
    ensures
        result matches Ok(client) && client.connection() == connection_for(config@)
            && client.connection().endpoint == endpoint_of(config@.account_id)
            && client.connection().force_path_style,
{
    Ok(build_client(client_settings(config)))
}

} // verus!
