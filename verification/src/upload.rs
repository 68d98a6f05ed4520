//! Authorising one upload: the object's key, what is to be signed, and what
//! the caller gets once it was signed.

use vstd::prelude::*;
use vstd::pervasive::unreached;
use crate::clock::unix_time_now;
use crate::decimal::{
    lemma_signed_decimal_injective, lemma_signed_decimal_shape, push_signed_decimal,
    signed_decimal,
};
use crate::error::{join, Failure, StorageError};
use crate::r2::{R2Config, Settings};

verus! {

/// The time, in seconds, for which a pre-signed address is valid.
pub const EXPIRY_SECONDS: u64 = 3600;

/// The longest validity, in seconds, that a pre-signed address can have.
pub const LONGEST_EXPIRY_SECONDS: u64 = 604800;

/// `aws_sdk_s3::presigning::PresigningConfig`: held and handed on, never
/// looked into.
#[verifier::external_type_specification]
#[verifier::external_body]
pub struct ExPresigningConfig(aws_sdk_s3::presigning::PresigningConfig);

/// `aws_sdk_s3::presigning::PresigningConfigError`: what a validity of more
/// than one week is refused with.
#[verifier::external_type_specification]
#[verifier::external_body]
pub struct ExPresigningConfigError(aws_sdk_s3::presigning::PresigningConfigError);

/// The key of an object: the upload's time in seconds since 1970, a hyphen,
/// and the file's name as it is.
pub open spec fn object_key(timestamp: int, filename: Seq<char>) -> Seq<char> {
    signed_decimal(timestamp) + seq!['-'] + filename
}

/// The public address of an object: the base, a slash, and the key as it is.
pub open spec fn public_address(base: Seq<char>, key: Seq<char>) -> Seq<char> {
    base + seq!['/'] + key
}

/// What the caller of an authorised upload gets: the pre-signed address to
/// send the bytes to, the object's key and its public address.
#[derive(Debug, PartialEq, Eq)]
pub struct PresignedUrlResponse {
    pub url: String,
    pub key: String,
    pub public_url: String,
}

/// A `PresignedUrlResponse` as mathematical values.
pub struct Authorization {
    pub url: Seq<char>,
    pub key: Seq<char>,
    pub public_url: Seq<char>,
}

impl View for PresignedUrlResponse {
    type V = Authorization;

    open spec fn view(&self) -> Authorization {
        Authorization { url: self.url@, key: self.key@, public_url: self.public_url@ }
    }
}

/// How long a pre-signed address is valid: the seconds, together with the
/// same validity in the form that the signing call takes. Only the builder
/// makes one, so the two always belong together.
#[derive(Debug)]
pub struct Validity {
    seconds: u64,
    config: aws_sdk_s3::presigning::PresigningConfig,
}

impl Validity {
    /// The seconds of this validity.
    pub closed spec fn duration(&self) -> u64 {
        self.seconds
    }

    /// The form of this validity that the signing call takes.
    pub closed spec fn handle(&self) -> aws_sdk_s3::presigning::PresigningConfig {
        self.config
    }

    /// The seconds of this validity.
    pub fn seconds(&self) -> (seconds: u64)
        ensures
            seconds == self.duration(),
    {
        self.seconds
    }

    /// The form of this validity that the signing call takes.
    pub fn config(&self) -> (config: &aws_sdk_s3::presigning::PresigningConfig)
        ensures
            *config == self.handle(),
    {
        &self.config
    }
}

/// One upload that waits to be signed: a PUT of one object, of one content
/// type, into one bucket, for as long as its validity says. Only
/// `prepare_upload` and `prepare_upload_at` make one.
#[derive(Debug)]
pub struct UploadRequest {
    bucket: String,
    key: String,
    content_type: String,
    public_url: String,
    validity: Validity,
}

/// An `UploadRequest` as mathematical values.
pub struct Upload {
    pub bucket: Seq<char>,
    pub key: Seq<char>,
    pub content_type: Seq<char>,
    pub public_url: Seq<char>,
    pub expires_in: u64,
}

impl View for UploadRequest {
    type V = Upload;

    closed spec fn view(&self) -> Upload {
        Upload {
            bucket: self.bucket@,
            key: self.key@,
            content_type: self.content_type@,
            public_url: self.public_url@,
            expires_in: self.validity.duration(),
        }
    }
}

impl UploadRequest {
    /// The validity that this upload is signed with.
    pub closed spec fn granted(&self) -> Validity {
        self.validity
    }

    /// The bucket that the object goes into.
    pub fn bucket(&self) -> (bucket: &str)
        ensures
            bucket@ == self@.bucket,
    {
        self.bucket.as_str()
    }

    /// The key of the object.
    pub fn key(&self) -> (key: &str)
        ensures
            key@ == self@.key,
    {
        self.key.as_str()
    }

    /// The content type that the upload must have.
    pub fn content_type(&self) -> (content_type: &str)
        ensures
            content_type@ == self@.content_type,
    {
        self.content_type.as_str()
    }

    /// The public address of the object.
    pub fn public_url(&self) -> (public_url: &str)
        ensures
            public_url@ == self@.public_url,
    {
        self.public_url.as_str()
    }

    /// The validity that this upload is signed with.
    pub fn validity(&self) -> (validity: &Validity)
        ensures
            *validity == self.granted(),
            validity.duration() == self@.expires_in,
    {
        &self.validity
    }
}

/// Whether `request` is the upload of `filename` at `timestamp` under
/// `settings`, valid for one hour.
pub open spec fn is_request_for(
    request: Upload,
    settings: Settings,
    filename: Seq<char>,
    content_type: Seq<char>,
    timestamp: int,
) -> bool {
    &&& request.bucket == settings.bucket_name
    &&& request.key == object_key(timestamp, filename)
    &&& request.content_type == content_type
    &&& request.public_url == public_address(settings.public_url, request.key)
    &&& request.expires_in == EXPIRY_SECONDS
}

/// What the signing of `request` comes to.
pub open spec fn signing_result(request: Upload, signed: Result<String, String>) -> Result<
    Authorization,
    Failure,
> {
    match signed {
        Ok(url) => Ok(
            Authorization { url: url@, key: request.key, public_url: request.public_url },
        ),
        Err(reason) => Err(
            Failure::SigningFailure("Failed to generate presigned URL: "@ + reason@),
        ),
    }
}

/// `aws_sdk_s3::presigning::PresigningConfig::expires_in`, with the validity
/// given in whole seconds: it gives a configuration exactly where the
/// validity is no longer than one week, and an error for a longer one. The
/// configuration holds the validity that was asked for, and comes back
/// together with its seconds.
#[verifier::external_body]
fn presigning_config(seconds: u64) -> (made: Result<
    Validity,
    aws_sdk_s3::presigning::PresigningConfigError,
>)
    ensures
        made is Ok <==> seconds <= LONGEST_EXPIRY_SECONDS,
        made matches Ok(validity) ==> validity.duration() == seconds,
{
    match aws_sdk_s3::presigning::PresigningConfig::expires_in(
        std::time::Duration::from_secs(seconds),
    ) {
        Ok(config) => Ok(Validity { seconds, config }),
        Err(error) => Err(error),
    }
}

/// The key of the object that holds the upload of `filename` at `timestamp`.
pub fn upload_key(timestamp: i64, filename: &str) -> (key: String)
    ensures
        key@ == object_key(timestamp as int, filename@),
{
    let mut key = String::new();
    push_signed_decimal(&mut key, timestamp);
    proof {
        reveal_strlit("-");
    }
    key.append("-");
    key.append(filename);
    assert(key@ =~= object_key(timestamp as int, filename@));
    key
}

/// The public address of the object `key` under the base `base`. Nothing in
/// `key` is escaped.
pub fn public_url_of(base: &str, key: &str) -> (address: String)
    ensures
        address@ == public_address(base@, key@),
{
    let mut address = base.to_owned();
    proof {
        reveal_strlit("/");
    }
    address.append("/");
    address.append(key);
    assert(address@ =~= public_address(base@, key@));
    address
}

/// The upload of `filename` at `timestamp`, ready to be signed.
pub fn prepare_upload_at(
    config: &R2Config,
    filename: &str,
    content_type: &str,
    timestamp: i64,
) -> (request: UploadRequest)
    ensures
        is_request_for(request@, config@, filename@, content_type@, timestamp as int),
{
    let key = upload_key(timestamp, filename);
    let public_url = public_url_of(config.public_url.as_str(), key.as_str());
    match presigning_config(EXPIRY_SECONDS) {
        Ok(validity) => UploadRequest {
            bucket: config.bucket_name.clone(),
            key,
            content_type: content_type.to_owned(),
            public_url,
            validity,
        },
        Err(_) => unreached(),
    }
}

/// The upload of `filename` now, ready to be signed: the key holds the time
/// that the clock gave.
pub fn prepare_upload(config: &R2Config, filename: &str, content_type: &str) -> (request:
    UploadRequest)
    ensures
        exists|timestamp: i64|
            is_request_for(request@, config@, filename@, content_type@, timestamp as int),
{
    let timestamp = unix_time_now();
    let request = prepare_upload_at(config, filename, content_type, timestamp);
    assert(is_request_for(request@, config@, filename@, content_type@, timestamp as int));
    request
}

/// What the caller gets for `request` once the signing was tried: with the
/// signed address, the address, the key and the public address; without it,
/// the failure with the reason.
pub fn generate_presigned_url(request: UploadRequest, signed: Result<String, String>) -> (result:
    Result<PresignedUrlResponse, StorageError>)
    ensures
        match result {
            Ok(response) => signing_result(request@, signed) == Ok::<Authorization, Failure>(
                response@,
            ),
            Err(error) => signing_result(request@, signed) == Err::<Authorization, Failure>(
                error@,
            ),
        },
{
    match signed {
        Ok(url) => Ok(
            PresignedUrlResponse { url, key: request.key, public_url: request.public_url },
        ),
        Err(reason) => Err(
            StorageError::SigningFailure(
                join("Failed to generate presigned URL: ", reason.as_str()),
            ),
        ),
    }
}

/// Two keys are the same only where both the time and the file's name are
/// the same: the time's digits end at the first hyphen behind the first
/// character, so a key can be read in one way only.
pub proof fn law_key_determines_upload(
    first_time: int,
    first_name: Seq<char>,
    second_time: int,
    second_name: Seq<char>,
)
    requires
        object_key(first_time, first_name) == object_key(second_time, second_name),
    ensures
        first_time == second_time,
        first_name == second_name,
{
    let a = signed_decimal(first_time);
    let b = signed_decimal(second_time);
    let first = object_key(first_time, first_name);
    let second = object_key(second_time, second_name);
    lemma_signed_decimal_shape(first_time);
    lemma_signed_decimal_shape(second_time);
    if a.len() < b.len() {
        assert(first[a.len() as int] == '-');
        assert(second[a.len() as int] == b[a.len() as int]);
        assert('0' <= b[a.len() as int]);
    } else if b.len() < a.len() {
        assert(second[b.len() as int] == '-');
        assert(first[b.len() as int] == a[b.len() as int]);
        assert('0' <= a[b.len() as int]);
    } else {
        assert(a =~= first.subrange(0, a.len() as int));
        assert(b =~= second.subrange(0, b.len() as int));
        lemma_signed_decimal_injective(first_time, second_time);
        assert(first_name =~= first.subrange(a.len() as int + 1, first.len() as int));
        assert(second_name =~= second.subrange(b.len() as int + 1, second.len() as int));
    }
}

/// The same file's name at two different times gives two different keys.
pub proof fn law_key_differs_by_time(first_time: int, second_time: int, filename: Seq<char>)
    requires
        first_time != second_time,
    ensures
        object_key(first_time, filename) != object_key(second_time, filename),
{
    if object_key(first_time, filename) == object_key(second_time, filename) {
        law_key_determines_upload(first_time, filename, second_time, filename);
    }
}

} // verus!
