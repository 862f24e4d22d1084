//! The remote publishing client: where the service lives, which requests the
//! two commands send, and what each command returns for every way the
//! exchange can end.

use vstd::prelude::*;
use vstd::string::*;
use crate::failure::{CommandError, Stage};
use crate::text::{
    joined, lemma_trailing_slashes_do_not_count, lemma_without_trailing_slashes,
    trim_trailing_slashes, without_trailing_slashes,
};

verus! {

/// The address of the hosted service, used when none is configured.
pub open spec fn default_base_url() -> Seq<char> {
    "https://dependent-klarika-rorymercury91-e1486cf2.koyeb.app"@
}

/// The path of the health check.
pub open spec fn health_path() -> Seq<char> {
    "/health"@
}

/// The path that posts are published to.
pub open spec fn publish_path() -> Seq<char> {
    "/api/forum-post"@
}

/// The name of the header that carries the API key.
pub open spec fn api_key_header() -> Seq<char> {
    "X-API-KEY"@
}

/// The address of `path` on the service at `base`: the base without the
/// slashes that end it, then the path.
pub open spec fn endpoint(base: Seq<char>, path: Seq<char>) -> Seq<char> {
    without_trailing_slashes(base) + path
}

/// Slashes at the end of the base address do not change where a path is
/// found, and the path follows the base with no slash of the base between.
pub proof fn lemma_endpoint_ignores_trailing_slashes(base: Seq<char>, path: Seq<char>)
    ensures
        endpoint(base.push('/'), path) == endpoint(base, path),
        endpoint(without_trailing_slashes(base), path) == endpoint(base, path),
        without_trailing_slashes(base).len() > 0 ==> without_trailing_slashes(base).last() != '/',
{
    lemma_trailing_slashes_do_not_count(base);
    lemma_without_trailing_slashes(base);
}

/// Where the service lives and how to authenticate with it.
#[derive(Clone, Debug, PartialEq, Eq)]
pub struct ApiConfig {
    pub base_url: String,
    pub api_key: String,
}

/// A post to publish. The fields are passed on as they are; judging them is
/// the service's business.
#[derive(Clone, Debug, PartialEq, Eq)]
pub struct PublishPayload {
    /// The kind of publication, sent under the key `type`.
    pub kind: String,
    pub title: String,
    pub content: String,
    pub tags: String,
    /// Names of stored images, in the order they are to appear.
    pub images: Vec<String>,
}

#[derive(Clone, Copy, Debug, PartialEq, Eq, Structural)]
pub enum Method {
    Get,
    Post,
}

#[derive(Clone, Debug, PartialEq, Eq)]
pub struct Header {
    pub name: String,
    pub value: String,
}

/// A request for the caller to send.
#[derive(Clone, Debug, PartialEq, Eq)]
pub struct ApiRequest {
    pub method: Method,
    pub url: String,
    /// Headers to add to the request, besides those the body implies.
    pub headers: Vec<Header>,
    /// The value to send as the JSON body, if any.
    pub body: Option<PublishPayload>,
}

/// How an exchange with the service ended.
#[derive(Debug, PartialEq)]
pub enum Exchange {
    /// The request could not be delivered or answered.
    Unreachable(String),
    /// An answer came, but its body could not be read as JSON.
    Undecodable(String),
    /// The answer's body, decoded.
    Decoded(serde_json::Value),
}

impl ApiConfig {
    /// The configuration that the given settings ask for: the configured
    /// base address, or the hosted service where none is set; the configured
    /// key, or the empty key where none is set.
    pub fn resolve(base_url: Option<String>, api_key: Option<String>) -> (c: ApiConfig)
        ensures
            c.base_url@ == (match base_url {
                Some(url) => url@,
                None => default_base_url(),
            }),
            c.api_key@ == (match api_key {
                Some(key) => key@,
                None => Seq::<char>::empty(),
            }),
    {
        let base_url = match base_url {
            Some(url) => url,
            None => String::from_str("https://dependent-klarika-rorymercury91-e1486cf2.koyeb.app"),
        };
        let api_key = match api_key {
            Some(key) => key,
            None => String::new(),
        };
        ApiConfig { base_url, api_key }
    }

    /// The address of the health check.
    pub fn health_url(&self) -> (r: String)
        ensures
            r@ == endpoint(self.base_url@, health_path()),
    {
        joined(trim_trailing_slashes(self.base_url.as_str()), "/health")
    }

    /// The address that posts are published to.
    pub fn publish_url(&self) -> (r: String)
        ensures
            r@ == endpoint(self.base_url@, publish_path()),
    {
        joined(trim_trailing_slashes(self.base_url.as_str()), "/api/forum-post")
    }
}

/// The request of the health check: a plain GET, without key or body.
pub fn health_request(config: &ApiConfig) -> (r: ApiRequest)
    ensures
        r.method == Method::Get,
        r.url@ == endpoint(config.base_url@, health_path()),
        r.headers@.len() == 0,
        r.body is None,
{
    ApiRequest { method: Method::Get, url: config.health_url(), headers: Vec::new(), body: None }
}

/// The request that publishes `payload`: a POST with the payload as its body
/// and the API key in its one extra header.
pub fn publish_request(config: &ApiConfig, payload: PublishPayload) -> (r: ApiRequest)
    ensures
        r.method == Method::Post,
        r.url@ == endpoint(config.base_url@, publish_path()),
        r.headers@.len() == 1,
        r.headers@[0].name@ == api_key_header(),
        r.headers@[0].value@ == config.api_key@,
        r.body == Some(payload),
{
    let mut headers: Vec<Header> = Vec::new();
    headers.push(Header { name: String::from_str("X-API-KEY"), value: config.api_key.clone() });
    ApiRequest { method: Method::Post, url: config.publish_url(), headers, body: Some(payload) }
}

/// What a command returns for an exchange: the decoded answer as it came, a
/// failure at `unreachable` when the service could not be reached, a parse
/// failure when the answer was not JSON.
pub open spec fn answer_matches(
    exchange: Exchange,
    unreachable: Stage,
    r: Result<serde_json::Value, CommandError>,
) -> bool {
    match exchange {
        Exchange::Unreachable(cause) => r is Err && r->Err_0.is(unreachable, false, cause@),
        Exchange::Undecodable(cause) => r is Err && r->Err_0.is(Stage::Parse, false, cause@),
        Exchange::Decoded(value) => r == Ok::<serde_json::Value, CommandError>(value),
    }
}

fn answer(exchange: Exchange, unreachable: Stage) -> (r: Result<serde_json::Value, CommandError>)
    ensures
        answer_matches(exchange, unreachable, r),
{
    match exchange {
        Exchange::Unreachable(cause) => Err(CommandError::with_detail(unreachable, cause)),
        Exchange::Undecodable(cause) => Err(CommandError::with_detail(Stage::Parse, cause)),
        Exchange::Decoded(value) => Ok(value),
    }
}

/// The result of the health check, given how its exchange ended. An
/// unreachable service is a connection failure, never an empty answer.
pub fn test_api_connection(exchange: Exchange) -> (r: Result<serde_json::Value, CommandError>)
    ensures
        answer_matches(exchange, Stage::Connection, r),
{
    answer(exchange, Stage::Connection)
}

/// The result of publishing a post, given how its exchange ended.
pub fn publish_post(exchange: Exchange) -> (r: Result<serde_json::Value, CommandError>)
    ensures
        answer_matches(exchange, Stage::Publication, r),
{
    answer(exchange, Stage::Publication)
}

} // verus!
