//! The digest resolver: which request to send next, and what the answers
//! come to. It decides; sending and receiving is left to the caller.

use crate::bearer_auth::{challenge_of, token_url, BearerAuth, BearerChallenge, Error, ErrorKind};
use crate::registry::Registry;
use crate::text::{eq_ignore_ascii_case, same_ignoring_ascii_case, text_of};
use crate::token::{extract_token, token_of, TokenError, TokenErrorKind};
use std::str::FromStr;
use vstd::prelude::*;
use vstd::string::StringExecFns;

verus! {

/// One header of a response. The value is `None` where it is no text.
#[derive(Debug)]
pub struct Header {
    pub name: String,
    pub value: Option<String>,
}

/// What came back for a request. The body is empty where the request did
/// not ask for it.
#[derive(Debug)]
pub struct Response {
    pub status: u16,
    pub headers: Vec<Header>,
    pub body: String,
}

/// A `GET` request to send.
#[derive(Debug)]
pub struct Request {
    pub url: String,
    pub accept: Option<String>,
    pub authorization: Option<String>,
    pub read_body: bool,
}

/// A request as specifications see it.
pub struct RequestView {
    pub url: Seq<char>,
    pub accept: Option<Seq<char>>,
    pub authorization: Option<Seq<char>>,
    pub read_body: bool,
}

impl View for Request {
    type V = RequestView;

    open spec fn view(&self) -> RequestView {
        RequestView {
            url: self.url@,
            accept: text_of(self.accept),
            authorization: text_of(self.authorization),
            read_body: self.read_body,
        }
    }
}

/// How the registry's digest compares with the target digest.
#[derive(Debug)]
pub enum DigestComparison {
    /// They are the same.
    Match,
    /// They differ; this is the registry's.
    Differ(String),
}

/// A comparison as specifications see it.
pub enum Comparison {
    Match,
    Differ(Seq<char>),
}

impl View for DigestComparison {
    type V = Comparison;

    open spec fn view(&self) -> Comparison {
        match self {
            DigestComparison::Match => Comparison::Match,
            DigestComparison::Differ(digest) => Comparison::Differ(digest@),
        }
    }
}

/// Why no digest was resolved.
#[derive(Debug)]
pub enum ResolveError {
    /// No attempt yielded a digest, and nothing is left to try.
    DigestNotFound,
    /// The header that was looked for is there, and its value is no text.
    HeaderNotText,
    /// The registry's challenge is no usable `Bearer` challenge.
    Challenge(Error),
    /// The token endpoint's answer holds no token.
    Token(TokenError),
}

/// The kinds of [`ResolveError`].
pub enum Failure {
    DigestNotFound,
    HeaderNotText,
    Challenge(ErrorKind),
    Token(TokenErrorKind),
}

impl View for ResolveError {
    type V = Failure;

    open spec fn view(&self) -> Failure {
        match self {
            ResolveError::DigestNotFound => Failure::DigestNotFound,
            ResolveError::HeaderNotText => Failure::HeaderNotText,
            ResolveError::Challenge(error) => Failure::Challenge(error@),
            ResolveError::Token(error) => Failure::Token(error@),
        }
    }
}

/// Which answer the resolver waits for.
#[derive(Clone, Copy, Debug, PartialEq, Eq, Structural)]
pub enum Phase {
    /// The manifest was asked for without authentication.
    AnonymousRequestSent,
    /// The registry wants a token, and the token was asked for.
    NeedsAuth,
    /// The manifest was asked for with the token.
    AuthenticatedRequestSent,
}

/// A resolution under way.
#[derive(Debug)]
pub struct Resolver {
    manifest_url: String,
    target_digest: String,
    phase: Phase,
}

/// A resolution under way as specifications see it.
pub struct ResolverView {
    pub manifest_url: Seq<char>,
    pub target_digest: Seq<char>,
    pub phase: Phase,
}

impl View for Resolver {
    type V = ResolverView;

    closed spec fn view(&self) -> ResolverView {
        ResolverView {
            manifest_url: self.manifest_url@,
            target_digest: self.target_digest@,
            phase: self.phase,
        }
    }
}

/// What an answer leads to: another request, or the end.
#[derive(Debug)]
pub enum Step {
    Send(Resolver, Request),
    Done(Result<DigestComparison, ResolveError>),
}

/// A step as specifications see it.
pub enum StepView {
    Send(ResolverView, RequestView),
    Done(Result<Comparison, Failure>),
}

impl View for Step {
    type V = StepView;

    open spec fn view(&self) -> StepView {
        match self {
            Step::Send(resolver, request) => StepView::Send(resolver@, request@),
            Step::Done(Ok(comparison)) => StepView::Done(Ok(comparison@)),
            Step::Done(Err(error)) => StepView::Done(Err(error@)),
        }
    }
}

/// The tag that is meant: the one given, or `latest`.
pub open spec fn tag_or_latest(tag: Option<Seq<char>>) -> Seq<char> {
    match tag {
        Some(tag) => tag,
        None => "latest"@,
    }
}

/// What is reported of a comparison: `true` for a match, else the
/// registry's digest.
pub open spec fn report_of(comparison: Comparison) -> Seq<char> {
    match comparison {
        Comparison::Match => "true"@,
        Comparison::Differ(digest) => digest,
    }
}

/// The media type of a manifest list, which manifest requests ask for.
pub open spec fn manifest_list_media_type() -> Seq<char> {
    "application/vnd.docker.distribution.manifest.list.v2+json"@
}

/// The URL of the manifest of `image` under `tag` at `host`.
pub open spec fn manifest_url_of(host: Seq<char>, image: Seq<char>, tag: Seq<char>) -> Seq<char> {
    "https://"@ + host + "/v2/"@ + image + "/manifests/"@ + tag
}

/// The request for the manifest at `url`, with the given authorization.
pub open spec fn manifest_request(url: Seq<char>, authorization: Option<Seq<char>>) -> RequestView {
    RequestView { url, accept: Some(manifest_list_media_type()), authorization, read_body: false }
}

/// The request for the token that `challenge` asks for.
pub open spec fn token_request(challenge: BearerChallenge) -> RequestView {
    RequestView { url: token_url(challenge), accept: None, authorization: None, read_body: true }
}

/// The first of `headers` whose name is `name`, whatever the case of its
/// letters.
pub open spec fn first_named(headers: Seq<Header>, name: Seq<char>) -> Option<Header>
    decreases headers.len(),
{
    if headers.len() == 0 {
        None
    } else if eq_ignore_ascii_case(headers[0].name@, name) {
        Some(headers[0])
    } else {
        first_named(headers.skip(1), name)
    }
}

/// The digest that `response` reports: the value of its header
/// `Docker-Content-Digest`, where its status is 200 and it has that header.
pub open spec fn reported_digest(response: Response) -> Option<Header> {
    if response.status == 200 {
        first_named(response.headers@, "docker-content-digest"@)
    } else {
        None
    }
}

/// How `digest`, the registry's, compares with `target`.
pub open spec fn compare_digests(target: Seq<char>, digest: Seq<char>) -> Comparison {
    if target == digest {
        Comparison::Match
    } else {
        Comparison::Differ(digest)
    }
}

/// What `response` leads to for a resolution in `state`.
///
/// An answer to a manifest request that reports a digest ends the
/// resolution with the comparison. Without one, the anonymous attempt goes
/// on to ask for the token that the challenge in `WWW-Authenticate` names,
/// and the authenticated attempt ends the resolution. The answer of the
/// token endpoint leads to the authenticated attempt.
pub open spec fn step_of(state: ResolverView, response: Response) -> StepView {
    match state.phase {
        Phase::NeedsAuth => match token_of(response.body@) {
            Ok(token) => StepView::Send(
                ResolverView { phase: Phase::AuthenticatedRequestSent, ..state },
                manifest_request(state.manifest_url, Some("Bearer "@ + token)),
            ),
            Err(kind) => StepView::Done(Err(Failure::Token(kind))),
        },
        _ => match reported_digest(response) {
            Some(header) => match header.value {
                Some(digest) => StepView::Done(Ok(compare_digests(state.target_digest, digest@))),
                None => StepView::Done(Err(Failure::HeaderNotText)),
            },
            None => if state.phase == Phase::AuthenticatedRequestSent {
                StepView::Done(Err(Failure::DigestNotFound))
            } else {
                match first_named(response.headers@, "www-authenticate"@) {
                    None => StepView::Done(Err(Failure::DigestNotFound)),
                    Some(header) => match header.value {
                        None => StepView::Done(Err(Failure::HeaderNotText)),
                        Some(value) => match challenge_of(value@) {
                            Ok(challenge) => StepView::Send(
                                ResolverView { phase: Phase::NeedsAuth, ..state },
                                token_request(challenge),
                            ),
                            Err(kind) => StepView::Done(Err(Failure::Challenge(kind))),
                        },
                    },
                }
            },
        },
    }
}

/// The first of `headers` whose name is `name`, whatever the case of its
/// letters.
pub fn find_header<'a>(headers: &'a Vec<Header>, name: &str) -> (found: Option<&'a Header>)
    ensures
        match found {
            Some(header) => first_named(headers@, name@) == Some(*header),
            None => first_named(headers@, name@) is None,
        },
{
    let mut i: usize = 0;
    assert(headers@.skip(0) =~= headers@);
    while i < headers.len()
        invariant
            i <= headers@.len(),
            first_named(headers@, name@) == first_named(headers@.skip(i as int), name@),
        decreases headers@.len() - i,
    {
        let ghost rest = headers@.skip(i as int);
        assert(rest[0] == headers@[i as int]);
        if same_ignoring_ascii_case(headers[i].name.as_str(), name) {
            return Some(&headers[i]);
        }
        assert(rest.skip(1) =~= headers@.skip(i + 1));
        i = i + 1;
    }
    None
}

/// How `digest`, the registry's, compares with `target`.
pub fn compare(target: &String, digest: &String) -> (comparison: DigestComparison)
    ensures
        comparison@ == compare_digests(target@, digest@),
{
    if *target == *digest {
        DigestComparison::Match
    } else {
        DigestComparison::Differ(digest.clone())
    }
}

/// The tag that is meant: the one given, or `latest`.
pub fn tag_or_default(tag: Option<String>) -> (meant: String)
    ensures
        meant@ == tag_or_latest(text_of(tag)),
{
    match tag {
        Some(tag) => tag,
        None => "latest".to_owned(),
    }
}

impl DigestComparison {
    /// What is reported of the comparison: `true` for a match, else the
    /// registry's digest.
    pub fn report(&self) -> (text: String)
        ensures
            text@ == report_of(self@),
    {
        match self {
            DigestComparison::Match => "true".to_owned(),
            DigestComparison::Differ(digest) => digest.clone(),
        }
    }
}

/// The URL of the manifest of `image` under `tag` at `registry`.
pub fn manifest_url(registry: &Registry, image: &str, tag: &str) -> (url: String)
    ensures
        url@ == manifest_url_of(registry.spec_host(), image@, tag@),
{
    let mut url = "https://".to_owned();
    url.append(registry.host().as_str());
    url.append("/v2/");
    url.append(image);
    url.append("/manifests/");
    url.append(tag);
    url
}

impl Resolver {
    /// The request for the manifest, with the given authorization.
    fn request(&self, authorization: Option<String>) -> (request: Request)
        ensures
            request@ == manifest_request(self@.manifest_url, text_of(authorization)),
    {
        Request {
            url: self.manifest_url.clone(),
            accept: Some("application/vnd.docker.distribution.manifest.list.v2+json".to_owned()),
            authorization,
            read_body: false,
        }
    }

    /// Begins the resolution of `image` under `tag` at `registry` against
    /// `target_digest`: the first request asks for the manifest without
    /// authentication.
    pub fn start(registry: &Registry, image: &str, tag: &str, target_digest: String) -> (begun: (
        Resolver,
        Request,
    ))
        ensures
            begun.0@ == (ResolverView {
                manifest_url: manifest_url_of(registry.spec_host(), image@, tag@),
                target_digest: target_digest@,
                phase: Phase::AnonymousRequestSent,
            }),
            begun.1@ == manifest_request(begun.0@.manifest_url, None),
    {
        let resolver = Resolver {
            manifest_url: manifest_url(registry, image, tag),
            target_digest,
            phase: Phase::AnonymousRequestSent,
        };
        let request = resolver.request(None);
        (resolver, request)
    }

    /// Which answer the resolver waits for.
    pub fn phase(&self) -> (phase: Phase)
        ensures
            phase == self@.phase,
    {
        self.phase
    }

    /// Takes the answer to the request that was sent last.
    pub fn on_response(self, response: &Response) -> (step: Step)
        ensures
            step@ == step_of(self@, *response),
    {
        match self.phase {
            Phase::NeedsAuth => match extract_token(response.body.as_str()) {
                Ok(token) => {
                    let mut authorization = "Bearer ".to_owned();
                    authorization.append(token.as_str());
                    let request = self.request(Some(authorization));
                    Step::Send(
                        Resolver { phase: Phase::AuthenticatedRequestSent, ..self },
                        request,
                    )
                },
                Err(error) => Step::Done(Err(ResolveError::Token(error))),
            },
            _ => {
                let reported = if response.status == 200 {
                    find_header(&response.headers, "docker-content-digest")
                } else {
                    None
                };
                match reported {
                    Some(header) => match &header.value {
                        Some(digest) => Step::Done(Ok(compare(&self.target_digest, digest))),
                        None => Step::Done(Err(ResolveError::HeaderNotText)),
                    },
                    None => if self.phase == Phase::AuthenticatedRequestSent {
                        Step::Done(Err(ResolveError::DigestNotFound))
                    } else {
                        match find_header(&response.headers, "www-authenticate") {
                            None => Step::Done(Err(ResolveError::DigestNotFound)),
                            Some(header) => match &header.value {
                                None => Step::Done(Err(ResolveError::HeaderNotText)),
                                Some(value) => match BearerAuth::from_str(value.as_str()) {
                                    Ok(auth) => {
                                        let request = Request {
                                            url: auth.to_url(),
                                            accept: None,
                                            authorization: None,
                                            read_body: true,
                                        };
                                        Step::Send(
                                            Resolver { phase: Phase::NeedsAuth, ..self },
                                            request,
                                        )
                                    },
                                    Err(error) => Step::Done(Err(ResolveError::Challenge(error))),
                                },
                            },
                        }
                    },
                }
            },
        }
    }
}

} // verus!
