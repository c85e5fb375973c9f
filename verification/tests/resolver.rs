use registry_probe::bearer_auth::Error;
use registry_probe::registry::Registry;
use registry_probe::resolver::{
    compare, find_header, manifest_url, tag_or_default, DigestComparison, Header, Phase, Request,
    ResolveError, Resolver, Response, Step,
};
use registry_probe::token::TokenError;

const MANIFEST_LIST: &str = "application/vnd.docker.distribution.manifest.list.v2+json";
const MANIFEST_URL: &str = "https://registry.example.com/v2/foo/bar/manifests/latest";
const CHALLENGE: &str =
    "Bearer realm=\"https://auth.example.com/token\",service=\"registry.example.com\",scope=\"repository:foo/bar:pull\"";

fn header(name: &str, value: &str) -> Header {
    Header { name: name.to_owned(), value: Some(value.to_owned()) }
}

fn answer(status: u16, headers: Vec<Header>) -> Response {
    Response { status, headers, body: String::new() }
}

fn body(text: &str) -> Response {
    Response { status: 200, headers: Vec::new(), body: text.to_owned() }
}

fn begin(target: &str) -> (Resolver, Request) {
    let registry = Registry::from("registry.example.com".to_owned());
    Resolver::start(&registry, "foo/bar", "latest", target.to_owned())
}

fn sent(step: Step) -> (Resolver, Request) {
    match step {
        Step::Send(resolver, request) => (resolver, request),
        Step::Done(result) => panic!("the resolution ended: {:?}", result),
    }
}

fn done(step: Step) -> Result<DigestComparison, ResolveError> {
    match step {
        Step::Done(result) => result,
        Step::Send(_, request) => panic!("the resolution goes on: {:?}", request),
    }
}

fn after_challenge(target: &str) -> Resolver {
    let (resolver, _) = begin(target);
    let unauthorized = answer(401, vec![header("Www-Authenticate", CHALLENGE)]);
    sent(resolver.on_response(&unauthorized)).0
}

fn after_token(target: &str) -> Resolver {
    sent(after_challenge(target).on_response(&body("{\"token\":\"t0k3n\"}"))).0
}

#[test]
fn first_request_asks_for_the_manifest_anonymously() {
    let (resolver, request) = begin("sha256:aaa");
    assert_eq!(resolver.phase(), Phase::AnonymousRequestSent);
    assert_eq!(request.url, MANIFEST_URL);
    assert_eq!(request.accept.as_deref(), Some(MANIFEST_LIST));
    assert_eq!(request.authorization, None);
    assert!(!request.read_body);
}

#[test]
fn manifest_url_is_built_from_host_image_and_tag() {
    assert_eq!(
        manifest_url(&Registry::from("docker.io".to_owned()), "library/ubuntu", "22.04"),
        "https://registry-1.docker.io/v2/library/ubuntu/manifests/22.04"
    );
    assert_eq!(
        manifest_url(&Registry::from("localhost:5000".to_owned()), "img", "latest"),
        "https://localhost:5000/v2/img/manifests/latest"
    );
    assert_eq!(manifest_url(&Registry::GhcrIo, "", ""), "https://ghcr.io/v2//manifests/");
}

#[test]
fn tag_defaults_to_latest() {
    assert_eq!(tag_or_default(None), "latest");
    assert_eq!(tag_or_default(Some("v1".to_owned())), "v1");
    assert_eq!(tag_or_default(Some(String::new())), "");
}

#[test]
fn scenario_anonymous_digest_matches() {
    let (resolver, _) = begin("sha256:aaa");
    let ok = answer(200, vec![header("Docker-Content-Digest", "sha256:aaa")]);
    let result = done(resolver.on_response(&ok)).unwrap();
    assert!(matches!(result, DigestComparison::Match));
    assert_eq!(result.report(), "true");
}

#[test]
fn scenario_anonymous_digest_differs() {
    let (resolver, _) = begin("sha256:bbb");
    let ok = answer(200, vec![header("Docker-Content-Digest", "sha256:aaa")]);
    let result = done(resolver.on_response(&ok)).unwrap();
    assert!(matches!(&result, DigestComparison::Differ(digest) if digest == "sha256:aaa"));
    assert_eq!(result.report(), "sha256:aaa");
}

#[test]
fn scenario_challenge_token_and_authenticated_match() {
    let (resolver, _) = begin("sha256:aaa");
    let unauthorized = answer(401, vec![header("WWW-Authenticate", CHALLENGE)]);
    let (resolver, request) = sent(resolver.on_response(&unauthorized));
    assert_eq!(resolver.phase(), Phase::NeedsAuth);
    assert_eq!(
        request.url,
        "https://auth.example.com/token?service=registry.example.com&scope=repository:foo/bar:pull"
    );
    assert_eq!(request.accept, None);
    assert_eq!(request.authorization, None);
    assert!(request.read_body);

    let (resolver, request) = sent(resolver.on_response(&body("{\"token\":\"t0k3n\"}")));
    assert_eq!(resolver.phase(), Phase::AuthenticatedRequestSent);
    assert_eq!(request.url, MANIFEST_URL);
    assert_eq!(request.accept.as_deref(), Some(MANIFEST_LIST));
    assert_eq!(request.authorization.as_deref(), Some("Bearer t0k3n"));
    assert!(!request.read_body);

    let ok = answer(200, vec![header("docker-content-digest", "sha256:aaa")]);
    assert!(matches!(done(resolver.on_response(&ok)), Ok(DigestComparison::Match)));
}

#[test]
fn scenario_no_digest_and_no_challenge() {
    let (resolver, _) = begin("sha256:aaa");
    let not_found = answer(404, Vec::new());
    assert!(matches!(done(resolver.on_response(&not_found)), Err(ResolveError::DigestNotFound)));
}

#[test]
fn success_without_digest_and_without_challenge_is_not_found() {
    let (resolver, _) = begin("sha256:aaa");
    let bare = answer(200, vec![header("Content-Type", MANIFEST_LIST)]);
    assert!(matches!(done(resolver.on_response(&bare)), Err(ResolveError::DigestNotFound)));
}

#[test]
fn digest_counts_only_with_status_200() {
    let (resolver, _) = begin("sha256:aaa");
    let created = answer(201, vec![header("Docker-Content-Digest", "sha256:aaa")]);
    assert!(matches!(done(resolver.on_response(&created)), Err(ResolveError::DigestNotFound)));

    let (resolver, _) = begin("sha256:aaa");
    let unauthorized = answer(
        401,
        vec![header("Docker-Content-Digest", "sha256:aaa"), header("WWW-Authenticate", CHALLENGE)],
    );
    let (resolver, _) = sent(resolver.on_response(&unauthorized));
    assert_eq!(resolver.phase(), Phase::NeedsAuth);
}

#[test]
fn digest_wins_over_challenge() {
    let (resolver, _) = begin("sha256:aaa");
    let both = answer(
        200,
        vec![header("WWW-Authenticate", CHALLENGE), header("Docker-Content-Digest", "sha256:ccc")],
    );
    assert!(matches!(
        done(resolver.on_response(&both)),
        Ok(DigestComparison::Differ(digest)) if digest == "sha256:ccc"
    ));
}

#[test]
fn success_without_digest_follows_the_challenge() {
    let (resolver, _) = begin("sha256:aaa");
    let odd = answer(200, vec![header("WWW-Authenticate", CHALLENGE)]);
    let (resolver, request) = sent(resolver.on_response(&odd));
    assert_eq!(resolver.phase(), Phase::NeedsAuth);
    assert!(request.read_body);
}

#[test]
fn first_digest_header_counts() {
    let (resolver, _) = begin("sha256:aaa");
    let twice = answer(
        200,
        vec![
            header("X-Other", "sha256:zzz"),
            header("DOCKER-CONTENT-DIGEST", "sha256:aaa"),
            header("docker-content-digest", "sha256:bbb"),
        ],
    );
    assert!(matches!(done(resolver.on_response(&twice)), Ok(DigestComparison::Match)));
}

#[test]
fn digest_comparison_is_exact() {
    let (resolver, _) = begin("sha256:AAA");
    let ok = answer(200, vec![header("Docker-Content-Digest", "sha256:aaa")]);
    assert!(matches!(
        done(resolver.on_response(&ok)),
        Ok(DigestComparison::Differ(digest)) if digest == "sha256:aaa"
    ));
}

#[test]
fn digest_that_is_no_text_fails() {
    let (resolver, _) = begin("sha256:aaa");
    let binary = answer(200, vec![Header { name: "docker-content-digest".to_owned(), value: None }]);
    assert!(matches!(done(resolver.on_response(&binary)), Err(ResolveError::HeaderNotText)));
}

#[test]
fn challenge_that_is_no_text_fails() {
    let (resolver, _) = begin("sha256:aaa");
    let binary = answer(401, vec![Header { name: "www-authenticate".to_owned(), value: None }]);
    assert!(matches!(done(resolver.on_response(&binary)), Err(ResolveError::HeaderNotText)));
}

#[test]
fn challenge_of_another_scheme_fails() {
    let (resolver, _) = begin("sha256:aaa");
    let basic = answer(401, vec![header("WWW-Authenticate", "Basic realm=\"registry\"")]);
    assert!(matches!(
        done(resolver.on_response(&basic)),
        Err(ResolveError::Challenge(Error::NoBearer))
    ));
}

#[test]
fn challenge_failures_end_the_resolution() {
    let (resolver, _) = begin("sha256:aaa");
    let no_realm = answer(401, vec![header("WWW-Authenticate", "Bearer service=\"x\"")]);
    assert!(matches!(
        done(resolver.on_response(&no_realm)),
        Err(ResolveError::Challenge(Error::NoRealm))
    ));

    let (resolver, _) = begin("sha256:aaa");
    let bad_realm =
        answer(401, vec![header("WWW-Authenticate", "Bearer realm=\"not a url\",service=\"x\"")]);
    assert!(matches!(
        done(resolver.on_response(&bad_realm)),
        Err(ResolveError::Challenge(Error::RealmIsNotUrl(url::ParseError::RelativeUrlWithoutBase)))
    ));

    let (resolver, _) = begin("sha256:aaa");
    let no_service = answer(401, vec![header("WWW-Authenticate", "Bearer realm=\"https://a/b\"")]);
    assert!(matches!(
        done(resolver.on_response(&no_service)),
        Err(ResolveError::Challenge(Error::NoService))
    ));
}

#[test]
fn only_the_first_challenge_header_is_read() {
    let (resolver, _) = begin("sha256:aaa");
    let two = answer(
        401,
        vec![header("WWW-Authenticate", "Basic realm=\"registry\""), header("WWW-Authenticate", CHALLENGE)],
    );
    assert!(matches!(
        done(resolver.on_response(&two)),
        Err(ResolveError::Challenge(Error::NoBearer))
    ));
}

#[test]
fn token_request_has_no_scope_where_the_challenge_has_none() {
    let (resolver, _) = begin("sha256:aaa");
    let unauthorized = answer(
        401,
        vec![header("WWW-Authenticate", "Bearer realm=\"https://auth.docker.io\",service=\"registry.docker.io\"")],
    );
    let (_, request) = sent(resolver.on_response(&unauthorized));
    assert_eq!(request.url, "https://auth.docker.io/?service=registry.docker.io");
}

#[test]
fn token_answer_is_read_whatever_its_status() {
    let forbidden = Response { status: 403, headers: Vec::new(), body: "{\"token\":\"abc\"}".to_owned() };
    let (resolver, request) = sent(after_challenge("sha256:aaa").on_response(&forbidden));
    assert_eq!(resolver.phase(), Phase::AuthenticatedRequestSent);
    assert_eq!(request.authorization.as_deref(), Some("Bearer abc"));
}

#[test]
fn token_answer_headers_are_not_read() {
    let answer = Response {
        status: 200,
        headers: vec![header("Docker-Content-Digest", "sha256:aaa")],
        body: "{\"token\":\"abc\"}".to_owned(),
    };
    let (resolver, _) = sent(after_challenge("sha256:aaa").on_response(&answer));
    assert_eq!(resolver.phase(), Phase::AuthenticatedRequestSent);
}

#[test]
fn token_answer_that_is_no_json_fails() {
    assert!(matches!(
        done(after_challenge("sha256:aaa").on_response(&body("<html>"))),
        Err(ResolveError::Token(TokenError::NotJson(_)))
    ));
    assert!(matches!(
        done(after_challenge("sha256:aaa").on_response(&body(""))),
        Err(ResolveError::Token(TokenError::NotJson(_)))
    ));
}

#[test]
fn token_answer_without_token_fails() {
    assert!(matches!(
        done(after_challenge("sha256:aaa").on_response(&body("{\"access_token\":\"abc\"}"))),
        Err(ResolveError::Token(TokenError::NoToken))
    ));
}

#[test]
fn authenticated_digest_differs() {
    let ok = answer(200, vec![header("Docker-Content-Digest", "sha256:bbb")]);
    assert!(matches!(
        done(after_token("sha256:aaa").on_response(&ok)),
        Ok(DigestComparison::Differ(digest)) if digest == "sha256:bbb"
    ));
}

#[test]
fn authenticated_attempt_is_the_last() {
    let unauthorized = answer(401, vec![header("WWW-Authenticate", CHALLENGE)]);
    assert!(matches!(
        done(after_token("sha256:aaa").on_response(&unauthorized)),
        Err(ResolveError::DigestNotFound)
    ));
    let bare = answer(200, Vec::new());
    assert!(matches!(
        done(after_token("sha256:aaa").on_response(&bare)),
        Err(ResolveError::DigestNotFound)
    ));
    let missing = answer(404, vec![header("Docker-Content-Digest", "sha256:aaa")]);
    assert!(matches!(
        done(after_token("sha256:aaa").on_response(&missing)),
        Err(ResolveError::DigestNotFound)
    ));
}

#[test]
fn authenticated_digest_that_is_no_text_fails() {
    let binary = answer(200, vec![Header { name: "Docker-Content-Digest".to_owned(), value: None }]);
    assert!(matches!(
        done(after_token("sha256:aaa").on_response(&binary)),
        Err(ResolveError::HeaderNotText)
    ));
}

#[test]
fn docker_hub_is_asked_at_its_api_host() {
    let registry = Registry::from("docker.io".to_owned());
    let (_, request) = Resolver::start(&registry, "library/alpine", "3.19", "sha256:aaa".to_owned());
    assert_eq!(request.url, "https://registry-1.docker.io/v2/library/alpine/manifests/3.19");
}

#[test]
fn header_is_found_by_name_whatever_its_case() {
    let headers = vec![
        header("Content-Length", "0"),
        header("docker-content-digest", "sha256:aaa"),
        header("Docker-Content-Digest", "sha256:bbb"),
    ];
    let found = find_header(&headers, "DOCKER-CONTENT-DIGEST").unwrap();
    assert_eq!(found.name, "docker-content-digest");
    assert_eq!(found.value.as_deref(), Some("sha256:aaa"));
    assert!(find_header(&headers, "content-length").is_some());
    assert!(find_header(&headers, "www-authenticate").is_none());
    assert!(find_header(&Vec::new(), "content-length").is_none());
}

#[test]
fn comparison_is_match_or_the_registry_digest() {
    let target = "sha256:aaa".to_owned();
    assert!(matches!(compare(&target, &"sha256:aaa".to_owned()), DigestComparison::Match));
    assert!(matches!(
        compare(&target, &"sha256:bbb".to_owned()),
        DigestComparison::Differ(digest) if digest == "sha256:bbb"
    ));
    assert!(matches!(
        compare(&target, &String::new()),
        DigestComparison::Differ(digest) if digest.is_empty()
    ));
    assert_eq!(DigestComparison::Match.report(), "true");
    assert_eq!(DigestComparison::Differ("true".to_owned()).report(), "true");
}
