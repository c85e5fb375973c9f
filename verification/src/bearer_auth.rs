//! The `Bearer` challenge of a `WWW-Authenticate` header: its grammar, the
//! value it parses to, and the token URL that the value stands for.

use crate::realm::{is_url_serialization, url_serialization, RealmUrl};
use crate::text::{
    find_char, has_prefix_at, lemma_last_index_of, skip_whitespace, skip_whitespace_back, split,
    text_of, to_chars, trim_end, trim_start,
};
use vstd::prelude::*;
use vstd::string::{StrSliceExecFns, StringExecFns};

verus! {

/// Why a header value is no usable `Bearer` challenge.
#[derive(Debug, PartialEq)]
pub enum Error {
    /// The value does not begin with the scheme `Bearer`.
    NoBearer,
    /// No parameter assigns a realm.
    NoRealm,
    /// The realm is assigned, and is no absolute URL.
    RealmIsNotUrl(url::ParseError),
    /// No parameter assigns a service.
    NoService,
}

/// The kinds of [`Error`]: each variant without what it carries.
pub enum ErrorKind {
    NoBearer,
    NoRealm,
    RealmIsNotUrl,
    NoService,
}

impl View for Error {
    type V = ErrorKind;

    open spec fn view(&self) -> ErrorKind {
        match self {
            Error::NoBearer => ErrorKind::NoBearer,
            Error::NoRealm => ErrorKind::NoRealm,
            Error::RealmIsNotUrl(_) => ErrorKind::RealmIsNotUrl,
            Error::NoService => ErrorKind::NoService,
        }
    }
}

/// What a challenge says: where tokens are issued, for which service, and
/// with which scope if any.
pub struct BearerChallenge {
    pub realm: Seq<char>,
    pub service: Seq<char>,
    pub scope: Option<Seq<char>>,
}

/// A parsed `Bearer` challenge.
#[derive(Debug)]
pub struct BearerAuth {
    realm: RealmUrl,
    service: String,
    scope: Option<String>,
}

/// The parameters read so far from a challenge, each as its text.
#[derive(Debug)]
pub struct BearerAuthBuilder {
    pub realm: Option<String>,
    pub service: Option<String>,
    pub scope: Option<String>,
}

/// The text between the quotes, where `s` is wrapped in double quotes.
pub open spec fn quoted(s: Seq<char>) -> Option<Seq<char>> {
    if s.len() >= 2 && s.first() == '"' && s.last() == '"' {
        Some(s.subrange(1, s.len() - 1))
    } else {
        None
    }
}

/// The value that `parameter` assigns to `key`: the parameter reads `key`,
/// `=` and a quoted value, with whitespace allowed before each of them and
/// after the value. `None` where it reads otherwise.
pub open spec fn assigned_value(parameter: Seq<char>, key: Seq<char>) -> Option<Seq<char>> {
    let named = trim_start(parameter);
    if key.is_prefix_of(named) {
        let assignment = trim_start(named.skip(key.len() as int));
        if assignment.len() > 0 && assignment[0] == '=' {
            quoted(trim_end(trim_start(assignment.skip(1))))
        } else {
            None
        }
    } else {
        None
    }
}

/// The value that the last of `parameters` to assign one gives to `key`.
pub open spec fn last_assigned(parameters: Seq<Seq<char>>, key: Seq<char>) -> Option<Seq<char>>
    decreases parameters.len(),
{
    if parameters.len() == 0 {
        None
    } else if assigned_value(parameters.last(), key) is Some {
        assigned_value(parameters.last(), key)
    } else {
        last_assigned(parameters.drop_last(), key)
    }
}

/// The value of `key` in the comma-separated parameter list `s`.
pub open spec fn parameter_value(s: Seq<char>, key: Seq<char>) -> Option<Seq<char>> {
    last_assigned(split(s, ','), key)
}

/// Reads `chars[from..to]` as one parameter and returns where in `chars` the
/// value lies that it assigns to `key`.
fn read_assignment(chars: &[char], from: usize, to: usize, key: &[char]) -> (span: Option<
    (usize, usize),
>)
    requires
        from <= to <= chars@.len(),
    ensures
        match span {
            Some((start, end)) => {
                &&& from <= start <= end <= to
                &&& assigned_value(chars@.subrange(from as int, to as int), key@) == Some(
                    chars@.subrange(start as int, end as int),
                )
            },
            None => assigned_value(chars@.subrange(from as int, to as int), key@) is None,
        },
{
    let ghost parameter = chars@.subrange(from as int, to as int);
    let name_at = skip_whitespace(chars, from, to);
    let ghost named = trim_start(parameter);
    assert(named =~= chars@.subrange(name_at as int, to as int));
    if !has_prefix_at(chars, name_at, to, key) {
        return None;
    }
    let after_name = name_at + key.len();
    assert(named.skip(key@.len() as int) =~= chars@.subrange(after_name as int, to as int));
    let sign_at = skip_whitespace(chars, after_name, to);
    let ghost assignment = trim_start(named.skip(key@.len() as int));
    assert(assignment =~= chars@.subrange(sign_at as int, to as int));
    if sign_at >= to || chars[sign_at] != '=' {
        return None;
    }
    assert(assignment.skip(1) =~= chars@.subrange(sign_at + 1, to as int));
    let value_at = skip_whitespace(chars, sign_at + 1, to);
    assert(trim_start(assignment.skip(1)) =~= chars@.subrange(value_at as int, to as int));
    let value_end = skip_whitespace_back(chars, value_at, to);
    let ghost value = trim_end(trim_start(assignment.skip(1)));
    assert(value =~= chars@.subrange(value_at as int, value_end as int));
    if value_end - value_at >= 2 && chars[value_at] == '"' && chars[value_end - 1] == '"' {
        assert(value.subrange(1, value.len() - 1) =~= chars@.subrange(
            value_at + 1,
            value_end - 1,
        ));
        Some((value_at + 1, value_end - 1))
    } else {
        None
    }
}

impl View for BearerAuth {
    type V = BearerChallenge;

    closed spec fn view(&self) -> BearerChallenge {
        BearerChallenge {
            realm: self.realm@,
            service: self.service@,
            scope: text_of(self.scope),
        }
    }
}

/// The URL at which the token for `challenge` is asked for: the realm with
/// the service, and the scope where there is one, appended as they are.
pub open spec fn token_url(challenge: BearerChallenge) -> Seq<char> {
    let base = challenge.realm + "?service="@ + challenge.service;
    match challenge.scope {
        Some(scope) => base + "&scope="@ + scope,
        None => base,
    }
}

/// What parameters with these values come to: the realm must be there and
/// be an absolute URL, which is kept as the URL parser serializes it; then
/// the service must be there.
pub open spec fn challenge_of_values(
    realm: Option<Seq<char>>,
    service: Option<Seq<char>>,
    scope: Option<Seq<char>>,
) -> Result<BearerChallenge, ErrorKind> {
    match realm {
        None => Err(ErrorKind::NoRealm),
        Some(text) => match url_serialization(text) {
            None => Err(ErrorKind::RealmIsNotUrl),
            Some(url) => match service {
                None => Err(ErrorKind::NoService),
                Some(service) => Ok(BearerChallenge { realm: url, service, scope }),
            },
        },
    }
}

/// What the parameter list `s` comes to.
pub open spec fn challenge_of_parameters(s: Seq<char>) -> Result<BearerChallenge, ErrorKind> {
    challenge_of_values(
        parameter_value(s, "realm"@),
        parameter_value(s, "service"@),
        parameter_value(s, "scope"@),
    )
}

/// What the header value `s` comes to: it begins with the scheme `Bearer`,
/// and its parameter list follows.
pub open spec fn challenge_of(s: Seq<char>) -> Result<BearerChallenge, ErrorKind> {
    if "Bearer"@.is_prefix_of(s) {
        challenge_of_parameters(s.skip("Bearer"@.len() as int))
    } else {
        Err(ErrorKind::NoBearer)
    }
}

/// An outcome as specifications see it: the challenge by its view, the
/// error by its kind.
pub open spec fn outcome_view(outcome: Result<BearerAuth, Error>) -> Result<
    BearerChallenge,
    ErrorKind,
> {
    match outcome {
        Ok(auth) => Ok(auth@),
        Err(error) => Err(error@),
    }
}

impl BearerAuth {
    /// Puts a challenge together from its parts, the realm as the URL parser
    /// left it.
    pub fn from_parts(
        realm: Option<Result<RealmUrl, url::ParseError>>,
        service: Option<String>,
        scope: Option<String>,
    ) -> (outcome: Result<BearerAuth, Error>)
        ensures
            match realm {
                None => outcome == Err::<BearerAuth, Error>(Error::NoRealm),
                Some(Err(error)) => outcome == Err::<BearerAuth, Error>(
                    Error::RealmIsNotUrl(error),
                ),
                Some(Ok(url)) => match service {
                    None => outcome == Err::<BearerAuth, Error>(Error::NoService),
                    Some(service) => outcome matches Ok(auth) && auth@ == (BearerChallenge {
                        realm: url@,
                        service: service@,
                        scope: text_of(scope),
                    }),
                },
            },
    {
        let realm = match realm {
            None => { return Err(Error::NoRealm); },
            Some(Err(error)) => { return Err(Error::RealmIsNotUrl(error)); },
            Some(Ok(url)) => url,
        };
        let service = match service {
            None => { return Err(Error::NoService); },
            Some(service) => service,
        };
        Ok(BearerAuth { realm, service, scope })
    }

    /// The URL at which the token is asked for.
    pub fn to_url(&self) -> (url: String)
        ensures
            url@ == token_url(self@),
    {
        let mut url = self.realm.as_str().to_owned();
        url.append("?service=");
        url.append(self.service.as_str());
        if let Some(scope) = &self.scope {
            url.append("&scope=");
            url.append(scope.as_str());
        }
        url
    }

    /// The realm: the URL of the token endpoint, serialized.
    pub fn realm(&self) -> (realm: &str)
        ensures
            realm@ == self@.realm,
            is_url_serialization(realm@),
    {
        self.realm.as_str()
    }

    /// The service that the token is for.
    pub fn service(&self) -> (service: &str)
        ensures
            service@ == self@.service,
    {
        self.service.as_str()
    }

    /// The scope that the token is to have, if the challenge names one.
    pub fn scope(&self) -> (scope: Option<&str>)
        ensures
            match scope {
                Some(scope) => self@.scope == Some(scope@),
                None => self@.scope is None,
            },
    {
        match &self.scope {
            Some(scope) => Some(scope.as_str()),
            None => None,
        }
    }
}

impl BearerAuthBuilder {
    /// Checks the parameters read and makes the challenge of them.
    pub fn build(self) -> (outcome: Result<BearerAuth, Error>)
        ensures
            outcome_view(outcome) == challenge_of_values(
                text_of(self.realm),
                text_of(self.service),
                text_of(self.scope),
            ),
    {
        let realm = match self.realm {
            Some(text) => Some(RealmUrl::parse(text.as_str())),
            None => None,
        };
        BearerAuth::from_parts(realm, self.service, self.scope)
    }
}

/// The parameters that come before position `start` of `s`, where a
/// parameter begins at `start`.
spec fn parameters_before(s: Seq<char>, start: int) -> Seq<Seq<char>> {
    if start == 0 {
        Seq::empty()
    } else {
        split(s.take(start - 1), ',')
    }
}

/// Parses the parameter list of a challenge, which is what follows the
/// scheme.
pub fn parse(s: &str) -> (outcome: Result<BearerAuth, Error>)
    ensures
        outcome_view(outcome) == challenge_of_parameters(s@),
{
    let chars = to_chars(s);
    let realm_key = to_chars("realm");
    let service_key = to_chars("service");
    let scope_key = to_chars("scope");
    let mut builder = BearerAuthBuilder { realm: None, service: None, scope: None };
    let mut start: usize = 0;
    let mut done = false;
    while !done
        invariant
            chars@ == s@,
            realm_key@ == "realm"@,
            service_key@ == "service"@,
            scope_key@ == "scope"@,
            start <= chars@.len(),
            !done ==> {
                &&& start == 0 || chars@[start - 1] == ','
                &&& text_of(builder.realm) == last_assigned(
                    parameters_before(chars@, start as int),
                    realm_key@,
                )
                &&& text_of(builder.service) == last_assigned(
                    parameters_before(chars@, start as int),
                    service_key@,
                )
                &&& text_of(builder.scope) == last_assigned(
                    parameters_before(chars@, start as int),
                    scope_key@,
                )
            },
            done ==> {
                &&& text_of(builder.realm) == parameter_value(chars@, realm_key@)
                &&& text_of(builder.service) == parameter_value(chars@, service_key@)
                &&& text_of(builder.scope) == parameter_value(chars@, scope_key@)
            },
        decreases chars@.len() - start + (if done { 0int } else { 1int }),
    {
        let end = find_char(chars.as_slice(), start, ',');
        let ghost before = parameters_before(chars@, start as int);
        let ghost parameter = chars@.subrange(start as int, end as int);
        let ghost upto = before.push(parameter);
        proof {
            let head = chars@.take(end as int);
            lemma_last_index_of(head, ',', start - 1);
            if start > 0 {
                assert(head.take(start - 1) =~= chars@.take(start - 1));
            }
            assert(head.skip(start as int) =~= parameter);
            assert(split(head, ',') =~= upto);
            assert(upto.last() == parameter);
            assert(upto.drop_last() =~= before);
        }
        if let Some((from, to)) = read_assignment(chars.as_slice(), start, end, realm_key.as_slice()) {
            builder.realm = Some(s.substring_char(from, to).to_owned());
        }
        if let Some((from, to)) = read_assignment(
            chars.as_slice(),
            start,
            end,
            service_key.as_slice(),
        ) {
            builder.service = Some(s.substring_char(from, to).to_owned());
        }
        if let Some((from, to)) = read_assignment(chars.as_slice(), start, end, scope_key.as_slice()) {
            builder.scope = Some(s.substring_char(from, to).to_owned());
        }
        assert(text_of(builder.realm) == last_assigned(upto, realm_key@));
        assert(text_of(builder.service) == last_assigned(upto, service_key@));
        assert(text_of(builder.scope) == last_assigned(upto, scope_key@));
        if end < chars.len() {
            start = end + 1;
            assert(chars@.take(start - 1) =~= chars@.take(end as int));
        } else {
            assert(chars@.take(end as int) =~= chars@);
            done = true;
        }
    }
    builder.build()
}

impl std::str::FromStr for BearerAuth {
    type Err = Error;

    /// Parses the value of a `WWW-Authenticate` header: the scheme `Bearer`,
    /// then the parameter list.
    fn from_str(s: &str) -> (outcome: Result<BearerAuth, Error>)
        ensures
            outcome_view(outcome) == challenge_of(s@),
            !"Bearer"@.is_prefix_of(s@) ==> outcome == Err::<BearerAuth, Error>(Error::NoBearer),
    {
        let chars = to_chars(s);
        let scheme = to_chars("Bearer");
        assert(chars@.subrange(0, chars@.len() as int) =~= s@);
        if !has_prefix_at(chars.as_slice(), 0, chars.len(), scheme.as_slice()) {
            return Err(Error::NoBearer);
        }
        parse(s.substring_char(scheme.len(), chars.len()))
    }
}

} // verus!
