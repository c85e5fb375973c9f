//! The realm of a challenge: an absolute URL, kept as the text that the URL
//! parser of the `url` crate settles on for it.

use vstd::prelude::*;

verus! {

/// `url::ParseError`, the reason for which the `url` crate rejects a text.
/// Nothing is known of a value of it but that it may be handed on.
#[verifier::external_type_specification]
#[verifier::external_body]
pub struct ExParseError(url::ParseError);

/// What `url::Url::parse` makes of `input`: the serialization of the absolute
/// URL that it reads there, or `None` where it rejects `input`. The function
/// is not written out here; it is the one the `url` crate computes.
pub uninterp spec fn url_serialization(input: Seq<char>) -> Option<Seq<char>>;

/// Whether `text` is the serialization of an absolute URL, that is, whether
/// some input parses to it.
pub open spec fn is_url_serialization(text: Seq<char>) -> bool {
    exists|input: Seq<char>| url_serialization(input) == Some(text)
}

/// Calls `url::Url::parse` on `input` and turns the URL it returns into its
/// serialization (`String::from`). Trusted: a returned text is
/// `url_serialization(input)`, and an error comes exactly where that is `None`.
#[verifier::external_body]
fn parse_url(input: &str) -> (parsed: Result<String, url::ParseError>)
    ensures
        parsed matches Ok(text) ==> url_serialization(input@) == Some(text@),
        parsed is Err ==> url_serialization(input@) is None,
{
    match url::Url::parse(input) {
        Ok(url) => Ok(String::from(url)),
        Err(error) => Err(error),
    }
}

/// An absolute URL in serialized form.
#[derive(Debug)]
pub struct RealmUrl {
    serialization: String,
}

impl View for RealmUrl {
    type V = Seq<char>;

    closed spec fn view(&self) -> Seq<char> {
        self.serialization@
    }
}

impl RealmUrl {
    #[verifier::type_invariant]
    spec fn parsed(self) -> bool {
        is_url_serialization(self.serialization@)
    }

    /// Parses `input` as an absolute URL.
    pub fn parse(input: &str) -> (parsed: Result<RealmUrl, url::ParseError>)
        ensures
            parsed matches Ok(url) ==> url_serialization(input@) == Some(url@),
            parsed is Err ==> url_serialization(input@) is None,
    {
        match parse_url(input) {
            Ok(serialization) => Ok(RealmUrl { serialization }),
            Err(error) => Err(error),
        }
    }

    /// The serialization of this URL.
    pub fn as_str(&self) -> (text: &str)
        ensures
            text@ == self@,
            is_url_serialization(text@),
    {
        proof {
            use_type_invariant(self);
        }
        self.serialization.as_str()
    }
}

} // verus!
