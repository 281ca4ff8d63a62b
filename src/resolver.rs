use crate::error::{ErrorKind, HostError};
use vstd::prelude::*;

verus! {

/// Why a text is not an absolute URL.
#[derive(Clone, Debug)]
pub enum UrlError {
    /// The text is relative and no base was given.
    RelativeWithoutBase,
    /// Any other parse failure, by its message.
    Invalid(String),
}

/// The view of a URL parse: the serialized URL, or `None` for a relative
/// text, or the message of another failure.
pub open spec fn url_result_view(r: Result<String, UrlError>) -> Result<Seq<char>, Option<Seq<char>>> {
    match r {
        Ok(u) => Ok(u@),
        Err(UrlError::RelativeWithoutBase) => Err(None),
        Err(UrlError::Invalid(m)) => Err(Some(m@)),
    }
}

pub open spec fn contains_char(s: Seq<char>, c: char) -> bool {
    exists|i: int| 0 <= i < s.len() && s[i] == c
}

/// What `Url::parse` makes of a text, as `url_result_view` shows it.
pub uninterp spec fn url_parsed(s: Seq<char>) -> Result<Seq<char>, Option<Seq<char>>>;

/// The first character that the URL parser reads, after it drops leading
/// spaces and control characters, cannot begin a scheme.
pub open spec fn starts_without_scheme(s: Seq<char>) -> bool {
    s.len() > 0 && s[0] > ' ' && !('a' <= s[0] <= 'z' || 'A' <= s[0] <= 'Z')
}

/// Relies on url's `Url::parse`. A scheme begins with an ASCII letter and
/// ends in `:`; a text that has none is relative, and without a base it is
/// refused as such.
#[verifier::external_body]
fn parse_url(s: &str) -> (r: Result<String, UrlError>)
    ensures
        url_result_view(r) == url_parsed(s@),
        !contains_char(s@, ':') ==> (r matches Err(UrlError::RelativeWithoutBase)),
        starts_without_scheme(s@) ==> (r matches Err(UrlError::RelativeWithoutBase)),
{
    match url::Url::parse(s) {
        Ok(u) => Ok(u.into()),
        Err(url::ParseError::RelativeUrlWithoutBase) => Err(UrlError::RelativeWithoutBase),
        Err(e) => Err(UrlError::Invalid(e.to_string())),
    }
}

/// What joining a relative text to a base URL gives: the serialized URL, or
/// the message of the failure.
pub uninterp spec fn url_joined(base: Seq<char>, s: Seq<char>) -> Result<Seq<char>, Seq<char>>;

/// Relies on url's `Url::parse` for the base and `Url::join` for the text;
/// a base that does not parse fails the join.
#[verifier::external_body]
fn join_url(base: &str, s: &str) -> (r: Result<String, String>)
    ensures
        !(url_parsed(base@) is Ok) ==> r is Err,
        match r {
            Ok(u) => url_joined(base@, s@) == Ok::<Seq<char>, Seq<char>>(u@),
            Err(e) => url_joined(base@, s@) == Err::<Seq<char>, Seq<char>>(e@),
        },
{
    let base = url::Url::parse(base).map_err(|e| e.to_string())?;
    base.join(s).map(|u| u.into()).map_err(|e| e.to_string())
}

/// The text begins with `/`, `./` or `../`.
pub open spec fn has_relative_prefix(s: Seq<char>) -> bool {
    (s.len() >= 1 && s[0] == '/') || (s.len() >= 2 && s[0] == '.' && s[1] == '/') || (s.len()
        >= 3 && s[0] == '.' && s[1] == '.' && s[2] == '/')
}

/// Resolution of `specifier` imported from `referrer`: an absolute URL is
/// taken as it is, a relative one with a relative prefix is joined to the
/// referrer, and any other (a bare name) is refused.
pub open spec fn resolve_outcome(specifier: Seq<char>, referrer: Seq<char>) -> Result<
    Seq<char>,
    (ErrorKind, Seq<char>),
> {
    match url_parsed(specifier) {
        Ok(u) => Ok(u),
        Err(None) => if has_relative_prefix(specifier) {
            match url_joined(referrer, specifier) {
                Ok(u) => Ok(u),
                Err(m) => Err((ErrorKind::Resolution, m)),
            }
        } else {
            Err((ErrorKind::Resolution, specifier))
        },
        Err(Some(m)) => Err((ErrorKind::Resolution, m)),
    }
}

pub open spec fn resolve_result_view(r: Result<String, HostError>) -> Result<Seq<char>, (ErrorKind, Seq<char>)> {
    match r {
        Ok(u) => Ok(u@),
        Err(e) => Err(e@),
    }
}

fn has_relative_prefix_exec(s: &str) -> (r: bool)
    ensures
        r == has_relative_prefix(s@),
{
    let n = s.unicode_len();
    if n >= 1 && s.get_char(0) == '/' {
        return true;
    }
    if n >= 2 && s.get_char(0) == '.' && s.get_char(1) == '/' {
        return true;
    }
    n >= 3 && s.get_char(0) == '.' && s.get_char(1) == '.' && s.get_char(2) == '/'
}

/// Resolves the import `specifier` written in the module `referrer` to the
/// absolute URL of the module it names. A bare name, one with neither a
/// scheme nor a `/`, `./` or `../` prefix, is refused with a resolution error.
pub fn resolve(specifier: &str, referrer: &str) -> (r: Result<String, HostError>)
    ensures
        resolve_result_view(r) == resolve_outcome(specifier@, referrer@),
        !contains_char(specifier@, ':') && !has_relative_prefix(specifier@) ==> (r matches Err(e)
            && e.kind == ErrorKind::Resolution && e.message@ == specifier@),
        has_relative_prefix(specifier@) ==> resolve_result_view(r) == match url_joined(
            referrer@,
            specifier@,
        ) {
            Ok(u) => Ok(u),
            Err(m) => Err((ErrorKind::Resolution, m)),
        },
        has_relative_prefix(specifier@) && !(url_parsed(referrer@) is Ok) ==> (r matches Err(e)
            && e.kind == ErrorKind::Resolution),
{
    match parse_url(specifier) {
        Ok(u) => Ok(u),
        Err(UrlError::RelativeWithoutBase) => {
            if !has_relative_prefix_exec(specifier) {
                return Err(HostError::new(ErrorKind::Resolution, specifier.to_string()));
            }
            match join_url(referrer, specifier) {
                Ok(u) => Ok(u),
                Err(m) => Err(HostError::new(ErrorKind::Resolution, m)),
            }
        },
        Err(UrlError::Invalid(m)) => Err(HostError::new(ErrorKind::Resolution, m)),
    }
}

/// Resolution is deterministic: the same specifier and referrer always
/// resolve to the same absolute URL, or fail in the same way.
pub proof fn lemma_resolve_deterministic(
    specifier: Seq<char>,
    referrer: Seq<char>,
    specifier2: Seq<char>,
    referrer2: Seq<char>,
)
    requires
        specifier == specifier2,
        referrer == referrer2,
    ensures
        resolve_outcome(specifier, referrer) == resolve_outcome(specifier2, referrer2),
{
}

} // verus!
