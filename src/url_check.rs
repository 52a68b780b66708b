use crate::error::OptionsError;
use crate::options::DEFAULT_URL;
use vstd::prelude::*;
use vstd::string::StrSliceExecFns;

verus! {

/// Whether the url crate parses `s` as an absolute URL.
pub uninterp spec fn url_parses(s: Seq<char>) -> bool;

/// The message of the url crate's error for `s`.
pub uninterp spec fn url_parse_message(s: Seq<char>) -> Seq<char>;

/// Relies on `url::Url::parse`, which returns an error exactly when it cannot
/// parse an absolute URL from the text, and on the `Display` text of that
/// error (`url::ParseError`) as the message.
#[verifier::external_body]
fn parse_absolute_url(s: &str) -> (r: Result<(), String>)
    ensures
        r is Ok <==> url_parses(s@),
        r matches Err(m) ==> m@ == url_parse_message(s@),
{
    match url::Url::parse(s) {
        Ok(_) => Ok(()),
        Err(e) => Err(e.to_string()),
    }
}

/// True when the text's last character is a forward slash.
pub open spec fn ends_with_slash(s: Seq<char>) -> bool {
    s.len() > 0 && s.last() == '/'
}

/// The verdict on `url`, given what parsing it as an absolute URL gave:
/// the sentinel `"default"` passes; any other text must end with a forward
/// slash, and then passes exactly when it parsed, else carries the parser's
/// message.
pub fn validate_parsed_url(url: &str, parsed: Result<(), String>) -> (r: Result<(), OptionsError>)
    ensures
        url@ == DEFAULT_URL@ ==> r is Ok,
        url@ != DEFAULT_URL@ && !ends_with_slash(url@) ==> r == Err::<(), OptionsError>(
            OptionsError::MissingTrailingSlash,
        ),
        url@ != DEFAULT_URL@ && ends_with_slash(url@) ==> match parsed {
            Ok(_) => r is Ok,
            Err(m) => r == Err::<(), OptionsError>(OptionsError::MalformedUrl(m)),
        },
{
    let given = url.to_owned();
    let sentinel = DEFAULT_URL.to_owned();
    if given == sentinel {
        return Ok(());
    }
    let n = url.unicode_len();
    if n == 0 || url.get_char(n - 1) != '/' {
        return Err(OptionsError::MissingTrailingSlash);
    }
    match parsed {
        Ok(()) => Ok(()),
        Err(m) => Err(OptionsError::MalformedUrl(m)),
    }
}

/// Checks a server URL before it is stored: `"default"` passes; any other
/// value must end with a forward slash (`MissingTrailingSlash`) and parse as
/// an absolute URL (`MalformedUrl`, with the parser's message). The value is
/// never rewritten.
pub fn validate_url(url: &str) -> (r: Result<(), OptionsError>)
    ensures
        r is Ok <==> (url@ == DEFAULT_URL@ || (ends_with_slash(url@) && url_parses(url@))),
        url@ != DEFAULT_URL@ && !ends_with_slash(url@) ==> r == Err::<(), OptionsError>(
            OptionsError::MissingTrailingSlash,
        ),
        url@ != DEFAULT_URL@ && ends_with_slash(url@) && !url_parses(url@) ==> (r matches Err(
            OptionsError::MalformedUrl(m),
        ) && m@ == url_parse_message(url@)),
{
    let parsed = parse_absolute_url(url);
    validate_parsed_url(url, parsed)
}

} // verus!
