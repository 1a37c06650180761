use vstd::prelude::*;
use crate::error::{CompilerError, Failure};
use crate::text::same_text;
use http::Uri;

verus! {

/// What `http::Uri` makes of the text of a URI: its scheme and its host, each
/// where it has one, or the message of the error. Assumed, not proved: it names
/// what the parser of the `http` crate returns.
pub uninterp spec fn uri_parts(text: Seq<char>) -> Result<(Option<Seq<char>>, Option<Seq<char>>), Seq<char>>;

/// `http::Uri`'s `from_str`, then `Uri::scheme_str` and `Uri::host`: the scheme
/// and the host of the URI that the text parses as, or the message of the
/// error. Assumed, not proved.
#[verifier::external_body]
pub(crate) fn parse_uri(text: &str) -> (parts: Result<(Option<String>, Option<String>), String>)
    ensures
        match parts {
            Ok((scheme, host)) => uri_parts(text@) == Ok::<(Option<Seq<char>>, Option<Seq<char>>), Seq<char>>(
                (option_text(scheme), option_text(host)),
            ),
            Err(message) => uri_parts(text@) == Err::<(Option<Seq<char>>, Option<Seq<char>>), Seq<char>>(
                message@,
            ),
        },
{
    match text.parse::<Uri>() {
        Ok(uri) => Ok((uri.scheme_str().map(|s| s.to_string()), uri.host().map(|h| h.to_string()))),
        Err(e) => Err(e.to_string()),
    }
}

/// The view of a string that may be absent.
pub open spec fn option_text(text: Option<String>) -> Option<Seq<char>> {
    match text {
        Some(t) => Some(t@),
        None => None,
    }
}

/// Whether a URL can be fetched, from the parts of its URI: the host to ask,
/// or the failure. A URL that does not parse, has no host, or asks for HTTPS
/// cannot be fetched.
pub open spec fn target_of(
    url: Seq<char>,
    parts: Result<(Option<Seq<char>>, Option<Seq<char>>), Seq<char>>,
) -> Result<Seq<char>, Failure> {
    match parts {
        Err(message) => Err(Failure::Http("Invalid URL "@ + url + ": "@ + message)),
        Ok((scheme, host)) => match host {
            None => Err(Failure::Http("No host in URL: "@ + url)),
            Some(h) => if scheme == Some("https"@) {
                Err(
                    Failure::Http(
                        "HTTPS URLs are not supported. Please download the file locally first: "@ + url,
                    ),
                )
            } else {
                Ok(h)
            },
        },
    }
}

/// What a response amounts to: its body when the status says success, and the
/// failure with the status otherwise.
pub open spec fn response_result(url: Seq<char>, success: bool, status: Seq<char>, body: Seq<u8>) -> Result<
    Seq<u8>,
    Failure,
> {
    if success {
        Ok(body)
    } else {
        Err(Failure::Http("Error downloading "@ + url + ": "@ + status))
    }
}

/// Decides from the parts of a URI whether its URL can be fetched.
pub fn check_target(url: &str, parts: Result<(Option<String>, Option<String>), String>) -> (target: Result<
    String,
    CompilerError,
>)
    ensures
        match (target, parts) {
            (Ok(host), Ok((scheme, h))) => target_of(url@, Ok((option_text(scheme), option_text(h)))) == Ok::<
                Seq<char>,
                Failure,
            >(host@),
            (Err(error), Ok((scheme, h))) => target_of(url@, Ok((option_text(scheme), option_text(h)))) == Err::<
                Seq<char>,
                Failure,
            >(error@),
            (Err(error), Err(message)) => target_of(url@, Err(message@)) == Err::<Seq<char>, Failure>(error@),
            (Ok(_), Err(_)) => false,
        },
{
    match parts {
        Err(message) => Err(
            CompilerError::Http(
                String::from_str("Invalid URL ").concat(url).concat(": ").concat(message.as_str()),
            ),
        ),
        Ok((scheme, host)) => match host {
            None => Err(CompilerError::Http(String::from_str("No host in URL: ").concat(url))),
            Some(h) => {
                let secure = match &scheme {
                    Some(s) => same_text(s.as_str(), "https"),
                    None => false,
                };
                if secure {
                    Err(
                        CompilerError::Http(
                            String::from_str(
                                "HTTPS URLs are not supported. Please download the file locally first: ",
                            ).concat(url),
                        ),
                    )
                } else {
                    Ok(h)
                }
            },
        },
    }
}

/// Decides whether a URL can be fetched: the host to ask, or the failure.
pub fn fetch_target(url: &str) -> (target: Result<String, CompilerError>)
    ensures
        match target {
            Ok(host) => target_of(url@, uri_parts(url@)) == Ok::<Seq<char>, Failure>(host@),
            Err(error) => target_of(url@, uri_parts(url@)) == Err::<Seq<char>, Failure>(error@),
        },
{
    check_target(url, parse_uri(url))
}

/// Decides what a response amounts to: a status that does not say success is a
/// failure, whatever the body.
pub fn check_response(url: &str, success: bool, status: &str, body: Vec<u8>) -> (result: Result<
    Vec<u8>,
    CompilerError,
>)
    ensures
        match result {
            Ok(bytes) => response_result(url@, success, status@, body@) == Ok::<Seq<u8>, Failure>(bytes@),
            Err(error) => response_result(url@, success, status@, body@) == Err::<Seq<u8>, Failure>(error@),
        },
{
    if success {
        Ok(body)
    } else {
        Err(CompilerError::Http(String::from_str("Error downloading ").concat(url).concat(": ").concat(status)))
    }
}

} // verus!
