//! The address of the page that the content view opens first.

use url::Url;
use vstd::prelude::*;
use vstd::string::*;

verus! {

/// What `url::Url::parse` makes of a text: the serialization of the URL it
/// reads from it, or `None` where it refuses the text.
pub uninterp spec fn parsed_url(text: Seq<char>) -> Option<Seq<char>>;

/// The address that is opened: the parsed one, or the blank page where there
/// is none.
pub open spec fn page_address(parsed: Option<Seq<char>>) -> Seq<char> {
    match parsed {
        Some(address) => address,
        None => "about:blank"@,
    }
}

/// `url::Url::parse` on `text`, with the URL taken as its serialization
/// (`String::from`, which hands out the URL's own string) and the error
/// dropped. The parser reads nothing but its input, so the result is named
/// by [`parsed_url`].
#[verifier::external_body]
fn parse_url(text: &str) -> (parsed: Option<String>)
    ensures
        match parsed {
            Some(address) => parsed_url(text@) == Some(address@),
            None => parsed_url(text@) is None,
        },
{
    match Url::parse(text) {
        Ok(url) => Some(String::from(url)),
        Err(_) => None,
    }
}

/// The address to open, given what parsing the configured one gave: an
/// address that could not be parsed gives way to the blank page.
pub fn page_or_blank(parsed: Option<String>) -> (address: String)
    ensures
        address@ == page_address(
            match parsed {
                Some(text) => Some(text@),
                None => None,
            },
        ),
{
    match parsed {
        Some(address) => address,
        None => String::from_str("about:blank"),
    }
}

/// The address to open for a configured one: its parsed form, or the blank
/// page where it is no URL.
pub fn initial_page(configured: &str) -> (address: String)
    ensures
        address@ == page_address(parsed_url(configured@)),
{
    page_or_blank(parse_url(configured))
}

} // verus!
