use vstd::prelude::*;

pub mod cookie;
pub mod decimal;
pub mod extract;
pub mod fanout;
pub mod url;

verus! {

/// The part-of-speech filter a caller may apply to a rhyme query.
#[derive(Clone, Copy, Debug, PartialEq, Eq)]
pub enum PartOfSpeech {
    Noun,
    Adj,
    Verb,
    Other,
}

/// The numeric code the rhyme service expects for each part of speech.
pub open spec fn part_code(p: PartOfSpeech) -> int {
    match p {
        PartOfSpeech::Noun => 1,
        PartOfSpeech::Adj => 2,
        PartOfSpeech::Verb => 3,
        PartOfSpeech::Other => 0,
    }
}

/// The filters of one outbound rhyme request. A `None` field places no
/// restriction; no range validation is performed on the numeric fields.
#[derive(Clone, Copy, Debug)]
pub struct RifmeOptions {
    /// Requested syllable count; `None` means any.
    pub syllables: Option<i8>,
    /// Requested part of speech; `None` means all.
    pub part: Option<PartOfSpeech>,
    /// Stressed-syllable position from the end of the word, 0 for the last;
    /// `None` means unrestricted.
    pub emphasis: Option<i8>,
}

impl Default for RifmeOptions {
    /// The unrestricted query: every filter absent.
    fn default() -> (d: Self)
        ensures
            d.syllables is None,
            d.part is None,
            d.emphasis is None,
    {
        RifmeOptions { syllables: None, part: None, emphasis: None }
    }
}

/// The two error kinds of the pipeline: a transport failure, and a response
/// whose expected structure is absent.
#[derive(Clone, Copy, Debug, PartialEq, Eq, Structural)]
pub enum RifmeError {
    /// Request construction, connection or transport failure, or a body that
    /// could not be decoded.
    Network,
    /// The HTML structure lacked a required piece: a matched list item had no
    /// rhyme-word attribute.
    Parse,
}

/// The fixed browser identification string sent with every request.
pub fn user_agent() -> (r: &'static str)
    ensures
        r@ == "Mozilla/5.0 (X11; Linux x86_64; rv:78.0) Gecko/20100101 Firefox/78.0"@,
{
    "Mozilla/5.0 (X11; Linux x86_64; rv:78.0) Gecko/20100101 Firefox/78.0"
}

/// Everything a transport needs for one request: the target URL and the
/// cookie header value that encode a word and its filters.
pub fn prepare_request(word: &str, options: RifmeOptions) -> (r: (String, String))
    ensures
        r.0@ == crate::url::url_of(word@, options.emphasis),
        r.1@ == crate::cookie::cookie_of(options.syllables, options.part),
{
    let url = crate::url::build_url(word, options.emphasis);
    let cookie = crate::cookie::build_cookie(options);
    (url, cookie)
}

impl RifmeError {
    /// A short description of the error kind.
    pub fn describe(&self) -> (r: &'static str)
        ensures
            *self is Network ==> r@ == "network failure"@,
            *self is Parse ==> r@ == "malformed response document"@,
    {
        match self {
            RifmeError::Network => "network failure",
            RifmeError::Parse => "malformed response document",
        }
    }
}

} // verus!
