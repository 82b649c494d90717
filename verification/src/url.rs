use vstd::prelude::*;
use crate::decimal::{dec_int, dec_i8};

verus! {

/// The target URL for a word: the service's rhyme path followed by the word,
/// and, only when an emphasis position is given, a final segment holding it.
pub open spec fn url_of(word: Seq<char>, emphasis: Option<i8>) -> Seq<char> {
    "https://rifme.net/r/"@ + word + (match emphasis {
        Some(e) => "/"@ + dec_int(e as int),
        None => Seq::<char>::empty(),
    })
}

/// Builds the request URL for a word and an optional emphasis position.
pub fn build_url(word: &str, emphasis: Option<i8>) -> (r: String)
    ensures
        r@ == url_of(word@, emphasis),
{
    let mut url = String::from_str("https://rifme.net/r/");
    url.append(word);
    if let Some(e) = emphasis {
        url.append("/");
        let value = dec_i8(e);
        url.append(value.as_str());
    }
    url
}

} // verus!
