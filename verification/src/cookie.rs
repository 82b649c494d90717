use vstd::prelude::*;
use crate::decimal::{dec_int, dec_i8, dec_u32, dec_digits};
use crate::{PartOfSpeech, RifmeOptions, part_code};

verus! {

/// The cookie header value that encodes a set of request filters: a
/// `slogovcookie=<syllables>;` pair when a syllable count is present, then a
/// `chastcookie=<code>;` pair when a part of speech is present, and nothing
/// for an absent field.
pub open spec fn cookie_of(syllables: Option<i8>, part: Option<PartOfSpeech>) -> Seq<char> {
    (match syllables {
        Some(s) => "slogovcookie="@ + dec_int(s as int) + ";"@,
        None => Seq::<char>::empty(),
    }) + (match part {
        Some(p) => "chastcookie="@ + dec_int(part_code(p)) + ";"@,
        None => Seq::<char>::empty(),
    })
}

/// Encodes the filters of a request as the service's cookie string.
pub fn build_cookie(options: RifmeOptions) -> (r: String)
    ensures
        r@ == cookie_of(options.syllables, options.part),
{
    let mut cookie = String::new();
    if let Some(syllables) = options.syllables {
        cookie.append("slogovcookie=");
        let value = dec_i8(syllables);
        cookie.append(value.as_str());
        cookie.append(";");
    }
    if let Some(part) = options.part {
        cookie.append("chastcookie=");
        let code: u32 = match part {
            PartOfSpeech::Noun => 1,
            PartOfSpeech::Adj => 2,
            PartOfSpeech::Verb => 3,
            PartOfSpeech::Other => 0,
        };
        let value = dec_u32(code);
        assert(dec_digits(code as int) == dec_int(part_code(part)));
        cookie.append(value.as_str());
        cookie.append(";");
    }
    cookie
}

} // verus!
