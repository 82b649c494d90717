use vstd::prelude::*;
use crate::RifmeError;

verus! {

/// The rhyme entries that an HTML document holds: one entry per list item of
/// the rhyme class, in document order, each carrying its rhyme-word attribute
/// where the item has one and `None` where it does not. The document text
/// alone determines this sequence.
pub uninterp spec fn rhyme_items_of(body: Seq<char>) -> Seq<Option<Seq<char>>>;

/// The characters that an optional attribute value holds.
pub open spec fn item_chars(item: Option<String>) -> Option<Seq<char>> {
    match item {
        Some(word) => Some(word@),
        None => None,
    }
}

/// Relies on scraper: `Html::parse_document` on the body, `Selector::parse`
/// on the fixed selector `li[class=riLi]` (a constant valid selector, so the
/// parse cannot fail), `Html::select` to walk the matches in document order,
/// and `Element::attr` to read each item's `data-w` attribute.
#[verifier::external_body]
fn select_rhyme_items(body: &str) -> (r: Vec<Option<String>>)
    ensures
        r@.len() == rhyme_items_of(body@).len(),
        forall|i: int| 0 <= i < r@.len() ==> item_chars(r@[i]) == rhyme_items_of(body@)[i],
{
    let document = scraper::Html::parse_document(body);
    let selector = scraper::Selector::parse("li[class=riLi]").unwrap();
    document
        .select(&selector)
        .map(|item| item.value().attr("data-w").map(|word| word.to_owned()))
        .collect()
}

/// Extracts the rhyme words from a response document: the attribute values of
/// the matching list items, in document order. A document with no match gives
/// an empty list; a single matching item without the attribute makes the
/// whole extraction fail.
pub fn extract_rhymes(body: &str) -> (r: Result<Vec<String>, RifmeError>)
    ensures
        r is Ok <==> (forall|i: int|
            0 <= i < rhyme_items_of(body@).len() ==> rhyme_items_of(body@)[i] is Some),
        r matches Ok(words) ==> words@.len() == rhyme_items_of(body@).len()
            && (forall|i: int|
                0 <= i < words@.len() ==> words@[i]@ == rhyme_items_of(body@)[i]->0),
        r matches Err(e) ==> e == RifmeError::Parse,
{
    let items = select_rhyme_items(body);
    let mut words: Vec<String> = Vec::new();
    let mut idx: usize = 0;
    while idx < items.len()
        invariant
            idx <= items@.len(),
            items@.len() == rhyme_items_of(body@).len(),
            forall|i: int| 0 <= i < items@.len() ==> item_chars(items@[i]) == rhyme_items_of(
                body@,
            )[i],
            words@.len() == idx,
            forall|i: int| 0 <= i < idx ==> rhyme_items_of(body@)[i] is Some,
            forall|i: int| 0 <= i < idx ==> words@[i]@ == rhyme_items_of(body@)[i]->0,
        decreases items@.len() - idx,
    {
        match &items[idx] {
            Some(word) => {
                words.push(word.clone());
            },
            None => {
                assert(rhyme_items_of(body@)[idx as int] is None);
                return Err(RifmeError::Parse);
            },
        }
        idx = idx + 1;
    }
    Ok(words)
}

} // verus!
