use vstd::prelude::*;
use crate::{PartOfSpeech, RifmeError, RifmeOptions};

verus! {

/// Whether the filters call for a single request: a positive syllable count
/// was given. Otherwise the lookup fans out over syllable counts 1 through 8.
pub open spec fn single_request(syllables: Option<i8>) -> bool {
    syllables matches Some(s) && s > 0
}

/// Builds the request list of a lookup: one request with the given filters
/// when a positive syllable count was given, else eight requests with
/// syllable counts 1 through 8 in that order, each inheriting the other
/// filters.
pub fn plan_requests(syllables: Option<i8>, part: Option<PartOfSpeech>, emphasis: Option<i8>) -> (r:
    Vec<RifmeOptions>)
    ensures
        single_request(syllables) ==> r@ == seq![(RifmeOptions { syllables, part, emphasis })],
        !single_request(syllables) ==> r@.len() == 8 && (forall|i: int|
            0 <= i < 8 ==> r@[i].syllables == Some((i + 1) as i8) && r@[i].part == part
                && r@[i].emphasis == emphasis),
{
    let single = match syllables {
        Some(s) => s > 0,
        None => false,
    };
    let mut requests: Vec<RifmeOptions> = Vec::new();
    if single {
        requests.push(RifmeOptions { syllables, part, emphasis });
        assert(requests@ =~= seq![(RifmeOptions { syllables, part, emphasis })]);
    } else {
        let mut count: i8 = 1;
        while count <= 8
            invariant
                1 <= count <= 9,
                requests@.len() == count - 1,
                forall|i: int|
                    0 <= i < count - 1 ==> requests@[i].syllables == Some((i + 1) as i8)
                        && requests@[i].part == part && requests@[i].emphasis == emphasis,
            decreases 9 - count,
        {
            requests.push(RifmeOptions { syllables: Some(count), part, emphasis });
            count = count + 1;
        }
    }
    requests
}

/// The view of one sub-result: the extracted words as character sequences,
/// or the error unchanged.
pub open spec fn result_chars(r: Result<Vec<String>, RifmeError>) -> Result<
    Seq<Seq<char>>,
    RifmeError,
> {
    match r {
        Ok(words) => Ok(words.deep_view()),
        Err(e) => Err(e),
    }
}

/// The merged outcome of the sub-results, in list order: the concatenation
/// of the word lists when every sub-result succeeded, else the error of the
/// first failed sub-result.
pub open spec fn merge_spec(results: Seq<Result<Vec<String>, RifmeError>>) -> Result<
    Seq<Seq<char>>,
    RifmeError,
>
    decreases results.len(),
{
    if results.len() == 0 {
        Ok(Seq::empty())
    } else {
        match results.first() {
            Err(e) => Err(e),
            Ok(words) => match merge_spec(results.drop_first()) {
                Err(e) => Err(e),
                Ok(rest) => Ok(words.deep_view() + rest),
            },
        }
    }
}

/// Merges the sub-results of a lookup: all word lists concatenated in the
/// order the requests were planned, unless some sub-result failed, in which
/// case the first failure is the outcome and no words are returned.
pub fn merge_results(results: Vec<Result<Vec<String>, RifmeError>>) -> (r: Result<
    Vec<String>,
    RifmeError,
>)
    ensures
        result_chars(r) == merge_spec(results@),
{
    let ghost orig: Seq<Result<Vec<String>, RifmeError>> = results@;
    let mut remaining = results;
    let mut acc: Result<Vec<String>, RifmeError> = Ok(Vec::new());
    proof {
        assert(orig.skip(orig.len() as int) =~= Seq::<Result<Vec<String>, RifmeError>>::empty());
        assert(acc->Ok_0.deep_view() =~= Seq::<Seq<char>>::empty());
        assert(remaining@ =~= orig.take(remaining@.len() as int));
    }
    while remaining.len() > 0
        invariant
            remaining@.len() <= orig.len(),
            remaining@ == orig.take(remaining@.len() as int),
            result_chars(acc) == merge_spec(orig.skip(remaining@.len() as int)),
        decreases remaining@.len(),
    {
        let ghost k = remaining@.len() as int;
        let last = remaining.pop().unwrap();
        let ghost last_snap = last;
        proof {
            assert(orig.take(k).subrange(0, k - 1) =~= orig.take(k - 1));
            assert(orig.take(k)[k - 1] == orig[k - 1]);
        }
        let merged: Result<Vec<String>, RifmeError> = match last {
            Err(e) => Err(e),
            Ok(words) => match acc {
                Err(e) => Err(e),
                Ok(rest) => {
                    let ghost words_dv = words.deep_view();
                    let ghost rest_dv = rest.deep_view();
                    let mut combined = words;
                    let mut tail = rest;
                    combined.append(&mut tail);
                    proof {
                        assert(combined.deep_view() =~= words_dv + rest_dv);
                    }
                    Ok(combined)
                },
            },
        };
        proof {
            let suf = orig.skip(k - 1);
            assert(suf.len() == orig.len() - (k - 1));
            assert(suf.first() == orig[k - 1]);
            assert(suf.drop_first() =~= orig.skip(k));
            assert(result_chars(merged) == merge_spec(suf));
        }
        acc = merged;
    }
    proof {
        assert(orig.skip(0) =~= orig);
    }
    acc
}

/// The words of a successful sub-result, as character sequences.
pub open spec fn ok_words(r: Result<Vec<String>, RifmeError>) -> Seq<Seq<char>> {
    r->Ok_0.deep_view()
}

/// All words of a list of successful sub-results, flattened in list order.
pub open spec fn all_words(results: Seq<Result<Vec<String>, RifmeError>>) -> Seq<Seq<char>> {
    results.map_values(|r: Result<Vec<String>, RifmeError>| ok_words(r)).flatten()
}

/// Law: when every sub-result succeeded, the merged outcome succeeds and is
/// exactly the concatenation of the sub-results' word lists in list order —
/// for the fan-out, syllable-count order 1 through 8, however the responses
/// were interleaved in time.
pub proof fn lemma_merge_all_ok(results: Seq<Result<Vec<String>, RifmeError>>)
    requires
        forall|i: int| 0 <= i < results.len() ==> results[i] is Ok,
    ensures
        merge_spec(results) == Ok::<Seq<Seq<char>>, RifmeError>(all_words(results)),
    decreases results.len(),
{
    let mapped = results.map_values(|r: Result<Vec<String>, RifmeError>| ok_words(r));
    if results.len() == 0 {
        assert(mapped.flatten() =~= Seq::<Seq<char>>::empty());
    } else {
        let tail = results.drop_first();
        assert forall|i: int| 0 <= i < tail.len() implies tail[i] is Ok by {
            assert(tail[i] == results[i + 1]);
        }
        lemma_merge_all_ok(tail);
        let mapped_tail = tail.map_values(|r: Result<Vec<String>, RifmeError>| ok_words(r));
        assert(mapped.drop_first() =~= mapped_tail);
        assert(mapped.first() == ok_words(results.first()));
        assert(mapped.flatten() == mapped.first() + mapped.drop_first().flatten());
        assert(all_words(results) == results.first()->Ok_0.deep_view() + all_words(tail));
    }
}

/// Law: the first failed sub-result decides the merged outcome — its error
/// is reported and no words are returned — no matter how the later
/// sub-results fared.
pub proof fn lemma_merge_fail_fast(results: Seq<Result<Vec<String>, RifmeError>>, k: int)
    requires
        0 <= k < results.len(),
        results[k] is Err,
        forall|i: int| 0 <= i < k ==> results[i] is Ok,
    ensures
        merge_spec(results) == Err::<Seq<Seq<char>>, RifmeError>(results[k]->Err_0),
    decreases k,
{
    if k > 0 {
        let tail = results.drop_first();
        assert forall|i: int| 0 <= i < k - 1 implies tail[i] is Ok by {
            assert(tail[i] == results[i + 1]);
        }
        assert(tail[k - 1] == results[k]);
        lemma_merge_fail_fast(tail, k - 1);
    }
}

} // verus!
