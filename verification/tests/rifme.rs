use rifme::cookie::build_cookie;
use rifme::decimal::{dec_i8, dec_u32};
use rifme::extract::extract_rhymes;
use rifme::fanout::{merge_results, plan_requests};
use rifme::url::build_url;
use rifme::{prepare_request, user_agent, PartOfSpeech, RifmeError, RifmeOptions};

fn opts(
    syllables: Option<i8>,
    part: Option<PartOfSpeech>,
    emphasis: Option<i8>,
) -> RifmeOptions {
    RifmeOptions { syllables, part, emphasis }
}

#[test]
fn cookie_syllables_then_part() {
    let c = build_cookie(opts(Some(3), Some(PartOfSpeech::Verb), Some(7)));
    assert_eq!(c, "slogovcookie=3;chastcookie=3;");
}

#[test]
fn cookie_ignores_emphasis() {
    let a = build_cookie(opts(Some(3), Some(PartOfSpeech::Verb), None));
    let b = build_cookie(opts(Some(3), Some(PartOfSpeech::Verb), Some(-4)));
    assert_eq!(a, b);
}

#[test]
fn cookie_empty_when_both_absent() {
    let c = build_cookie(opts(None, None, Some(1)));
    assert_eq!(c, "");
}

#[test]
fn cookie_syllables_only() {
    let c = build_cookie(opts(Some(8), None, None));
    assert_eq!(c, "slogovcookie=8;");
}

#[test]
fn cookie_part_only_codes() {
    assert_eq!(
        build_cookie(opts(None, Some(PartOfSpeech::Noun), None)),
        "chastcookie=1;"
    );
    assert_eq!(
        build_cookie(opts(None, Some(PartOfSpeech::Adj), None)),
        "chastcookie=2;"
    );
    assert_eq!(
        build_cookie(opts(None, Some(PartOfSpeech::Verb), None)),
        "chastcookie=3;"
    );
    assert_eq!(
        build_cookie(opts(None, Some(PartOfSpeech::Other), None)),
        "chastcookie=0;"
    );
}

#[test]
fn cookie_passes_negative_syllables_through() {
    let c = build_cookie(opts(Some(-5), None, None));
    assert_eq!(c, "slogovcookie=-5;");
}

#[test]
fn decimal_renders_exact_values() {
    assert_eq!(dec_u32(0), "0");
    assert_eq!(dec_u32(10), "10");
    assert_eq!(dec_u32(105), "105");
    assert_eq!(dec_i8(0), "0");
    assert_eq!(dec_i8(127), "127");
    assert_eq!(dec_i8(-1), "-1");
    assert_eq!(dec_i8(-128), "-128");
}

#[test]
fn url_without_emphasis_has_no_trailing_segment() {
    let u = build_url("привет", None);
    assert_eq!(u, "https://rifme.net/r/привет");
}

#[test]
fn url_with_emphasis_ends_with_position() {
    let u = build_url("привет", Some(1));
    assert_eq!(u, "https://rifme.net/r/привет/1");
    assert!(u.ends_with("/1"));
}

#[test]
fn prepare_request_pairs_url_and_cookie() {
    let (url, cookie) = prepare_request(
        "гора",
        opts(Some(2), Some(PartOfSpeech::Noun), Some(0)),
    );
    assert_eq!(url, "https://rifme.net/r/гора/0");
    assert_eq!(cookie, "slogovcookie=2;chastcookie=1;");
}

#[test]
fn user_agent_is_fixed() {
    assert_eq!(
        user_agent(),
        "Mozilla/5.0 (X11; Linux x86_64; rv:78.0) Gecko/20100101 Firefox/78.0"
    );
}

#[test]
fn extraction_returns_attributes_in_document_order() {
    let body = "<html><body><ul>\
        <li class=\"riLi\" data-w=\"а\">x</li>\
        <li class=\"riLi\" data-w=\"б\">y</li>\
        <li class=\"riLi\" data-w=\"в\">z</li>\
        </ul></body></html>";
    let words = extract_rhymes(body).unwrap();
    assert_eq!(words, vec!["а".to_string(), "б".to_string(), "в".to_string()]);
}

#[test]
fn extraction_of_no_matches_is_empty_not_error() {
    let body = "<html><body><p>nothing here</p></body></html>";
    let words = extract_rhymes(body).unwrap();
    assert!(words.is_empty());
}

#[test]
fn extraction_skips_items_of_other_classes() {
    let body = "<html><body><ul>\
        <li class=\"other\" data-w=\"х\">n</li>\
        <li class=\"riLi\" data-w=\"да\">y</li>\
        </ul></body></html>";
    let words = extract_rhymes(body).unwrap();
    assert_eq!(words, vec!["да".to_string()]);
}

#[test]
fn extraction_fails_on_item_missing_attribute() {
    let body = "<html><body><ul>\
        <li class=\"riLi\" data-w=\"а\">x</li>\
        <li class=\"riLi\">broken</li>\
        <li class=\"riLi\" data-w=\"в\">z</li>\
        </ul></body></html>";
    let r = extract_rhymes(body);
    assert_eq!(r, Err(RifmeError::Parse));
}

#[test]
fn plan_single_request_when_syllables_positive() {
    let plan = plan_requests(Some(3), Some(PartOfSpeech::Adj), Some(1));
    assert_eq!(plan.len(), 1);
    assert_eq!(plan[0].syllables, Some(3));
    assert_eq!(plan[0].part, Some(PartOfSpeech::Adj));
    assert_eq!(plan[0].emphasis, Some(1));
}

#[test]
fn plan_fans_out_when_syllables_absent() {
    let plan = plan_requests(None, Some(PartOfSpeech::Verb), None);
    assert_eq!(plan.len(), 8);
    for (i, request) in plan.iter().enumerate() {
        assert_eq!(request.syllables, Some((i + 1) as i8));
        assert_eq!(request.part, Some(PartOfSpeech::Verb));
        assert_eq!(request.emphasis, None);
    }
}

#[test]
fn plan_fans_out_when_syllables_not_positive() {
    assert_eq!(plan_requests(Some(0), None, None).len(), 8);
    assert_eq!(plan_requests(Some(-1), None, None).len(), 8);
}

#[test]
fn merge_concatenates_in_task_order() {
    let results: Vec<Result<Vec<String>, RifmeError>> = vec![
        Ok(vec!["один".to_string()]),
        Ok(vec![]),
        Ok(vec!["три".to_string(), "ещё".to_string()]),
        Ok(vec!["четыре".to_string()]),
    ];
    let merged = merge_results(results).unwrap();
    assert_eq!(
        merged,
        vec![
            "один".to_string(),
            "три".to_string(),
            "ещё".to_string(),
            "четыре".to_string()
        ]
    );
}

#[test]
fn merge_of_no_results_is_empty() {
    let merged = merge_results(Vec::new()).unwrap();
    assert!(merged.is_empty());
}

#[test]
fn merge_fails_fast_when_one_sub_request_fails() {
    let mut results: Vec<Result<Vec<String>, RifmeError>> = Vec::new();
    for i in 0..8u32 {
        if i == 4 {
            results.push(Err(RifmeError::Network));
        } else {
            results.push(Ok(vec![format!("слово{}", i)]));
        }
    }
    let r = merge_results(results);
    assert_eq!(r, Err(RifmeError::Network));
}

#[test]
fn merge_reports_the_first_failure() {
    let results: Vec<Result<Vec<String>, RifmeError>> = vec![
        Ok(vec!["a".to_string()]),
        Err(RifmeError::Parse),
        Err(RifmeError::Network),
    ];
    let r = merge_results(results);
    assert_eq!(r, Err(RifmeError::Parse));
}

#[test]
fn error_descriptions() {
    assert_eq!(RifmeError::Network.describe(), "network failure");
    assert_eq!(RifmeError::Parse.describe(), "malformed response document");
}
