use qa_store::errors::{classify, Category, ErrorKind, ParseFailure};
use qa_store::ops::{
    add_answer, add_question, delete_question, get_questions, get_single_question,
    update_question,
};
use qa_store::pagination::extract_pagination;
use qa_store::params::QueryParams;
use qa_store::parse::parse_index;
use qa_store::store::Store;
use qa_store::types::{Question, QuestionId};

fn question(id: &str, title: &str, content: &str) -> Question {
    Question {
        id: QuestionId::new(id.to_string()).unwrap(),
        title: title.to_string(),
        content: content.to_string(),
        faq: None,
    }
}

fn params(pairs: &[(&str, &str)]) -> QueryParams {
    let mut params = QueryParams::new();
    for (key, value) in pairs {
        params.add(key.to_string(), value.to_string());
    }
    params
}

#[test]
fn identifier_round_trips_nonempty_strings() {
    for text in ["1", "a longer identifier", " ", "many words here"] {
        let id = QuestionId::new(text.to_string()).unwrap();
        assert_eq!(id.as_string(), text);
    }
}

#[test]
fn identifier_rejects_empty_string() {
    let built = QuestionId::new(String::new());
    assert!(matches!(built, Err(ErrorKind::InvalidInput)));
}

#[test]
fn insert_then_get_returns_equal_value() {
    let mut store = Store::new();
    add_question(&mut store, question("x", "title", "content")).unwrap();
    let got = get_single_question("x".to_string(), &store).unwrap();
    assert_eq!(got.id.as_string(), "x");
    assert_eq!(got.title, "title");
    assert_eq!(got.content, "content");
    assert_eq!(got.faq, None);
}

#[test]
fn get_after_remove_fails_not_found() {
    let mut store = Store::new();
    add_question(&mut store, question("x", "t", "c")).unwrap();
    delete_question("x".to_string(), &mut store).unwrap();
    let got = get_single_question("x".to_string(), &store);
    assert!(matches!(got, Err(ErrorKind::QuestionNotFound)));
}

#[test]
fn listing_without_params_returns_all_questions() {
    let mut store = Store::new();
    for id in ["b", "a", "c"] {
        add_question(&mut store, question(id, id, "c")).unwrap();
    }
    let listed = get_questions(&params(&[]), &store).unwrap();
    let mut ids: Vec<String> = listed.iter().map(|q| q.id.as_string()).collect();
    ids.sort();
    assert_eq!(ids, vec!["a".to_string(), "b".to_string(), "c".to_string()]);
}

#[test]
fn listing_full_range_returns_all_in_listing_order() {
    let mut store = Store::new();
    for id in ["b", "a", "c"] {
        add_question(&mut store, question(id, id, "c")).unwrap();
    }
    let unpaged = get_questions(&params(&[]), &store).unwrap();
    let paged = get_questions(&params(&[("start", "0"), ("end", "3")]), &store).unwrap();
    let unpaged_ids: Vec<String> = unpaged.iter().map(|q| q.id.as_string()).collect();
    let paged_ids: Vec<String> = paged.iter().map(|q| q.id.as_string()).collect();
    assert_eq!(unpaged_ids, paged_ids);
    assert_eq!(paged.len(), 3);
}

#[test]
fn listing_end_past_count_is_out_of_index() {
    let mut store = Store::new();
    for id in ["a", "b", "c"] {
        add_question(&mut store, question(id, "t", "c")).unwrap();
    }
    let listed = get_questions(&params(&[("start", "0"), ("end", "4")]), &store);
    assert!(matches!(listed, Err(ErrorKind::OutOfIndex)));
}

#[test]
fn listing_start_after_end_is_out_of_index() {
    let mut store = Store::new();
    for id in ["a", "b", "c"] {
        add_question(&mut store, question(id, "t", "c")).unwrap();
    }
    let listed = get_questions(&params(&[("start", "2"), ("end", "1")]), &store);
    assert!(matches!(listed, Err(ErrorKind::OutOfIndex)));
}

#[test]
fn listing_partial_range_returns_that_slice() {
    let mut store = Store::new();
    for id in ["a", "b", "c"] {
        add_question(&mut store, question(id, "t", "c")).unwrap();
    }
    let all = get_questions(&params(&[]), &store).unwrap();
    let page = get_questions(&params(&[("start", "1"), ("end", "3")]), &store).unwrap();
    assert_eq!(page.len(), 2);
    assert_eq!(page[0].id.as_string(), all[1].id.as_string());
    assert_eq!(page[1].id.as_string(), all[2].id.as_string());
}

#[test]
fn listing_with_only_start_misses_end() {
    let store = Store::new();
    let listed = get_questions(&params(&[("start", "0")]), &store);
    match listed {
        Err(ErrorKind::MissingParameter(name)) => assert_eq!(name, "end"),
        other => panic!("expected a missing parameter, got {:?}", other.map(|v| v.len())),
    }
}

#[test]
fn listing_with_only_end_misses_start() {
    let store = Store::new();
    let listed = get_questions(&params(&[("end", "5")]), &store);
    match listed {
        Err(ErrorKind::MissingParameter(name)) => assert_eq!(name, "start"),
        other => panic!("expected a missing parameter, got {:?}", other.map(|v| v.len())),
    }
}

#[test]
fn empty_params_skip_pagination_entirely() {
    let mut store = Store::new();
    add_question(&mut store, question("only", "t", "c")).unwrap();
    let listed = get_questions(&params(&[]), &store).unwrap();
    assert_eq!(listed.len(), 1);
}

#[test]
fn upsert_replaces_colliding_identifier() {
    let mut store = Store::new();
    add_question(&mut store, question("x", "first", "c")).unwrap();
    add_question(&mut store, question("x", "second", "c")).unwrap();
    let listed = get_questions(&params(&[]), &store).unwrap();
    assert_eq!(listed.len(), 1);
    assert_eq!(listed[0].title, "second");
}

#[test]
fn update_keeps_path_identifier() {
    let mut store = Store::new();
    add_question(&mut store, question("1", "old", "c")).unwrap();
    update_question("1".to_string(), &mut store, question("2", "new", "c2")).unwrap();
    let got = get_single_question("1".to_string(), &store).unwrap();
    assert_eq!(got.id.as_string(), "1");
    assert_eq!(got.title, "new");
    assert_eq!(got.content, "c2");
    let missing = get_single_question("2".to_string(), &store);
    assert!(matches!(missing, Err(ErrorKind::QuestionNotFound)));
}

#[test]
fn update_of_missing_question_leaves_store_unchanged() {
    let mut store = Store::new();
    add_question(&mut store, question("1", "t", "c")).unwrap();
    let updated = update_question("9".to_string(), &mut store, question("9", "n", "c"));
    assert!(matches!(updated, Err(ErrorKind::QuestionNotFound)));
    let listed = get_questions(&params(&[]), &store).unwrap();
    assert_eq!(listed.len(), 1);
    assert_eq!(listed[0].id.as_string(), "1");
    assert_eq!(listed[0].title, "t");
}

#[test]
fn delete_of_missing_question_fails_not_found() {
    let mut store = Store::new();
    let deleted = delete_question("none".to_string(), &mut store);
    assert!(matches!(deleted, Err(ErrorKind::QuestionNotFound)));
}

#[test]
fn empty_identifier_is_invalid_input() {
    let mut store = Store::new();
    assert!(matches!(
        get_single_question(String::new(), &store),
        Err(ErrorKind::InvalidInput)
    ));
    assert!(matches!(
        update_question(String::new(), &mut store, question("1", "t", "c")),
        Err(ErrorKind::InvalidInput)
    ));
    assert!(matches!(
        delete_question(String::new(), &mut store),
        Err(ErrorKind::InvalidInput)
    ));
}

#[test]
fn answer_for_unknown_relation_leaves_answers_unchanged() {
    let mut store = Store::new();
    add_question(&mut store, question("1", "t", "c")).unwrap();
    let created = add_answer(&mut store, &params(&[("content", "a"), ("relationId", "9")]));
    assert!(matches!(created, Err(ErrorKind::QuestionNotFound)));
    assert_eq!(store.answer_count(), 0);
}

#[test]
fn answer_missing_content_is_reported_first() {
    let mut store = Store::new();
    add_question(&mut store, question("1", "t", "c")).unwrap();
    let created = add_answer(&mut store, &params(&[("relationId", "1")]));
    match created {
        Err(ErrorKind::MissingParameter(name)) => assert_eq!(name, "content"),
        other => panic!("expected a missing parameter, got {:?}", other.is_ok()),
    }
    let created = add_answer(&mut store, &params(&[("content", "a")]));
    match created {
        Err(ErrorKind::MissingParameter(name)) => assert_eq!(name, "relationId"),
        other => panic!("expected a missing parameter, got {:?}", other.is_ok()),
    }
    assert_eq!(store.answer_count(), 0);
}

#[test]
fn answers_get_fresh_distinct_identifiers() {
    let mut store = Store::new();
    add_question(&mut store, question("1", "t", "c")).unwrap();
    let first = add_answer(&mut store, &params(&[("content", "a"), ("relationId", "1")]))
        .unwrap();
    let second = add_answer(&mut store, &params(&[("content", "b"), ("relationId", "1")]))
        .unwrap();
    assert_ne!(first.id, second.id);
    assert_eq!(first.question_id.as_string(), "1");
    assert_eq!(second.question_id.as_string(), "1");
    assert_eq!(first.content, "a");
    assert_eq!(second.content, "b");
    assert_eq!(store.answer_count(), 2);
}

#[test]
fn answer_identifier_is_a_hyphenated_token() {
    let mut store = Store::new();
    add_question(&mut store, question("1", "t", "c")).unwrap();
    let created = add_answer(&mut store, &params(&[("content", "a"), ("relationId", "1")]))
        .unwrap();
    assert_eq!(created.id.chars().count(), 36);
    assert_eq!(created.id.matches('-').count(), 4);
}

#[test]
fn answer_for_empty_relation_fails_not_found() {
    let mut store = Store::new();
    add_question(&mut store, question("1", "t", "c")).unwrap();
    let created = add_answer(&mut store, &params(&[("content", "a"), ("relationId", "")]));
    assert!(matches!(created, Err(ErrorKind::QuestionNotFound)));
    assert_eq!(store.answer_count(), 0);
}

#[test]
fn distinct_inserts_commute_to_the_same_contents() {
    let mut forward = Store::new();
    let mut backward = Store::new();
    let ids = ["q1", "q2", "q3", "q4", "q5"];
    for id in ids {
        add_question(&mut forward, question(id, id, "c")).unwrap();
    }
    for id in ids.iter().rev() {
        add_question(&mut backward, question(id, id, "c")).unwrap();
    }
    let mut forward_ids: Vec<String> = get_questions(&params(&[]), &forward)
        .unwrap()
        .iter()
        .map(|q| q.id.as_string())
        .collect();
    let mut backward_ids: Vec<String> = get_questions(&params(&[]), &backward)
        .unwrap()
        .iter()
        .map(|q| q.id.as_string())
        .collect();
    forward_ids.sort();
    backward_ids.sort();
    assert_eq!(forward_ids, backward_ids);
    assert_eq!(forward_ids.len(), ids.len());
}

#[test]
fn seeded_store_serves_the_documented_scenario() {
    let mut store = Store::new();
    add_question(&mut store, question("1", "t", "c")).unwrap();

    let listed = get_questions(&params(&[]), &store).unwrap();
    assert_eq!(listed.len(), 1);
    assert_eq!(listed[0].id.as_string(), "1");
    assert_eq!(listed[0].title, "t");
    assert_eq!(listed[0].content, "c");
    assert_eq!(listed[0].faq, None);

    let missing = get_single_question("2".to_string(), &store);
    match &missing {
        Err(e) => {
            assert!(matches!(e, ErrorKind::QuestionNotFound));
            assert_eq!(classify(e), Category::NotFound);
        },
        Ok(_) => panic!("question 2 must not exist"),
    }

    let linked = add_answer(&mut store, &params(&[("content", "a"), ("relationId", "1")]))
        .unwrap();
    assert_eq!(linked.question_id.as_string(), "1");
    assert_eq!(linked.content, "a");

    let unlinked = add_answer(&mut store, &params(&[("content", "a"), ("relationId", "9")]));
    match &unlinked {
        Err(e) => assert_eq!(classify(e), Category::NotFound),
        Ok(_) => panic!("question 9 must not exist"),
    }
}

#[test]
fn parse_index_accepts_digit_strings() {
    assert_eq!(parse_index("0"), Ok(0));
    assert_eq!(parse_index("123"), Ok(123));
    assert_eq!(parse_index("007"), Ok(7));
    assert_eq!(parse_index("+1"), Ok(1));
    assert_eq!(parse_index("+0042"), Ok(42));
}

#[test]
fn parse_index_reports_each_failure() {
    assert_eq!(parse_index(""), Err(ParseFailure::EmptyInput));
    assert_eq!(parse_index("12x"), Err(ParseFailure::InvalidDigit));
    assert_eq!(parse_index("-1"), Err(ParseFailure::InvalidDigit));
    assert_eq!(parse_index("+"), Err(ParseFailure::InvalidDigit));
    assert_eq!(parse_index("++1"), Err(ParseFailure::InvalidDigit));
    assert_eq!(
        parse_index("999999999999999999999999999999"),
        Err(ParseFailure::Overflow)
    );
}

#[test]
fn pagination_parses_both_bounds() {
    let page = extract_pagination(&params(&[("start", "2"), ("end", "7")])).unwrap();
    assert_eq!(page.start, 2);
    assert_eq!(page.end, 7);
    let signed = extract_pagination(&params(&[("start", "+2"), ("end", "+7")])).unwrap();
    assert_eq!(signed.start, 2);
    assert_eq!(signed.end, 7);
}

#[test]
fn pagination_propagates_parse_failures() {
    let bad_start = extract_pagination(&params(&[("start", "x"), ("end", "7")]));
    assert!(matches!(
        bad_start,
        Err(ErrorKind::ParseError(ParseFailure::InvalidDigit))
    ));
    let bad_end = extract_pagination(&params(&[("start", "1"), ("end", "")]));
    assert!(matches!(
        bad_end,
        Err(ErrorKind::ParseError(ParseFailure::EmptyInput))
    ));
}

#[test]
fn pagination_uses_first_value_of_a_repeated_key() {
    let page =
        extract_pagination(&params(&[("start", "1"), ("start", "9"), ("end", "4")])).unwrap();
    assert_eq!(page.start, 1);
    assert_eq!(page.end, 4);
}

#[test]
fn classifier_sends_only_missing_questions_to_not_found() {
    assert_eq!(classify(&ErrorKind::QuestionNotFound), Category::NotFound);
    assert_eq!(classify(&ErrorKind::InvalidInput), Category::ClientInput);
    assert_eq!(
        classify(&ErrorKind::MissingParameter("start".to_string())),
        Category::ClientInput
    );
    assert_eq!(
        classify(&ErrorKind::ParseError(ParseFailure::Overflow)),
        Category::ClientInput
    );
    assert_eq!(classify(&ErrorKind::OutOfIndex), Category::ClientInput);
}

#[test]
fn error_messages_match_their_kinds() {
    assert_eq!(ErrorKind::InvalidInput.message(), "No id provided");
    assert_eq!(
        ErrorKind::MissingParameter("end".to_string()).message(),
        "Missing 'end' Parameter"
    );
    assert_eq!(
        ErrorKind::ParseError(ParseFailure::InvalidDigit).message(),
        "Cannot parse parameter: invalid digit found in string"
    );
    assert_eq!(ErrorKind::OutOfIndex.message(), "Out of Index Paramter");
    assert_eq!(ErrorKind::QuestionNotFound.message(), "Question Not Found!");
}

#[test]
fn question_faq_is_kept_through_storage() {
    let mut store = Store::new();
    let q = Question {
        id: QuestionId::new("f".to_string()).unwrap(),
        title: "t".to_string(),
        content: "c".to_string(),
        faq: Some(vec!["one".to_string(), "two".to_string()]),
    };
    add_question(&mut store, q).unwrap();
    let got = get_single_question("f".to_string(), &store).unwrap();
    assert_eq!(got.faq, Some(vec!["one".to_string(), "two".to_string()]));
}

#[test]
fn empty_store_accepts_only_the_empty_range() {
    let store = Store::new();
    let empty_page = get_questions(&params(&[("start", "0"), ("end", "0")]), &store).unwrap();
    assert_eq!(empty_page.len(), 0);
    let past_end = get_questions(&params(&[("start", "0"), ("end", "1")]), &store);
    assert!(matches!(past_end, Err(ErrorKind::OutOfIndex)));
}
