use wee::domain::entities::url::{Timestamp, Url};
use wee::domain::metadata::url_indexes::{UrlIndex, UrlIndexes};
use wee::domain::repos::url_repo::{GetUrlError, InsertUrlError, ReplaceUrlError, UrlRepoError};
use wee::outbound::mongodb::url_repo::{
    find_answer, get_answer, insert_failure, plan_indexes, replace_answer, ExistingIndex,
    ExistingOptions, IndexAction, IndexField, MongoUrlRepoError, DUPLICATE_KEY,
};

fn index(keys: &[&str], is_unique: bool, is_sparse: bool) -> UrlIndex {
    UrlIndex { keys: keys.iter().map(|k| k.to_string()).collect(), is_unique, is_sparse }
}

fn existing(fields: &[(&str, bool)], options: Option<(Option<&str>, Option<bool>, Option<bool>)>) -> ExistingIndex {
    ExistingIndex {
        keys: fields.iter().map(|(name, ascending)| IndexField { name: name.to_string(), ascending: *ascending }).collect(),
        options: options.map(|(name, unique, sparse)| ExistingOptions {
            name: name.map(str::to_string),
            unique,
            sparse,
        }),
    }
}

fn create(keys: &[&str], is_unique: bool, is_sparse: bool) -> IndexAction {
    IndexAction::Create { index: index(keys, is_unique, is_sparse) }
}

fn drop(name: &str) -> IndexAction {
    IndexAction::Drop { name: name.to_string() }
}

fn sample() -> Url {
    Url {
        long: "https://a.com".to_string(),
        short: "1c".to_string(),
        alias: None,
        expiration_date: None,
        created_at: Timestamp { secs: 1, nanos: 2 },
        updated_at: Timestamp { secs: 3, nanos: 4 },
        user_id: "u".to_string(),
    }
}

#[test]
fn the_required_indexes() {
    let indexes = UrlIndexes::default();
    assert_eq!(
        indexes.values,
        vec![
            index(&["userId", "long"], true, false),
            index(&["short"], true, false),
            index(&["alias"], true, true),
        ]
    );
}

#[test]
fn new_keeps_what_it_is_given() {
    let values = vec![index(&["a", "b"], false, true), index(&[], true, false)];
    let indexes = UrlIndexes::new(vec![index(&["a", "b"], false, true), index(&[], true, false)]);
    assert_eq!(indexes.values, values);
    assert_eq!(UrlIndexes::new(Vec::new()).values, Vec::new());
}

#[test]
fn an_index_equals_its_copy() {
    let one = index(&["userId", "long"], true, false);
    assert_eq!(one.clone(), one);
    let all = UrlIndexes::default();
    assert_eq!(all.clone(), all);
}

#[test]
fn a_store_without_indexes_gets_them_all() {
    let plan = plan_indexes(&UrlIndexes::default(), &Vec::new());
    assert_eq!(
        plan,
        vec![
            create(&["userId", "long"], true, false),
            create(&["short"], true, false),
            create(&["alias"], true, true),
        ]
    );
}

#[test]
fn an_index_that_is_as_wanted_is_left_alone() {
    let store = vec![
        existing(&[("_id", true)], Some((Some("_id_"), None, None))),
        existing(&[("userId", true), ("long", true)], Some((Some("userId_1_long_1"), Some(true), None))),
        existing(&[("short", true)], Some((Some("short_1"), Some(true), Some(false)))),
        existing(&[("alias", true)], Some((Some("alias_1"), Some(true), Some(true)))),
    ];
    assert_eq!(plan_indexes(&UrlIndexes::default(), &store), Vec::new());
}

#[test]
fn an_index_with_other_options_is_dropped_and_made_anew() {
    let store = vec![
        existing(&[("short", true)], Some((Some("short_1"), None, None))),
        existing(&[("alias", true)], Some((Some("alias_1"), Some(true), Some(false)))),
        existing(&[("userId", true), ("long", true)], Some((None, Some(false), Some(false)))),
    ];
    assert_eq!(
        plan_indexes(&UrlIndexes::default(), &store),
        vec![
            drop("unknown_index_name"),
            create(&["userId", "long"], true, false),
            drop("short_1"),
            create(&["short"], true, false),
            drop("alias_1"),
            create(&["alias"], true, true),
        ]
    );
}

#[test]
fn an_index_without_options_is_made_without_a_drop() {
    let store = vec![existing(&[("short", true)], None)];
    let wanted = UrlIndexes::new(vec![index(&["short"], true, false)]);
    assert_eq!(plan_indexes(&wanted, &store), vec![create(&["short"], true, false)]);
    let wanted = UrlIndexes::new(vec![index(&["short"], false, false)]);
    assert_eq!(plan_indexes(&wanted, &store), vec![create(&["short"], false, false)]);
}

#[test]
fn fields_are_matched_whatever_their_order() {
    let store = vec![existing(&[("long", true), ("userId", true)], Some((Some("x"), Some(true), None)))];
    let wanted = UrlIndexes::new(vec![index(&["userId", "long"], true, false)]);
    assert_eq!(plan_indexes(&wanted, &store), Vec::new());
}

#[test]
fn an_index_on_other_fields_does_not_count() {
    let wanted = UrlIndexes::new(vec![index(&["userId", "long"], true, false)]);
    for fields in [
        vec![("userId", true)],
        vec![("long", true)],
        vec![("userId", true), ("long", true), ("short", true)],
        vec![("userId", true), ("long", false)],
        vec![("userid", true), ("long", true)],
        vec![],
    ] {
        let store = vec![existing(&fields, Some((Some("x"), Some(true), Some(false))))];
        assert_eq!(plan_indexes(&wanted, &store), vec![create(&["userId", "long"], true, false)], "{fields:?}");
    }
}

#[test]
fn the_first_index_on_the_fields_decides() {
    let wanted = UrlIndexes::new(vec![index(&["short"], true, false)]);
    let store = vec![
        existing(&[("alias", true)], Some((Some("alias_1"), Some(true), None))),
        existing(&[("short", true)], Some((Some("first"), Some(false), None))),
        existing(&[("short", true)], Some((Some("second"), Some(true), None))),
    ];
    assert_eq!(plan_indexes(&wanted, &store), vec![drop("first"), create(&["short"], true, false)]);
    let store = vec![
        existing(&[("short", true)], Some((Some("first"), Some(true), None))),
        existing(&[("short", true)], Some((Some("second"), Some(false), None))),
    ];
    assert_eq!(plan_indexes(&wanted, &store), Vec::new());
}

#[test]
fn nothing_wanted_nothing_done() {
    let store = vec![existing(&[("short", true)], Some((Some("short_1"), Some(true), None)))];
    assert_eq!(plan_indexes(&UrlIndexes::new(Vec::new()), &store), Vec::new());
}

#[test]
fn get_answers_with_the_binding_or_not_found() {
    assert_eq!(get_answer(Ok(Some(sample()))), Ok(sample()));
    assert_eq!(get_answer(Ok(None)), Err(UrlRepoError::Get(GetUrlError::NotFound)));
    assert!(get_answer(Ok(None)).unwrap_err().not_found());
    let failed = get_answer(Err("timeout".to_string()));
    assert_eq!(failed, Err(UrlRepoError::Get(GetUrlError::ClientError("timeout".to_string()))));
    assert!(!failed.unwrap_err().not_found());
}

#[test]
fn find_answers_with_the_binding_or_none() {
    assert_eq!(find_answer(Ok(Some(sample()))), Ok(Some(sample())));
    assert_eq!(find_answer(Ok(None)), Ok(None));
    assert_eq!(
        find_answer(Err("timeout".to_string())),
        Err(UrlRepoError::Get(GetUrlError::ClientError("timeout".to_string())))
    );
}

#[test]
fn a_duplicate_key_means_that_the_binding_exists() {
    assert_eq!(DUPLICATE_KEY, 11000);
    assert_eq!(
        insert_failure(Some(11000), "E11000 duplicate key".to_string()),
        UrlRepoError::Insert(InsertUrlError::AlreadyExists)
    );
    for code in [None, Some(0), Some(11001), Some(-11000), Some(121)] {
        assert_eq!(
            insert_failure(code, "refused".to_string()),
            UrlRepoError::Insert(InsertUrlError::ClientError("refused".to_string()))
        );
    }
}

#[test]
fn replace_answers_not_found_where_nothing_was_replaced() {
    assert_eq!(replace_answer(Ok(true), "abc".to_string()), Ok(()));
    assert_eq!(
        replace_answer(Ok(false), "abc".to_string()),
        Err(UrlRepoError::Replace(ReplaceUrlError::NotFound("abc".to_string())))
    );
    assert_eq!(
        replace_answer(Err("timeout".to_string()), "abc".to_string()),
        Err(UrlRepoError::Replace(ReplaceUrlError::ClientError("timeout".to_string())))
    );
}

#[test]
fn messages_of_the_store() {
    assert_eq!(GetUrlError::NotFound.message(), "URL not found");
    assert_eq!(GetUrlError::ClientError("x".to_string()).message(), "Client Error: x");
    assert_eq!(GetUrlError::InternalError("x".to_string()).message(), "Internal Errorr: x");
    assert_eq!(InsertUrlError::AlreadyExists.message(), "URL already exists");
    assert_eq!(InsertUrlError::InvalidUrl.message(), "Invalid URL");
    assert_eq!(InsertUrlError::ClientError("x".to_string()).message(), "Client Error: x");
    assert_eq!(ReplaceUrlError::ClientError("x".to_string()).message(), "Client Error: x");
    assert_eq!(ReplaceUrlError::NotFound("abc".to_string()).message(), "URL not found: abc");
    assert_eq!(UrlRepoError::Get(GetUrlError::NotFound).message(), "Get URL error: URL not found");
    assert_eq!(
        UrlRepoError::Insert(InsertUrlError::AlreadyExists).message(),
        "Insert URL error: URL already exists"
    );
    assert_eq!(
        UrlRepoError::Replace(ReplaceUrlError::NotFound("abc".to_string())).message(),
        "Replace URL error: URL not found: abc"
    );
    assert_eq!(MongoUrlRepoError::ClientError("x".to_string()).message(), "MongoDB Client Error: x");
}
