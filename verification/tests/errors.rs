use wee::domain::repos::url_repo::{GetUrlError, InsertUrlError, UrlRepoError};
use wee::redirect::inbound::rest::error::ApiError as RedirectApiError;
use wee::redirect::services::redirect_service::error::{
    RedirectServiceError, RedisRedirectServiceCacheError,
};
use wee::shorten::inbound::rest::error::ApiError as ShortenApiError;
use wee::shorten::outbound::zookeeper::id_generator::ZooKeeperIdGeneratorError;
use wee::shorten::services::shorten_service::error::{
    RedisShortenServiceCacheError, ShortenServiceError,
};

fn shorten_failures() -> Vec<ShortenServiceError> {
    vec![
        ShortenServiceError::UrlRepoError(UrlRepoError::Insert(InsertUrlError::AlreadyExists)),
        ShortenServiceError::UrlRepoError(UrlRepoError::Get(GetUrlError::NotFound)),
        ShortenServiceError::IdGeneratorError(ZooKeeperIdGeneratorError::RangeExhausted),
        ShortenServiceError::IdGeneratorError(ZooKeeperIdGeneratorError::ClientError("lost".to_string())),
        ShortenServiceError::CacheError(RedisShortenServiceCacheError::RedisClientError("down".to_string())),
        ShortenServiceError::CacheError(RedisShortenServiceCacheError::InternalError("bad json".to_string())),
        ShortenServiceError::InternalError("12x".to_string()),
    ]
}

#[test]
fn only_the_two_alias_errors_are_conflicts() {
    assert!(ShortenServiceError::AliasTaken("nick".to_string()).conflict());
    assert!(ShortenServiceError::UrlAlreadyExistedWithAlias("nick".to_string()).conflict());
    for e in shorten_failures() {
        assert!(!e.conflict(), "{e:?}");
    }
}

#[test]
fn messages_of_the_shorten_service() {
    assert_eq!(ShortenServiceError::AliasTaken("nick".to_string()).message(), "Alias already taken: nick");
    assert_eq!(
        ShortenServiceError::UrlAlreadyExistedWithAlias("nick".to_string()).message(),
        "Url already existed with alias: nick"
    );
    let messages: Vec<String> = shorten_failures().iter().map(|e| e.message()).collect();
    assert_eq!(
        messages,
        vec![
            "UrlRepoError: Insert URL error: URL already exists",
            "UrlRepoError: Get URL error: URL not found",
            "Generate Id Error: Global ID is greater than the end of the shard",
            "Generate Id Error: ZooKeeperIdGenerator Client Error: lost",
            "Cache Error: Redis Client Error: down",
            "Cache Error: Internal Error: bad json",
            "Internal Error: 12x",
        ]
    );
}

#[test]
fn shorten_answers_conflicts_with_bad_request() {
    assert_eq!(
        ShortenApiError::ShortenServiceError(ShortenServiceError::AliasTaken("nick".to_string())).into_response(),
        (400, "Alias already taken: nick".to_string())
    );
    assert_eq!(
        ShortenApiError::ShortenServiceError(ShortenServiceError::UrlAlreadyExistedWithAlias("nick".to_string()))
            .into_response(),
        (400, "Url already existed with alias: nick".to_string())
    );
}

#[test]
fn shorten_answers_everything_else_with_a_server_error() {
    for e in shorten_failures() {
        let message = e.message();
        assert_eq!(ShortenApiError::ShortenServiceError(e).into_response(), (500, message));
    }
}

#[test]
fn shorten_answers_its_own_errors() {
    assert_eq!(
        (
            wee::shorten::inbound::rest::error::NOT_FOUND,
            wee::shorten::inbound::rest::error::BAD_REQUEST,
            wee::shorten::inbound::rest::error::INTERNAL_SERVER_ERROR
        ),
        (404, 400, 500)
    );
    assert_eq!(ShortenApiError::NotFound.into_response(), (404, "Not Found".to_string()));
    assert_eq!(ShortenApiError::BadRequest.into_response(), (400, "Bad Request".to_string()));
    assert_eq!(
        ShortenApiError::ValidationError("Field: url, Error: invalid".to_string()).into_response(),
        (400, "Field: url, Error: invalid".to_string())
    );
    assert_eq!(ShortenApiError::ValidationError(String::new()).into_response(), (400, String::new()));
}

#[test]
fn redirect_answers_not_found() {
    assert_eq!(
        RedirectApiError::RedirectServiceError(RedirectServiceError::UrlNotFound("zzz".to_string())).into_response(),
        (404, "Url Not Found: zzz".to_string())
    );
    assert_eq!(
        RedirectApiError::RedirectServiceError(RedirectServiceError::UrlRepoError(UrlRepoError::Get(
            GetUrlError::NotFound
        )))
        .into_response(),
        (404, "Get URL error: URL not found".to_string())
    );
}

#[test]
fn redirect_answers_everything_else_with_a_server_error() {
    assert_eq!(
        (
            wee::redirect::inbound::rest::error::NOT_FOUND,
            wee::redirect::inbound::rest::error::INTERNAL_SERVER_ERROR
        ),
        (404, 500)
    );
    assert_eq!(
        RedirectApiError::RedirectServiceError(RedirectServiceError::UrlRepoError(UrlRepoError::Get(
            GetUrlError::ClientError("down".to_string())
        )))
        .into_response(),
        (500, "Get URL error: Client Error: down".to_string())
    );
    assert_eq!(
        RedirectApiError::RedirectServiceError(RedirectServiceError::UrlRepoError(UrlRepoError::Insert(
            InsertUrlError::AlreadyExists
        )))
        .into_response(),
        (500, "Insert URL error: URL already exists".to_string())
    );
    assert_eq!(
        RedirectApiError::RedirectServiceError(RedirectServiceError::CacheError(
            RedisRedirectServiceCacheError::RedisClientError("down".to_string())
        ))
        .into_response(),
        (500, "Cache Error: Redis Client Error: down".to_string())
    );
    assert_eq!(
        RedirectApiError::RedirectServiceError(RedirectServiceError::CacheError(
            RedisRedirectServiceCacheError::InternalError("bad json".to_string())
        ))
        .into_response(),
        (500, "Cache Error: Internal Error: bad json".to_string())
    );
}

#[test]
fn what_counts_as_not_found_for_a_redirect() {
    assert!(RedirectServiceError::UrlNotFound("x".to_string()).not_found());
    assert!(RedirectServiceError::UrlRepoError(UrlRepoError::Get(GetUrlError::NotFound)).not_found());
    assert!(!RedirectServiceError::UrlRepoError(UrlRepoError::Get(GetUrlError::InternalError(
        "x".to_string()
    )))
    .not_found());
    assert!(!RedirectServiceError::CacheError(RedisRedirectServiceCacheError::RedisClientError(
        "x".to_string()
    ))
    .not_found());
    assert_eq!(
        RedirectServiceError::UrlRepoError(UrlRepoError::Get(GetUrlError::NotFound)).message(),
        "Url Repo Error: Get URL error: URL not found"
    );
}
