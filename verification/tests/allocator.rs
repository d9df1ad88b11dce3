use wee::shorten::outbound::zookeeper::id_generator::{
    CreateError, PathAnswer, PathStep, ShardInfo, ZooKeeperIdGenerator, ZooKeeperIdGeneratorConfig,
    ZooKeeperIdGeneratorError,
};
use wee::shorten::services::shorten_service::error::ShortenServiceError;

fn shard(base_path: &str, id: usize, start: usize, end: usize) -> ShardInfo {
    ShardInfo { base_path: base_path.to_string(), id, start, end }
}

fn generator(start: usize, end: usize) -> ZooKeeperIdGenerator {
    ZooKeeperIdGenerator::new(ZooKeeperIdGeneratorConfig { shard_info: shard("wee", 0, start, end) })
}

/// The name that the coordination service gives the node with sequence
/// number `seq` under `path`: ten digits, padded with zeros.
fn sequential(path: &str, seq: u64) -> Result<String, ZooKeeperIdGeneratorError> {
    Ok(format!("{path}{seq:010}"))
}

fn exhausted() -> ShortenServiceError {
    ShortenServiceError::IdGeneratorError(ZooKeeperIdGeneratorError::RangeExhausted)
}

#[test]
fn id_path_names_the_shard() {
    assert_eq!(shard("wee", 0, 0, 1000).id_path(), "/wee/shard-0-0-1000/");
    assert_eq!(shard("wee-test", 3, 3000, 3999).id_path(), "/wee-test/shard-3-3000-3999/");
    assert_eq!(shard("a/b", 12, 100, 102).id_path(), "/a/b/shard-12-100-102/");
    assert_eq!(shard("", 0, 0, 0).id_path(), "//shard-0-0-0/");
}

#[test]
fn test_generate_id() {
    let mut zk = generator(0, 1000);
    let path = zk.next_node().unwrap();
    assert_eq!(path, "/wee/shard-0-0-1000/");
    let id = zk.generate_id(sequential(&path, 0)).unwrap();
    assert_eq!(id.parse::<i64>().unwrap(), 0);
}

#[test]
fn three_identifiers_then_the_range_is_used_up() {
    let mut zk = generator(100, 102);
    let path = zk.next_node().unwrap();
    assert_eq!(zk.generate_id(sequential(&path, 0)), Ok("100".to_string()));
    assert_eq!(zk.generate_id(sequential(&path, 1)), Ok("101".to_string()));
    assert_eq!(zk.generate_id(sequential(&path, 2)), Ok("102".to_string()));
    assert!(!zk.exhausted);
    assert_eq!(zk.generate_id(sequential(&path, 3)), Err(exhausted()));
    assert!(zk.exhausted);
}

#[test]
fn a_used_up_allocator_hands_out_nothing_more() {
    let mut zk = generator(100, 102);
    let path = zk.next_node().unwrap();
    assert_eq!(zk.generate_id(sequential(&path, 3)), Err(exhausted()));
    assert_eq!(zk.next_node(), None);
    assert_eq!(zk.generate_id(sequential(&path, 0)), Err(exhausted()));
    assert_eq!(zk.generate_id(sequential(&path, 1)), Err(exhausted()));
    assert_eq!(
        zk.generate_id(Err(ZooKeeperIdGeneratorError::ClientError("down".to_string()))),
        Err(exhausted())
    );
    assert!(zk.exhausted);
}

#[test]
fn an_allocator_that_is_told_the_range_is_used_up_stays_so() {
    let mut zk = generator(100, 102);
    assert_eq!(zk.generate_id(Err(ZooKeeperIdGeneratorError::RangeExhausted)), Err(exhausted()));
    assert!(zk.exhausted);
    assert_eq!(zk.next_node(), None);
    assert_eq!(zk.generate_id(Ok("/wee/shard-0-100-102/0000000000".to_string())), Err(exhausted()));
}

#[test]
fn identifier_is_start_plus_sequence_number() {
    let mut zk = generator(5000, 5999);
    assert_eq!(zk.generate_id(Ok("/wee/shard-0-5000-5999/0000000000".to_string())), Ok("5000".to_string()));
    assert_eq!(zk.generate_id(Ok("/wee/shard-0-5000-5999/0000000042".to_string())), Ok("5042".to_string()));
    assert_eq!(zk.generate_id(Ok("/wee/shard-0-5000-5999/0000000999".to_string())), Ok("5999".to_string()));
    assert_eq!(zk.generate_id(Ok("0000000007".to_string())), Ok("5007".to_string()));
    assert_eq!(zk.generate_id(Ok("/wee/shard-0-5000-5999/0000001000".to_string())), Err(exhausted()));
}

#[test]
fn a_shard_of_one_identifier() {
    let mut zk = generator(7, 7);
    assert_eq!(zk.generate_id(Ok("/x/0000000000".to_string())), Ok("7".to_string()));
    assert_eq!(zk.generate_id(Ok("/x/0000000001".to_string())), Err(exhausted()));
}

#[test]
fn an_empty_shard_is_used_up_at_once() {
    let mut zk = generator(10, 9);
    assert_eq!(zk.generate_id(Ok("/x/0000000000".to_string())), Err(exhausted()));
    assert!(zk.exhausted);
}

#[test]
fn the_sum_may_not_wrap() {
    let mut zk = generator(usize::MAX - 1, usize::MAX);
    assert_eq!(zk.generate_id(Ok("/x/0000000001".to_string())), Ok(usize::MAX.to_string()));
    assert_eq!(zk.generate_id(Ok("/x/0000000002".to_string())), Err(exhausted()));
}

#[test]
fn a_name_without_a_sequence_number_is_an_internal_error() {
    let mut zk = generator(0, 1000);
    for (path, name) in [
        ("/wee/shard-0-0-1000/", ""),
        ("/wee/shard-0-0-1000/abc", "abc"),
        ("/wee/shard-0-0-1000/12x", "12x"),
        ("/wee/shard-0-0-1000", "shard-0-0-1000"),
        ("/wee/-5", "-5"),
        ("/wee/99999999999999999999999999", "99999999999999999999999999"),
    ] {
        assert_eq!(
            zk.generate_id(Ok(path.to_string())),
            Err(ShortenServiceError::IdGeneratorError(ZooKeeperIdGeneratorError::InternalError(
                name.to_string()
            ))),
            "{path}"
        );
        assert!(!zk.exhausted);
    }
    assert_eq!(zk.generate_id(Ok("/wee/shard-0-0-1000/0000000001".to_string())), Ok("1".to_string()));
}

#[test]
fn a_failure_of_the_coordination_service_is_passed_on() {
    let mut zk = generator(0, 1000);
    for e in [
        ZooKeeperIdGeneratorError::ClientError("connection lost".to_string()),
        ZooKeeperIdGeneratorError::CreateError(CreateError::NoNode),
        ZooKeeperIdGeneratorError::CreateError(CreateError::InvalidAcl),
        ZooKeeperIdGeneratorError::IdNotFound,
    ] {
        assert_eq!(zk.generate_id(Err(e.clone())), Err(ShortenServiceError::IdGeneratorError(e)));
        assert!(!zk.exhausted);
    }
}

#[test]
fn new_allocator_has_done_nothing() {
    let config = ZooKeeperIdGeneratorConfig { shard_info: shard("wee", 1, 10, 20) };
    let zk = ZooKeeperIdGenerator::new(config.clone());
    assert_eq!(zk.config, config);
    assert_eq!(zk.ensured, 0);
    assert!(!zk.exhausted);
    assert_eq!(zk.next_node(), Some("/wee/shard-1-10-20/".to_string()));
}

#[test]
fn the_path_is_made_from_the_root_down() {
    let mut zk = generator(0, 1000);
    assert_eq!(zk.ensure_shard_path_exist(PathAnswer::Begin), PathStep::Exists { path: "/wee".to_string() });
    assert_eq!(
        zk.ensure_shard_path_exist(PathAnswer::Exists(Ok(false))),
        PathStep::Create { path: "/wee".to_string() }
    );
    assert_eq!(
        zk.ensure_shard_path_exist(PathAnswer::Created(Ok(()))),
        PathStep::Exists { path: "/wee/shard-0-0-1000".to_string() }
    );
    assert_eq!(
        zk.ensure_shard_path_exist(PathAnswer::Exists(Ok(false))),
        PathStep::Create { path: "/wee/shard-0-0-1000".to_string() }
    );
    assert_eq!(zk.ensure_shard_path_exist(PathAnswer::Created(Ok(()))), PathStep::Ready);
    assert_eq!(zk.ensured, 2);
}

#[test]
fn nodes_that_exist_are_passed_over() {
    let mut zk = generator(0, 1000);
    assert_eq!(zk.ensure_shard_path_exist(PathAnswer::Begin), PathStep::Exists { path: "/wee".to_string() });
    assert_eq!(
        zk.ensure_shard_path_exist(PathAnswer::Exists(Ok(true))),
        PathStep::Exists { path: "/wee/shard-0-0-1000".to_string() }
    );
    assert_eq!(zk.ensure_shard_path_exist(PathAnswer::Exists(Ok(true))), PathStep::Ready);
}

#[test]
fn a_node_that_another_instance_made_counts_as_made() {
    let mut zk = generator(0, 1000);
    zk.ensure_shard_path_exist(PathAnswer::Begin);
    zk.ensure_shard_path_exist(PathAnswer::Exists(Ok(false)));
    let raced = PathAnswer::Created(Err(ZooKeeperIdGeneratorError::CreateError(CreateError::NodeExists)));
    assert_eq!(
        zk.ensure_shard_path_exist(raced),
        PathStep::Exists { path: "/wee/shard-0-0-1000".to_string() }
    );
}

#[test]
fn any_other_refusal_ends_the_setup() {
    for refusal in [
        ZooKeeperIdGeneratorError::CreateError(CreateError::NoNode),
        ZooKeeperIdGeneratorError::CreateError(CreateError::NoChildrenForEphemerals),
        ZooKeeperIdGeneratorError::CreateError(CreateError::InvalidAcl),
        ZooKeeperIdGeneratorError::ClientError("timeout".to_string()),
    ] {
        let mut zk = generator(0, 1000);
        zk.ensure_shard_path_exist(PathAnswer::Begin);
        zk.ensure_shard_path_exist(PathAnswer::Exists(Ok(false)));
        assert_eq!(
            zk.ensure_shard_path_exist(PathAnswer::Created(Err(refusal.clone()))),
            PathStep::Failed(refusal)
        );
    }
    let mut zk = generator(0, 1000);
    zk.ensure_shard_path_exist(PathAnswer::Begin);
    let down = ZooKeeperIdGeneratorError::ClientError("down".to_string());
    assert_eq!(zk.ensure_shard_path_exist(PathAnswer::Exists(Err(down.clone()))), PathStep::Failed(down));
}

#[test]
fn a_base_path_of_several_nodes() {
    let mut zk = ZooKeeperIdGenerator::new(ZooKeeperIdGeneratorConfig {
        shard_info: shard("org/wee", 2, 10, 19),
    });
    let mut asked = Vec::new();
    let mut step = zk.ensure_shard_path_exist(PathAnswer::Begin);
    loop {
        match step {
            PathStep::Exists { path } => {
                asked.push(path);
                step = zk.ensure_shard_path_exist(PathAnswer::Exists(Ok(true)));
            }
            PathStep::Ready => break,
            other => panic!("{other:?}"),
        }
    }
    assert_eq!(asked, vec!["/org", "/org/wee", "/org/wee/shard-2-10-19"]);
}

#[test]
fn setup_leaves_the_allocation_alone() {
    let mut zk = generator(100, 102);
    zk.ensure_shard_path_exist(PathAnswer::Begin);
    zk.ensure_shard_path_exist(PathAnswer::Exists(Ok(true)));
    assert!(!zk.exhausted);
    assert_eq!(zk.generate_id(Ok("/wee/shard-0-100-102/0000000000".to_string())), Ok("100".to_string()));
    assert_eq!(zk.ensured, 1);
}

#[test]
fn messages_of_the_allocator() {
    assert_eq!(
        ZooKeeperIdGeneratorError::ClientError("lost".to_string()).message(),
        "ZooKeeperIdGenerator Client Error: lost"
    );
    assert_eq!(
        ZooKeeperIdGeneratorError::CreateError(CreateError::NodeExists).message(),
        "ZooKeeperIdGenerator Create Error: target node already exists"
    );
    assert_eq!(CreateError::NoNode.message(), "parent node of target does not exist");
    assert_eq!(
        CreateError::NoChildrenForEphemerals.message(),
        "parent node is ephemeral, and cannot have children"
    );
    assert_eq!(CreateError::InvalidAcl.message(), "the given ACL is invalid");
    assert_eq!(ZooKeeperIdGeneratorError::IdNotFound.message(), "Id Not Found");
    assert_eq!(ZooKeeperIdGeneratorError::InternalError("x".to_string()).message(), "Internal Error: x");
    assert_eq!(
        ZooKeeperIdGeneratorError::RangeExhausted.message(),
        "Global ID is greater than the end of the shard"
    );
}
