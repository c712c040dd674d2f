use wgpu_stage::discovery::ContextToken;
use wgpu_stage::discovery::DiscoverySource;
use wgpu_stage::discovery::StageEnv;
use wgpu_stage::discovery::StageState;
use wgpu_stage::discovery::map_context_token;
use wgpu_stage::discovery::wgpu_context_type_tag;

fn tag() -> String {
    wgpu_context_type_tag()
}

#[test]
fn neighbor_context_is_adopted_reference_identically() {
    // Stage A already holds a context; stage B, freshly started and
    // connected to A, must succeed via the neighbor-query path and end up
    // with the identical embedded context.
    let mut stage_a = StageState::new();
    stage_a.set_wgpu_context(ContextToken::new(tag(), 7));
    let a_id = stage_a.token.as_ref().unwrap().ctx_id;

    let mut stage_b = StageState::new();
    let env_b = StageEnv {
        downstream: vec![Some(ContextToken::new(tag(), a_id))],
        upstream: vec![],
        broadcast: None,
    };
    let source = stage_b.discover(&env_b, &tag(), 99);
    assert!(matches!(source, DiscoverySource::Downstream));
    assert_eq!(stage_b.token.as_ref().unwrap().ctx_id, a_id);
    assert_eq!(stage_b.token.as_ref().unwrap().context_type, tag());
}

#[test]
fn isolated_stage_falls_through_to_self_creation() {
    // No neighbors, no externally supplied context: discovery falls
    // through to self-creation and still yields a usable token.
    let mut stage = StageState::new();
    let env = StageEnv { downstream: vec![], upstream: vec![], broadcast: None };
    let source = stage.discover(&env, &tag(), 42);
    assert!(matches!(source, DiscoverySource::SelfCreated));
    assert_eq!(stage.token.as_ref().unwrap().ctx_id, 42);
}

#[test]
fn mismatched_token_type_is_ignored() {
    let mut stage = StageState::new();
    let env = StageEnv {
        downstream: vec![Some(ContextToken::new("rust.glow.Context".to_owned(), 5))],
        upstream: vec![],
        broadcast: Some(ContextToken::new("other.Context".to_owned(), 6)),
    };
    let source = stage.discover(&env, &tag(), 42);
    assert!(matches!(source, DiscoverySource::SelfCreated));
    assert_eq!(stage.token.as_ref().unwrap().ctx_id, 42);
}

#[test]
fn local_token_wins() {
    let mut stage = StageState::new();
    stage.set_wgpu_context(ContextToken::new(tag(), 1));
    let env = StageEnv {
        downstream: vec![Some(ContextToken::new(tag(), 2))],
        upstream: vec![Some(ContextToken::new(tag(), 3))],
        broadcast: Some(ContextToken::new(tag(), 4)),
    };
    let source = stage.discover(&env, &tag(), 99);
    assert!(matches!(source, DiscoverySource::Local));
    assert_eq!(stage.token.as_ref().unwrap().ctx_id, 1);
}

#[test]
fn first_matching_neighbor_wins_and_failures_are_skipped() {
    // One neighbor fails the query, one declines with a mismatched type;
    // the next matching neighbor is adopted, downstream before upstream.
    let mut stage = StageState::new();
    let env = StageEnv {
        downstream: vec![
            None,
            Some(ContextToken::new("rust.glow.Context".to_owned(), 2)),
            Some(ContextToken::new(tag(), 3)),
            Some(ContextToken::new(tag(), 4)),
        ],
        upstream: vec![Some(ContextToken::new(tag(), 5))],
        broadcast: None,
    };
    let source = stage.discover(&env, &tag(), 99);
    assert!(matches!(source, DiscoverySource::Downstream));
    assert_eq!(stage.token.as_ref().unwrap().ctx_id, 3);
}

#[test]
fn upstream_is_tried_after_downstream_and_broadcast_after_neighbors() {
    let mut stage = StageState::new();
    let env = StageEnv {
        downstream: vec![None],
        upstream: vec![Some(ContextToken::new(tag(), 11))],
        broadcast: Some(ContextToken::new(tag(), 12)),
    };
    let source = stage.discover(&env, &tag(), 99);
    assert!(matches!(source, DiscoverySource::Upstream));
    assert_eq!(stage.token.as_ref().unwrap().ctx_id, 11);

    let mut stage2 = StageState::new();
    let env2 = StageEnv {
        downstream: vec![None],
        upstream: vec![None],
        broadcast: Some(ContextToken::new(tag(), 12)),
    };
    let source2 = stage2.discover(&env2, &tag(), 99);
    assert!(matches!(source2, DiscoverySource::Broadcast));
    assert_eq!(stage2.token.as_ref().unwrap().ctx_id, 12);
}

#[test]
fn map_context_token_checks_the_type_tag() {
    let t = ContextToken::new(tag(), 8);
    assert_eq!(map_context_token(&t, &tag()), Some(8));
    let other = ContextToken::new("rust.glow.Context".to_owned(), 8);
    assert_eq!(map_context_token(&other, &tag()), None);
}

#[test]
fn first_adopted_context_sticks() {
    let mut stage = StageState::new();
    assert!(!stage.check_context_exists());
    stage.set_context(ContextToken::new("other.Context".to_owned(), 1), &tag());
    assert!(!stage.check_context_exists());
    stage.set_context(ContextToken::new(tag(), 2), &tag());
    assert!(stage.check_context_exists());
    stage.set_context(ContextToken::new(tag(), 3), &tag());
    assert_eq!(stage.token.as_ref().unwrap().ctx_id, 2);
}
