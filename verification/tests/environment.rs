use occ_sandbox::environment::{
    AsyncOpAction, AsyncOpRequest, EnvironmentError, FullModuleSource, TestEnvironment,
    TIMEOUT_SECS,
};
use occ_sandbox::rng::DeterministicRng;
use occ_sandbox::resolvers::ResolverTable;
use occ_sandbox::timers::{Timer, TimerSet};
use rand_chacha::rand_core::{Rng, SeedableRng};
use rand_chacha::ChaCha12Rng;

fn bundle() -> FullModuleSource {
    FullModuleSource {
        source: "export default 1;".to_string(),
        source_map: Some("{\"version\":3}".to_string()),
    }
}

fn environment(now: u64) -> TestEnvironment<&'static str> {
    TestEnvironment::new(now, bundle())
}

#[test]
fn test_new_environment() {
    let env = environment(1_000);
    assert_eq!(env.unix_timestamp(), 1_000);
    assert_eq!(env.next_timer_id, 0);
    assert_eq!(env.timers.len(), 0);
    assert_eq!(env.timer_resolvers.len(), 0);
    assert_eq!(env.rng.seed, [0u8; 32]);
    assert_eq!(env.rng.word_pos, 0);
}

#[test]
fn test_lookup_source() {
    let env = environment(0);
    let found = env.lookup_source("test.js").unwrap();
    assert_eq!(found.source, "export default 1;");
    assert_eq!(found.source_map, Some("{\"version\":3}".to_string()));
    assert!(env.lookup_source("other.js").is_none());
    assert!(env.lookup_source("").is_none());
    assert!(env.lookup_source("test.js ").is_none());
}

#[test]
fn test_lookup_source_without_source_map() {
    let env: TestEnvironment<u8> = TestEnvironment::new(
        0,
        FullModuleSource { source: "x".to_string(), source_map: None },
    );
    let found = env.lookup_source("test.js").unwrap();
    assert_eq!(found.source, "x");
    assert_eq!(found.source_map, None);
}

#[test]
fn test_no_environment_variable_is_set() {
    let env = environment(0);
    assert_eq!(env.get_environment_variable("HOME"), None);
    assert_eq!(env.get_environment_variable(""), None);
}

#[test]
fn test_timeouts_are_one_day() {
    let env = environment(0);
    assert_eq!(TIMEOUT_SECS, 60 * 60 * 24);
    assert_eq!(env.user_timeout(), 86_400);
    assert_eq!(env.system_timeout(), 86_400);
}

#[test]
fn test_sleep_gets_next_id_and_remaining_time() {
    let mut env = environment(1_000);
    let first = env.start_async_op(AsyncOpRequest::Sleep { until: 1_500 }, "a");
    assert_eq!(first, AsyncOpAction::Sleep { id: 0, duration: 500 });
    let second = env.start_async_op(AsyncOpRequest::Sleep { until: 1_001 }, "b");
    assert_eq!(second, AsyncOpAction::Sleep { id: 1, duration: 1 });
    assert_eq!(env.next_timer_id, 2);
    assert_eq!(env.timers.len(), 2);
    assert_eq!(
        env.timers.entries,
        vec![Timer { id: 0, wake_at: 1_500 }, Timer { id: 1, wake_at: 1_001 }]
    );
    assert_eq!(env.timer_resolvers.handles.get(&0), Some(&"a"));
    assert_eq!(env.timer_resolvers.handles.get(&1), Some(&"b"));
    assert_eq!(env.unix_timestamp(), 1_000);
}

#[test]
fn test_sleep_until_the_past_is_clamped_to_zero() {
    let mut env = environment(1_000);
    let past = env.start_async_op(AsyncOpRequest::Sleep { until: 10 }, "a");
    assert_eq!(past, AsyncOpAction::Sleep { id: 0, duration: 0 });
    let now = env.start_async_op(AsyncOpRequest::Sleep { until: 1_000 }, "b");
    assert_eq!(now, AsyncOpAction::Sleep { id: 1, duration: 0 });
    assert_eq!(env.timers.entries[0].wake_at, 1_000);
    let far = env.start_async_op(AsyncOpRequest::Sleep { until: u64::MAX }, "c");
    assert_eq!(far, AsyncOpAction::Sleep { id: 2, duration: u64::MAX - 1_000 });
}

#[test]
fn test_unknown_operation_is_dropped() {
    let mut env = environment(1_000);
    assert_eq!(env.start_async_op(AsyncOpRequest::Other, "a"), AsyncOpAction::Ignore);
    assert_eq!(env.next_timer_id, 0);
    assert_eq!(env.timers.len(), 0);
    assert_eq!(env.timer_resolvers.len(), 0);
    assert!(env.next_timer().is_none());
}

#[test]
fn test_completions_come_in_completion_order() {
    let mut env = environment(1_000);
    env.start_async_op(AsyncOpRequest::Sleep { until: 9_000 }, "long");
    env.start_async_op(AsyncOpRequest::Sleep { until: 2_000 }, "short");
    env.start_async_op(AsyncOpRequest::Sleep { until: 2_000 }, "short too");
    env.start_async_op(AsyncOpRequest::Sleep { until: 500 }, "past");
    assert_eq!(env.next_timer(), Some(Ok((3, "past"))));
    assert_eq!(env.unix_timestamp(), 1_000);
    assert_eq!(env.next_timer(), Some(Ok((1, "short"))));
    assert_eq!(env.unix_timestamp(), 2_000);
    assert_eq!(env.next_timer(), Some(Ok((2, "short too"))));
    assert_eq!(env.next_timer(), Some(Ok((0, "long"))));
    assert_eq!(env.unix_timestamp(), 9_000);
    assert_eq!(env.next_timer(), None);
    assert_eq!(env.unix_timestamp(), 9_000);
}

#[test]
fn test_complete_timer() {
    let mut env = environment(1_000);
    env.start_async_op(AsyncOpRequest::Sleep { until: 3_000 }, "a");
    env.start_async_op(AsyncOpRequest::Sleep { until: 2_000 }, "b");
    assert_eq!(env.complete_timer(0), Ok("a"));
    assert_eq!(env.unix_timestamp(), 3_000);
    assert_eq!(env.complete_timer(1), Ok("b"));
    assert_eq!(env.unix_timestamp(), 3_000);
    assert_eq!(env.timers.len(), 0);
    assert_eq!(env.timer_resolvers.len(), 0);
}

#[test]
fn test_completion_of_unknown_operation_is_an_error() {
    let mut env = environment(1_000);
    assert_eq!(env.complete_timer(0), Err(EnvironmentError::ResolverNotFound));
    env.start_async_op(AsyncOpRequest::Sleep { until: 3_000 }, "a");
    assert_eq!(env.complete_timer(1), Err(EnvironmentError::ResolverNotFound));
    assert_eq!(env.timers.len(), 1);
    assert_eq!(env.unix_timestamp(), 1_000);
    assert_eq!(env.complete_timer(0), Ok("a"));
    assert_eq!(env.complete_timer(0), Err(EnvironmentError::ResolverNotFound));
}

#[test]
fn test_cancel_all_suppresses_completions() {
    let mut env = environment(1_000);
    env.start_async_op(AsyncOpRequest::Sleep { until: 3_000 }, "a");
    env.start_async_op(AsyncOpRequest::Sleep { until: 2_000 }, "b");
    assert_eq!(env.cancel_all(), 2);
    assert_eq!(env.timer_resolvers.len(), 0);
    assert_eq!(env.next_timer(), None);
    assert_eq!(env.complete_timer(0), Err(EnvironmentError::ResolverNotFound));
    assert_eq!(env.next_timer_id, 2);
    assert_eq!(env.unix_timestamp(), 1_000);
    assert_eq!(env.cancel_all(), 0);
}

#[test]
fn test_wait_without_a_handle_is_an_error() {
    let mut env = environment(1_000);
    env.start_async_op(AsyncOpRequest::Sleep { until: 3_000 }, "a");
    env.start_async_op(AsyncOpRequest::Sleep { until: 2_000 }, "b");
    assert_eq!(env.timer_resolvers.remove(1), Some("b"));
    assert_eq!(env.next_timer(), Some(Err(EnvironmentError::ResolverNotFound)));
    assert_eq!(env.timers.entries, vec![Timer { id: 0, wake_at: 3_000 }]);
    assert_eq!(env.unix_timestamp(), 2_000);
    assert_eq!(env.next_timer(), Some(Ok((0, "a"))));
    assert_eq!(env.next_timer(), None);
}

#[test]
fn test_timer_set() {
    let mut set = TimerSet::new();
    assert_eq!(set.earliest(), None);
    assert_eq!(set.find(3), None);
    set.spawn(3, 50);
    set.spawn(5, 20);
    set.spawn(4, 20);
    assert_eq!(set.len(), 3);
    assert_eq!(set.find(5), Some(1));
    assert_eq!(set.find(6), None);
    assert_eq!(set.earliest(), Some(2));
    assert_eq!(set.remove(6), None);
    assert_eq!(set.remove(4), Some(Timer { id: 4, wake_at: 20 }));
    assert_eq!(set.earliest(), Some(1));
    assert_eq!(set.entries, vec![Timer { id: 3, wake_at: 50 }, Timer { id: 5, wake_at: 20 }]);
}

#[test]
fn test_resolver_table() {
    let mut table: ResolverTable<&str> = ResolverTable::new();
    assert_eq!(table.len(), 0);
    assert_eq!(table.insert(2, "two"), None);
    assert_eq!(table.insert(1, "one"), None);
    assert_eq!(table.insert(2, "deux"), Some("two"));
    assert_eq!(table.len(), 2);
    assert_eq!(table.remove(3), None);
    assert_eq!(table.remove(2), Some("deux"));
    assert_eq!(table.remove(2), None);
    assert_eq!(table.len(), 1);
    table.clear();
    assert_eq!(table.len(), 0);
    assert_eq!(table.remove(1), None);
}

#[test]
fn test_random_words_follow_the_generator() {
    let mut env = environment(0);
    let mut reference = ChaCha12Rng::from_seed([0u8; 32]);
    for _ in 0..200 {
        assert_eq!(env.random_u32(), reference.next_u32());
    }
    assert_eq!(env.rng.word_pos, 200);
}

#[test]
fn test_same_seed_same_sequence() {
    let mut seed = [0u8; 32];
    seed[0] = 7;
    seed[31] = 9;
    let mut a = DeterministicRng::from_seed(seed);
    let mut b = DeterministicRng::from_seed(seed);
    let mut reference = ChaCha12Rng::from_seed(seed);
    let mut words = Vec::new();
    for _ in 0..40 {
        let word = a.next_u32();
        assert_eq!(word, b.next_u32());
        assert_eq!(word, reference.next_u32());
        words.push(word);
    }
    assert_ne!(words[0], words[1]);
    let mut replay = DeterministicRng { seed, word_pos: 17 };
    assert_eq!(replay.next_u32(), words[17]);
    assert_eq!(replay.word_pos, 18);
    let mut other = DeterministicRng::from_seed([1u8; 32]);
    assert_ne!(other.next_u32(), words[0]);
}

#[test]
fn test_random_source_wraps_at_the_end_of_its_offsets() {
    let mut rng = DeterministicRng { seed: [3u8; 32], word_pos: u64::MAX };
    let mut reference = ChaCha12Rng::from_seed([3u8; 32]);
    reference.set_word_pos(u64::MAX as u128);
    assert_eq!(rng.next_u32(), reference.next_u32());
    assert_eq!(rng.word_pos, 0);
}

#[test]
fn test_replay_issues_the_same_operations() {
    let requests = [1_500u64, 20, 7_000, 1_000];
    let mut runs = Vec::new();
    for _ in 0..2 {
        let mut env = environment(1_000);
        let mut issued = Vec::new();
        for until in requests {
            issued.push(env.start_async_op(AsyncOpRequest::Sleep { until }, "r"));
            issued.push(env.start_async_op(AsyncOpRequest::Other, "r"));
        }
        let word = env.random_u32();
        let mut delivered = Vec::new();
        while let Some(done) = env.next_timer() {
            delivered.push(done.unwrap().0);
        }
        runs.push((issued, word, delivered));
    }
    assert_eq!(runs[0], runs[1]);
    assert_eq!(runs[0].2, vec![1, 3, 0, 2]);
}
