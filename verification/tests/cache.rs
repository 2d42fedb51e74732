use gitpulse::cache::{
    check_cache, clear_cache, get_cache_path, CacheAge, CacheCheck, CacheProbe, ClearAction,
    ClearEvent, CACHE_DIR, CACHE_TTL_SECS, CLEARED,
};

fn aged(secs: u64, nanos: u32) -> CacheProbe {
    CacheProbe::Found { age: Some(CacheAge { secs, nanos }) }
}

fn asks_to_locate(state: &gitpulse::cache::ClearState) -> bool {
    matches!(state.action(), ClearAction::Locate { dir } if dir == "cache")
}

fn asks_to_remove(state: &gitpulse::cache::ClearState) -> bool {
    matches!(state.action(), ClearAction::RemoveDir { dir } if dir == "cache")
}

fn asks_to_create(state: &gitpulse::cache::ClearState) -> bool {
    matches!(state.action(), ClearAction::CreateDir { dir } if dir == "cache")
}

fn finished(state: &gitpulse::cache::ClearState) -> Result<String, String> {
    match state.action() {
        ClearAction::Finish(outcome) => outcome,
        other => panic!("the end of the clearing was expected, not {:?}", other),
    }
}

#[test]
fn cache_path_embeds_the_username() {
    let path = get_cache_path("octocat");
    assert_eq!(path.dir, "cache");
    assert_eq!(path.file, "octocat_contributions.json");
    assert_eq!(CACHE_DIR, "cache");
}

#[test]
fn cache_paths_of_two_users_differ() {
    assert_ne!(get_cache_path("alice").file, get_cache_path("bob").file);
    assert_eq!(get_cache_path("").file, "_contributions.json");
}

#[test]
fn time_to_live_is_five_minutes() {
    assert_eq!(CACHE_TTL_SECS, 300);
}

#[test]
fn verdict_on_each_probe() {
    assert_eq!(check_cache(CacheProbe::Missing), CacheCheck::StaleOrAbsent);
    assert_eq!(check_cache(CacheProbe::Unreadable), CacheCheck::Error);
    assert_eq!(check_cache(CacheProbe::Found { age: None }), CacheCheck::Fresh);
    assert_eq!(check_cache(aged(0, 0)), CacheCheck::Fresh);
    assert_eq!(check_cache(aged(299, 999_999_999)), CacheCheck::Fresh);
    assert_eq!(check_cache(aged(300, 0)), CacheCheck::Fresh);
    assert_eq!(check_cache(aged(300, 1)), CacheCheck::StaleOrAbsent);
    assert_eq!(check_cache(aged(300, 500_000_000)), CacheCheck::StaleOrAbsent);
    assert_eq!(check_cache(aged(301, 0)), CacheCheck::StaleOrAbsent);
    assert_eq!(check_cache(aged(u64::MAX, u32::MAX)), CacheCheck::StaleOrAbsent);
}

#[test]
fn age_is_counted_in_nanoseconds_whatever_the_split() {
    assert_eq!(check_cache(aged(299, 1_000_000_000)), CacheCheck::Fresh);
    assert_eq!(check_cache(aged(299, 1_000_000_001)), CacheCheck::StaleOrAbsent);
    assert_eq!(check_cache(aged(298, 2_000_000_000)), CacheCheck::Fresh);
}

#[test]
fn clearing_an_existing_cache_removes_and_recreates_it() {
    let state = clear_cache();
    assert!(asks_to_locate(&state));
    let state = state.step(ClearEvent::Located { exists: true });
    assert!(asks_to_remove(&state));
    let state = state.step(ClearEvent::Done);
    assert!(asks_to_create(&state));
    let state = state.step(ClearEvent::Done);
    assert_eq!(finished(&state), Ok("Cache cleared successfully".to_string()));
    assert_eq!(CLEARED, "Cache cleared successfully");
}

#[test]
fn clearing_where_there_is_no_cache_creates_the_directory() {
    let state = clear_cache().step(ClearEvent::Located { exists: false });
    assert!(asks_to_create(&state));
    let state = state.step(ClearEvent::Done);
    assert_eq!(finished(&state), Ok("Cache cleared successfully".to_string()));
}

#[test]
fn clearing_twice_creates_the_directory_both_times() {
    for exists in [false, true] {
        let mut state = clear_cache().step(ClearEvent::Located { exists });
        if exists {
            assert!(asks_to_remove(&state));
            state = state.step(ClearEvent::Done);
        }
        assert!(asks_to_create(&state));
        let state = state.step(ClearEvent::Done);
        assert_eq!(finished(&state), Ok("Cache cleared successfully".to_string()));
    }
}

#[test]
fn clearing_fails_when_the_data_directory_is_unknown() {
    let state = clear_cache().step(ClearEvent::Unresolved("unknown path".to_string()));
    assert_eq!(finished(&state), Err("Failed to get app data dir: unknown path".to_string()));
}

#[test]
fn clearing_fails_when_removal_fails() {
    let state = clear_cache()
        .step(ClearEvent::Located { exists: true })
        .step(ClearEvent::Failed("Permission denied (os error 13)".to_string()));
    assert_eq!(finished(&state), Err("Permission denied (os error 13)".to_string()));
}

#[test]
fn clearing_fails_when_creation_fails() {
    let state = clear_cache()
        .step(ClearEvent::Located { exists: true })
        .step(ClearEvent::Done)
        .step(ClearEvent::Failed("Read-only file system (os error 30)".to_string()));
    assert_eq!(finished(&state), Err("Read-only file system (os error 30)".to_string()));
    let state = clear_cache()
        .step(ClearEvent::Located { exists: false })
        .step(ClearEvent::Failed("Read-only file system (os error 30)".to_string()));
    assert_eq!(finished(&state), Err("Read-only file system (os error 30)".to_string()));
}

#[test]
fn clearing_ignores_events_that_answer_nothing() {
    let state = clear_cache().step(ClearEvent::Done);
    assert!(asks_to_locate(&state));
    let state = state.step(ClearEvent::Located { exists: true }).step(ClearEvent::Located { exists: false });
    assert!(asks_to_remove(&state));
    let state = state.step(ClearEvent::Done).step(ClearEvent::Done).step(ClearEvent::Failed("late".to_string()));
    assert_eq!(finished(&state), Ok("Cache cleared successfully".to_string()));
}
