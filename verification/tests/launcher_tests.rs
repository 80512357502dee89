use launcher::cache::{cached_path, ArtifactStore, OWNER_RWX};
use launcher::config::{child_args, child_env_entry};
use launcher::errors::LaunchError;
use launcher::fingerprint::fingerprint;
use launcher::resolver::{resolve_location, ResolveError};
use launcher::supervisor::{step, SupervisorAction, SupervisorEvent, SupervisorState};
use launcher::urls::{build_download_url, find_binary_root, latest_release_endpoint, rewrite_tag_segments};

#[test]
fn download_url_construction() {
    let url = build_download_url("https://host/releases/tag/v1.2.3", "server-x86_64");
    assert_eq!(url, "https://host/releases/download/v1.2.3/server-x86_64");
}

#[test]
fn rewrite_matches_std_replace() {
    let cases = [
        "",
        "tag",
        "tagtag",
        "ttag",
        "ta",
        "xtagy",
        "tagta",
        "downloadtag",
        "https://host/releases/tag/v1.2.3/server-x86_64",
        "no pattern here",
        "täg ütag",
        "тtagг",
        "tatagg",
    ];
    for s in cases {
        assert_eq!(rewrite_tag_segments(s), s.replace("tag", "download"), "input: {s:?}");
    }
}

#[test]
fn latest_endpoint_and_binary_root() {
    assert_eq!(latest_release_endpoint("https://host"), "https://host/releases/latest");
    assert_eq!(find_binary_root("/home/me/work"), "/home/me/work/bin");
}

#[test]
fn fingerprint_exact_values() {
    assert_eq!(
        fingerprint("https://host/releases/download/v1.2.3/server-x86_64"),
        "j3F7HX1Hk8VyiNt-_MorGA=="
    );
    assert_eq!(fingerprint(""), "1B2M2Y8AsgTpgAmY7PhCfg==");
}

#[test]
fn fingerprint_deterministic_and_distinct() {
    // A fixed linear-congruential generator supplies varied URL strings.
    let mut state: u64 = 0x2545F4914F6CDD1D;
    let mut urls = Vec::new();
    for i in 0..64 {
        let mut url = String::from("https://example.com/");
        for _ in 0..(4 + i % 11) {
            state = state.wrapping_mul(6364136223846793005).wrapping_add(1442695040888963407);
            let c = (b'a' + ((state >> 33) % 26) as u8) as char;
            url.push(c);
        }
        url.push_str(&format!("/{i}"));
        urls.push(url);
    }
    let prints: Vec<String> = urls.iter().map(|u| fingerprint(u)).collect();
    for (i, u) in urls.iter().enumerate() {
        assert_eq!(fingerprint(u), prints[i], "same URL must give the same fingerprint");
        for j in 0..i {
            assert_ne!(prints[i], prints[j], "distinct URLs {u:?} and {:?}", urls[j]);
        }
    }
}

#[test]
fn redirect_resolution() {
    let r = resolve_location(
        true,
        Some(String::from("https://host/releases/tag/v1.2.3")),
        String::from("https://host/releases/latest"),
    );
    assert_eq!(r, Ok(String::from("https://host/releases/tag/v1.2.3")));
}

#[test]
fn non_redirect_resolution() {
    let r = resolve_location(false, None, String::from("https://host/releases/latest"));
    assert_eq!(r, Ok(String::from("https://host/releases/latest")));
}

#[test]
fn redirect_without_location_is_protocol_error() {
    let r = resolve_location(true, None, String::from("https://host/releases/latest"));
    assert_eq!(r, Err(ResolveError::NoLocationHeader));
}

#[test]
fn redirect_with_malformed_location_is_protocol_error() {
    let r = resolve_location(
        true,
        Some(String::from("::no scheme at all::")),
        String::from("https://host/releases/latest"),
    );
    assert_eq!(r, Err(ResolveError::BadLocationUrl));
}

#[test]
fn redirect_location_is_normalized() {
    let r = resolve_location(
        true,
        Some(String::from("HTTPS://HOST/Releases/tag/v1.2.3")),
        String::from("https://host/releases/latest"),
    );
    assert_eq!(r, Ok(String::from("https://host/Releases/tag/v1.2.3")));
}

#[test]
fn cache_fetches_once_and_keeps_bytes() {
    let url = String::from("https://host/releases/download/v1.2.3/server-x86_64");
    let mut store = ArtifactStore::new(String::from("/work/bin"));

    assert!(store.needs_fetch(&url));
    let path1 = store.ensure(&url, Some(vec![7, 8, 9]));

    assert!(!store.needs_fetch(&url), "the second visit must not fetch");
    let path2 = store.ensure(&url, None);

    assert_eq!(path1, path2);
    assert_eq!(path1, format!("/work/bin/{}", fingerprint(&url)));
    assert_eq!(path1, cached_path("/work/bin", &url));
    let artifact = store.artifact(&url).expect("artifact must be cached");
    assert_eq!(artifact.contents, vec![7, 8, 9]);
}

#[test]
fn cache_permission_bits_become_owner_only() {
    let url = String::from("https://host/releases/download/v1.2.3/server-x86_64");
    let mut store = ArtifactStore::new(String::from("/work/bin"));

    // An artifact left by an earlier run, under loose permission bits.
    let added = store.record_existing(fingerprint(&url), vec![42], 0o644);
    assert!(added);
    assert_eq!(store.artifact(&url).unwrap().mode, 0o644);

    store.ensure(&url, None);
    let artifact = store.artifact(&url).unwrap();
    assert_eq!(artifact.mode, OWNER_RWX);
    assert_eq!(artifact.mode, 0o700);
    assert_eq!(artifact.contents, vec![42], "a cache hit must keep the bytes");
}

#[test]
fn cache_entries_are_independent() {
    let url_a = String::from("https://host/releases/download/v1.2.3/server-a");
    let url_b = String::from("https://host/releases/download/v1.2.3/server-b");
    let mut store = ArtifactStore::new(String::from("/work/bin"));

    store.ensure(&url_a, Some(vec![1]));
    store.ensure(&url_b, Some(vec![2]));

    assert_eq!(store.artifact(&url_a).unwrap().contents, vec![1]);
    assert_eq!(store.artifact(&url_b).unwrap().contents, vec![2]);
    assert_ne!(cached_path("/work/bin", &url_a), cached_path("/work/bin", &url_b));
}

#[test]
fn cache_ensure_checked_rejects_mismatched_bytes() {
    let url = String::from("https://host/releases/download/v1.2.3/server-x86_64");
    let mut store = ArtifactStore::new(String::from("/work/bin"));

    // Withholding bytes from an uncached URL is refused.
    assert_eq!(store.ensure_checked(&url, None), None);
    assert!(store.needs_fetch(&url), "the refused visit must change nothing");

    let path = store.ensure_checked(&url, Some(vec![5])).expect("matching bytes are accepted");
    assert_eq!(path, cached_path("/work/bin", &url));

    // Handing bytes in for a cached URL is refused too.
    assert_eq!(store.ensure_checked(&url, Some(vec![6])), None);
    assert_eq!(store.artifact(&url).unwrap().contents, vec![5]);
}

#[test]
fn shutdown_request_kills_running_child() {
    let (state, action) = step(SupervisorState::Running, SupervisorEvent::ShutdownRequested);
    assert_eq!(state, SupervisorState::Terminated);
    assert_eq!(action, SupervisorAction::KillChild);
}

#[test]
fn os_interrupt_kills_running_child() {
    let (state, action) = step(SupervisorState::Running, SupervisorEvent::OsInterrupt);
    assert_eq!(state, SupervisorState::Terminated);
    assert_eq!(action, SupervisorAction::KillChild);
}

#[test]
fn spawn_outcomes() {
    assert_eq!(
        step(SupervisorState::NotStarted, SupervisorEvent::SpawnSucceeded),
        (SupervisorState::Running, SupervisorAction::DoNothing)
    );
    assert_eq!(
        step(SupervisorState::NotStarted, SupervisorEvent::SpawnFailed),
        (SupervisorState::FailedToStart, SupervisorAction::DoNothing)
    );
}

#[test]
fn child_exit_terminates_without_kill() {
    assert_eq!(
        step(SupervisorState::Running, SupervisorEvent::ChildExited),
        (SupervisorState::Terminated, SupervisorAction::DoNothing)
    );
}

#[test]
fn terminal_states_ignore_signals() {
    for state in [
        SupervisorState::Terminated,
        SupervisorState::FailedToStart,
        SupervisorState::NotStarted,
    ] {
        for event in [SupervisorEvent::OsInterrupt, SupervisorEvent::ShutdownRequested] {
            assert_eq!(step(state, event), (state, SupervisorAction::DoNothing));
        }
    }
}

#[test]
fn child_environment_entry() {
    let (key, value) = child_env_entry(&Some(String::from("collector")));
    assert_eq!(key, "OTEL_RESOURCE_ATTRIBUTES");
    assert_eq!(value, "service.name=collector");

    let (_, empty) = child_env_entry(&None);
    assert_eq!(empty, "service.name=");
}

#[test]
fn child_argument_list() {
    assert_eq!(
        child_args(&Some(String::from("/etc/child.yaml"))),
        vec![String::from("--config"), String::from("/etc/child.yaml")]
    );
    assert_eq!(
        child_args(&None),
        vec![String::from("--config"), String::from("./config.yaml")]
    );
}

#[test]
fn error_descriptions() {
    assert_eq!(LaunchError::Config.describe(), "configuration error");
    assert_eq!(LaunchError::Network.describe(), "network error");
    assert_eq!(
        LaunchError::Protocol(ResolveError::NoLocationHeader).describe(),
        "protocol error"
    );
    assert_eq!(LaunchError::Filesystem.describe(), "filesystem error");
    assert_eq!(LaunchError::Launch.describe(), "child process failed to start");
}
