use autopower::settings::SinkBaseSettings;

fn sink_settings(
    whitelist: Option<Vec<&str>>,
    blacklist: Option<Vec<&str>>,
) -> SinkBaseSettings {
    SinkBaseSettings {
        name: "sink-under-test".to_owned(),
        enable: true,
        on_source_whitelist: whitelist
            .map(|v| v.into_iter().map(|s| s.to_owned()).collect()),
        on_source_blacklist: blacklist
            .map(|v| v.into_iter().map(|s| s.to_owned()).collect()),
        timeout_sec: 3,
    }
}

#[test]
fn no_filters_admits_all() {
    let s = sink_settings(None, None);
    assert!(s.allows_source_for_on(&"anything".to_owned()));
    assert!(s.allows_source_for_on(&"".to_owned()));
}

#[test]
fn whitelist_only_admits_named_sources() {
    let s = sink_settings(Some(vec!["tv", "console"]), None);
    assert!(s.allows_source_for_on(&"tv".to_owned()));
    assert!(s.allows_source_for_on(&"console".to_owned()));
    assert!(!s.allows_source_for_on(&"radio".to_owned()));
    assert!(!s.allows_source_for_on(&"".to_owned()));
}

#[test]
fn blacklist_only_excludes_named_sources() {
    let s = sink_settings(None, Some(vec!["radio"]));
    assert!(!s.allows_source_for_on(&"radio".to_owned()));
    assert!(s.allows_source_for_on(&"tv".to_owned()));
    assert!(s.allows_source_for_on(&"console".to_owned()));
}

#[test]
fn both_filters_intersect() {
    let s = sink_settings(Some(vec!["tv", "radio"]), Some(vec!["radio", "console"]));
    // Whitelisted and not blacklisted: admitted.
    assert!(s.allows_source_for_on(&"tv".to_owned()));
    // On both lists: the blacklist wins.
    assert!(!s.allows_source_for_on(&"radio".to_owned()));
    // Blacklisted only: rejected.
    assert!(!s.allows_source_for_on(&"console".to_owned()));
    // On neither list, but a whitelist exists: rejected.
    assert!(!s.allows_source_for_on(&"projector".to_owned()));
}

#[test]
fn empty_whitelist_admits_nothing() {
    let s = sink_settings(Some(vec![]), None);
    assert!(!s.allows_source_for_on(&"tv".to_owned()));
}

#[test]
fn empty_blacklist_excludes_nothing() {
    let s = sink_settings(None, Some(vec![]));
    assert!(s.allows_source_for_on(&"tv".to_owned()));
}
