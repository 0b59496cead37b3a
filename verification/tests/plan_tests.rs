use solr_post::config::{ConfigError, PostConfig};
use solr_post::pipeline::{Phase, Signal};
use solr_post::plan::plan_uploads;
use solr_post::workset::{build_work_set, Candidate, WorkSet};

fn candidate(path: &str, contents: &str) -> Candidate {
    Candidate { path: path.to_string(), contents: contents.to_string() }
}

#[test]
fn plan_for_a_scan() {
    let mut config = PostConfig::default();
    config.concurrency = 2;
    config.exclued_regex = Some("solr_noindex".to_string());
    config.basic_auth_creds = Some("user:pass".to_string());
    let candidates = vec![
        candidate("a.txt", "plain"),
        candidate("b.txt", "SOLR_NOINDEX"),
        candidate("c.txt", "more"),
    ];
    let work_set = build_work_set(&candidates, &config.content_filter()).unwrap();
    let mut plan = plan_uploads(&config, work_set).unwrap();
    assert_eq!(plan.admitted(), 2);
    let mut paths = plan.work_set.paths.clone();
    paths.sort();
    assert_eq!(paths, vec!["a.txt".to_string(), "c.txt".to_string()]);
    assert_eq!(plan.endpoint, "http://localhost:8983/solr/collection1/update/extract");
    assert_eq!(plan.commit_url, "http://localhost:8983/solr/collection1/update?commit=true");
    assert_eq!(plan.authorization, Some("Basic dXNlcjpwYXNz".to_string()));
    assert_eq!(plan.pipeline.total, 2);
    assert_eq!(plan.pipeline.bound, 2);
    assert_eq!(plan.pipeline.started, 0);
    assert_eq!(plan.pipeline.completed, 0);
    assert_eq!(plan.pipeline.phase, Phase::Filtering);
    assert_eq!(plan.pipeline.announce(), Some(Signal::Start(2)));
    assert_eq!(plan.pipeline.next_task(), Some(0));
}

#[test]
fn plan_is_refused_for_a_bad_configuration() {
    let mut config = PostConfig::default();
    config.concurrency = 0;
    assert_eq!(plan_uploads(&config, WorkSet::new()).err(), Some(ConfigError::ZeroConcurrency));
    config.concurrency = 8;
    config.include_regex = Some("(".to_string());
    assert_eq!(plan_uploads(&config, WorkSet::new()).err(), Some(ConfigError::InvalidIncludePattern));
    config.include_regex = None;
    config.exclued_regex = Some("*".to_string());
    assert_eq!(plan_uploads(&config, WorkSet::new()).err(), Some(ConfigError::InvalidExcludePattern));
    config.exclued_regex = None;
    config.update_url = Some("::".to_string());
    assert_eq!(plan_uploads(&config, WorkSet::new()).err(), Some(ConfigError::MalformedUrl));
}

#[test]
fn plan_for_an_empty_scan() {
    let mut plan = plan_uploads(&PostConfig::default(), WorkSet::new()).unwrap();
    assert_eq!(plan.admitted(), 0);
    assert!(plan.pipeline.is_drained());
    assert_eq!(plan.pipeline.announce(), Some(Signal::Start(0)));
    assert_eq!(plan.pipeline.next_task(), None);
    assert!(plan.pipeline.begin_commit());
    assert_eq!(plan.pipeline.finish(), Some(Signal::Finish));
}
