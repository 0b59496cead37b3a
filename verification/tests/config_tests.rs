use solr_post::config::{authorization_value, judge, ConfigError, PostConfig};
use solr_post::task::{encoded_identifier, request_target, UploadTask};
use solr_post::text::{decimal_string, join, split_list};

fn strings(items: &[&str]) -> Vec<String> {
    items.iter().map(|s| s.to_string()).collect()
}

#[test]
fn defaults() {
    let c = PostConfig::default();
    assert_eq!(c.concurrency, 8);
    assert_eq!(c.host, "localhost");
    assert_eq!(c.port, 8983);
    assert_eq!(c.collection, "collection1");
    assert_eq!(c.directory_path, "./");
    assert_eq!(
        c.file_extensions,
        strings(&[
            "xml", "json", "jsonl", "csv", "pdf", "doc", "docx", "ppt", "pptx", "xls", "xlsx",
            "odt", "odp", "ods", "ott", "otp", "ots", "rtf", "htm", "html", "txt", "log",
        ])
    );
    assert!(c.glob_pattern.is_none());
    assert!(c.update_url.is_none());
    assert!(c.exclued_regex.is_none());
    assert!(c.include_regex.is_none());
    assert!(c.basic_auth_creds.is_none());
    assert_eq!(c.validate(), Ok(()));
}

#[test]
fn default_addresses() {
    let c = PostConfig::default();
    assert_eq!(
        c.glob_expression(),
        "**/*.{xml,json,jsonl,csv,pdf,doc,docx,ppt,pptx,xls,xlsx,odt,odp,ods,ott,otp,ots,rtf,htm,html,txt,log}"
    );
    assert_eq!(c.update_endpoint(), "http://localhost:8983/solr/collection1/update/extract");
    assert_eq!(c.commit_url(), "http://localhost:8983/solr/collection1/update?commit=true");
    assert_eq!(c.authorization(), None);
}

#[test]
fn configured_addresses() {
    let mut c = PostConfig::default();
    c.host = "solr.example.org".to_string();
    c.port = 80;
    c.collection = "portal".to_string();
    c.file_extensions = strings(&["html"]);
    assert_eq!(c.glob_expression(), "**/*.{html}");
    assert_eq!(c.update_endpoint(), "http://solr.example.org:80/solr/portal/update/extract");
    assert_eq!(c.commit_url(), "http://solr.example.org:80/solr/portal/update?commit=true");
    c.file_extensions = Vec::new();
    assert_eq!(c.glob_expression(), "**/*.{}");
    c.glob_pattern = Some("docs/**/*.md".to_string());
    assert_eq!(c.glob_expression(), "docs/**/*.md");
}

#[test]
fn update_url_replaces_host_port_and_collection() {
    let mut c = PostConfig::default();
    c.update_url = Some("http://localhost:8983/solr/my_collection/update".to_string());
    assert_eq!(c.update_endpoint(), "http://localhost:8983/solr/my_collection/update");
    assert_eq!(c.commit_url(), "http://localhost:8983/solr/my_collection/update?commit=true");
    assert_eq!(c.validate(), Ok(()));
}

#[test]
fn basic_authorization_header() {
    let mut c = PostConfig::default();
    c.basic_auth_creds = Some("user:pass".to_string());
    assert_eq!(c.authorization(), Some("Basic dXNlcjpwYXNz".to_string()));
    c.basic_auth_creds = Some("a".to_string());
    assert_eq!(c.authorization(), Some("Basic YQ==".to_string()));
    assert_eq!(authorization_value("abc"), "Basic abc");
}

#[test]
fn validation_errors() {
    let mut c = PostConfig::default();
    c.concurrency = 0;
    c.exclued_regex = Some("(".to_string());
    assert_eq!(c.validate(), Err(ConfigError::ZeroConcurrency));
    c.concurrency = 1;
    c.include_regex = Some("[".to_string());
    assert_eq!(c.validate(), Err(ConfigError::InvalidExcludePattern));
    c.exclued_regex = Some("fine".to_string());
    assert_eq!(c.validate(), Err(ConfigError::InvalidIncludePattern));
    c.include_regex = None;
    c.update_url = Some("not a url".to_string());
    assert_eq!(c.validate(), Err(ConfigError::MalformedUrl));
    c.update_url = None;
    assert_eq!(c.validate(), Ok(()));
    c.host = "bad host".to_string();
    assert_eq!(c.validate(), Err(ConfigError::MalformedUrl));
}

#[test]
fn judge_reports_first_fault() {
    assert_eq!(judge(0, false, false, false), Err(ConfigError::ZeroConcurrency));
    assert_eq!(judge(3, false, false, false), Err(ConfigError::InvalidExcludePattern));
    assert_eq!(judge(3, true, false, false), Err(ConfigError::InvalidIncludePattern));
    assert_eq!(judge(3, true, true, false), Err(ConfigError::MalformedUrl));
    assert_eq!(judge(3, true, true, true), Ok(()));
}

#[test]
fn configuration_from_command_line_values() {
    let c = PostConfig::from_parts(
        "portal".to_string(),
        "example.org".to_string(),
        9000,
        None,
        Some("u:p".to_string()),
        "/srv/docs".to_string(),
        "html,txt,json",
        4,
        Some("no_index".to_string()),
        Some("index_me".to_string()),
    );
    assert_eq!(c.collection, "portal");
    assert_eq!(c.host, "example.org");
    assert_eq!(c.port, 9000);
    assert_eq!(c.update_url, None);
    assert_eq!(c.basic_auth_creds, Some("u:p".to_string()));
    assert_eq!(c.directory_path, "/srv/docs");
    assert_eq!(c.file_extensions, strings(&["html", "txt", "json"]));
    assert_eq!(c.concurrency, 4);
    assert_eq!(c.exclued_regex, Some("no_index".to_string()));
    assert_eq!(c.include_regex, Some("index_me".to_string()));
    assert_eq!(c.glob_expression(), "**/*.{html,txt,json}");
    let f = c.content_filter();
    assert_eq!(f.exclude_pattern, Some("no_index".to_string()));
    assert_eq!(f.include_pattern, Some("index_me".to_string()));
    assert_eq!(f.admits("INDEX_ME"), Some(true));
    assert_eq!(f.admits("index_me NO_INDEX"), Some(false));
}

#[test]
fn decimal_numerals() {
    assert_eq!(decimal_string(0), "0");
    assert_eq!(decimal_string(7), "7");
    assert_eq!(decimal_string(10), "10");
    assert_eq!(decimal_string(8983), "8983");
    assert_eq!(decimal_string(65535), "65535");
    assert_eq!(decimal_string(u64::MAX), "18446744073709551615");
}

#[test]
fn joining_and_splitting() {
    assert_eq!(join(&strings(&[]), ","), "");
    assert_eq!(join(&strings(&["a"]), ","), "a");
    assert_eq!(join(&strings(&["a", "b", "c"]), ", "), "a, b, c");
    assert_eq!(join(&strings(&["", ""]), ","), ",");
    assert_eq!(split_list(""), strings(&[""]));
    assert_eq!(split_list("a"), strings(&["a"]));
    assert_eq!(split_list("a,b"), strings(&["a", "b"]));
    assert_eq!(split_list("a,,b,"), strings(&["a", "", "b", ""]));
    assert_eq!(split_list(","), strings(&["", ""]));
    assert_eq!(split_list("h\u{e9},\u{4e2d}"), strings(&["h\u{e9}", "\u{4e2d}"]));
    let text = "xml,json,pdf";
    assert_eq!(join(&split_list(text), ","), text);
}

#[test]
fn identifiers_are_percent_encoded() {
    assert_eq!(encoded_identifier("abc-XYZ_0.9~"), "abc-XYZ_0.9~");
    assert_eq!(encoded_identifier("/tmp/a b.txt"), "%2Ftmp%2Fa%20b.txt");
    assert_eq!(encoded_identifier("\u{e9}"), "%C3%A9");
    assert_eq!(encoded_identifier(""), "");
    assert_eq!(encoded_identifier("a+b&c=d?"), "a%2Bb%26c%3Dd%3F");
}

#[test]
fn request_address() {
    assert_eq!(
        request_target("http://localhost:8983/solr/c/update/extract", "%2Ftmp%2Fa.txt"),
        "http://localhost:8983/solr/c/update/extract?resource.name=%2Ftmp%2Fa.txt&literal.id=%2Ftmp%2Fa.txt"
    );
}

#[test]
fn upload_task_parts() {
    let t = UploadTask::new("/srv/docs/page one.html", "http://h:1/solr/c/update/extract");
    assert_eq!(t.path, "/srv/docs/page one.html");
    assert_eq!(t.identifier, "%2Fsrv%2Fdocs%2Fpage%20one.html");
    assert_eq!(t.content_type, "text/html");
    assert_eq!(
        t.url,
        "http://h:1/solr/c/update/extract?resource.name=%2Fsrv%2Fdocs%2Fpage%20one.html&literal.id=%2Fsrv%2Fdocs%2Fpage%20one.html"
    );
    let unknown = UploadTask::new("/srv/docs/blob.zzzunknown", "e");
    assert_eq!(unknown.content_type, "application/octet-stream");
    let bare = UploadTask::new("/srv/docs/README", "e");
    assert_eq!(bare.content_type, "application/octet-stream");
    let given = UploadTask::assemble("/a.txt", "e", "text/plain".to_string());
    assert_eq!(given.content_type, "text/plain");
    assert_eq!(given.url, "e?resource.name=%2Fa.txt&literal.id=%2Fa.txt");
    let json = UploadTask::new("/data/x.JSON", "e");
    assert_eq!(json.content_type, "application/json");
}

#[test]
fn every_ascii_character_is_encoded_by_rule() {
    for code in 0u8..128 {
        let c = code as char;
        let kept = c.is_ascii_alphanumeric() || c == '-' || c == '.' || c == '_' || c == '~';
        let expected = if kept { c.to_string() } else { format!("%{:02X}", code) };
        assert_eq!(encoded_identifier(&c.to_string()), expected);
    }
    assert_eq!(encoded_identifier("\u{4e2d}\u{1f600}"), "%E4%B8%AD%F0%9F%98%80");
}
