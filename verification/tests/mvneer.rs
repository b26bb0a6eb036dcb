use mvneer::Artifact;
use mvneer::Dialect;
use mvneer::SearchError;
use mvneer::SearchQuery;
use mvneer::decode;
use mvneer::dialect_from_name;
use mvneer::percent_decode;
use mvneer::percent_encode;
use mvneer::process_response;
use mvneer::render;
use mvneer::summary_line;

fn scalalib() -> Artifact {
    Artifact {
        id: "org.scala-lang:scala-library".to_string(),
        group_id: "org.scala-lang".to_string(),
        artifact_id: "scala-library".to_string(),
        latest_version: "2.12.1".to_string(),
        repository_id: "central".to_string(),
        version_count: 153,
    }
}

const FIXTURE: &str = r#"{"responseHeader":{"status":0},"response":{"numFound":1,"start":0,"docs":[{"id":"org.scala-lang:scala-library","g":"org.scala-lang","a":"scala-library","latestVersion":"2.12.1","repositoryId":"central","p":"jar","timestamp":1480629180000,"versionCount":153,"ec":["-sources.jar",".jar"]}]}}"#;

#[test]
fn search_query() {
    let q = SearchQuery::new("org.typelevel", "cats_2.11");
    assert!(q.resolve_url().is_ok());
}

#[test]
#[should_panic]
fn invalid_parameter() {
    let q = SearchQuery::default();
    q.resolve_url().unwrap();
}

#[test]
fn query_defaults() {
    let q = SearchQuery::default();
    assert!(q.group_id.is_none());
    assert!(q.artifact_id.is_none());
    assert_eq!(q.packaging, "jar");
    assert_eq!(q.rows, 1);
    assert_eq!(q.format, "json");
    let q = SearchQuery::new("org.typelevel", "cats_2.11");
    assert_eq!(q.group_id.as_deref(), Some("org.typelevel"));
    assert_eq!(q.artifact_id.as_deref(), Some("cats_2.11"));
    assert_eq!(q.rows, 1);
}

#[test]
fn resolve_url_both_fields() {
    let q = SearchQuery::new("org.scala-lang", "scala-library");
    let url = q.resolve_url().unwrap();
    assert_eq!(
        url,
        "http://search.maven.org/solrsearch/select?q=g%3A%22org.scala-lang%22%20AND%20a%3A%22scala-library%22&rows=1&wt=json"
    );
}

#[test]
fn resolve_url_group_only() {
    let q = SearchQuery::from_args(Some("org.typelevel".to_string()), None, None, None);
    let url = q.resolve_url().unwrap();
    assert_eq!(
        url,
        "http://search.maven.org/solrsearch/select?q=g%3A%22org.typelevel%22&rows=1&wt=json"
    );
}

#[test]
fn resolve_url_artifact_only() {
    let q = SearchQuery::from_args(None, Some("cats_2.11".to_string()), Some(20), None);
    let url = q.resolve_url().unwrap();
    assert_eq!(
        url,
        "http://search.maven.org/solrsearch/select?q=a%3A%22cats_2.11%22&rows=20&wt=json"
    );
}

#[test]
fn resolve_url_negative_rows_pass_through() {
    let q = SearchQuery::from_args(Some("junit".to_string()), None, Some(-3), None);
    let url = q.resolve_url().unwrap();
    assert!(url.contains("&rows=-3&"));
}

#[test]
fn empty_query_fails_whatever_else_is_set() {
    let q = SearchQuery::from_args(None, None, Some(42), Some("xml".to_string()));
    assert_eq!(q.resolve_url().unwrap_err(), SearchError::EmptyQuery);
    let d = SearchQuery::default();
    assert_eq!(d.resolve_url().unwrap_err(), SearchError::EmptyQuery);
}

#[test]
fn empty_query_message() {
    assert_eq!(
        SearchError::EmptyQuery.message(),
        "Group ID and Artifact ID should not be left empty"
    );
}

#[test]
fn percent_encoding_escapes_reserved_bytes() {
    assert_eq!(percent_encode("g:\"a b\""), "g%3A%22a%20b%22");
    assert_eq!(percent_encode("safe-._~AZaz09"), "safe-._~AZaz09");
    assert_eq!(percent_encode("&=#%"), "%26%3D%23%25");
    assert_eq!(percent_encode("\u{e9}"), "%C3%A9");
}

#[test]
fn percent_round_trip_quote_and_space() {
    let raw = "g:\"org.scala lang\" AND a:\"scala-library\"";
    let encoded = percent_encode(raw);
    let decoded = percent_decode(&encoded).unwrap();
    assert_eq!(decoded, raw.as_bytes());
}

#[test]
fn percent_decode_rejects_bad_escapes() {
    assert!(percent_decode("%2").is_none());
    assert!(percent_decode("%GZ").is_none());
    assert!(percent_decode("caf\u{e9}").is_none());
    assert_eq!(percent_decode("abc%20d").unwrap(), b"abc d");
}

#[test]
fn decode_empty_result_is_not_an_error() {
    let body = br#"{"response":{"numFound":0,"docs":[]}}"#;
    let res = decode(body).unwrap();
    assert_eq!(res.num_found, 0);
    assert!(res.data.is_empty());
}

#[test]
fn decode_missing_count_defaults_to_zero() {
    let body = br#"{"response":{"docs":[]}}"#;
    let res = decode(body).unwrap();
    assert_eq!(res.num_found, 0);
    let body = br#"{"response":{"numFound":"many","docs":[]}}"#;
    let res = decode(body).unwrap();
    assert_eq!(res.num_found, 0);
}

#[test]
fn decode_fixture_envelope() {
    let res = decode(FIXTURE.as_bytes()).unwrap();
    assert_eq!(res.num_found, 1);
    assert_eq!(res.data.len(), 1);
    let a = &res.data[0];
    let expected = scalalib();
    assert_eq!(a.id, expected.id);
    assert_eq!(a.group_id, expected.group_id);
    assert_eq!(a.artifact_id, expected.artifact_id);
    assert_eq!(a.latest_version, expected.latest_version);
    assert_eq!(a.repository_id, expected.repository_id);
    assert_eq!(a.version_count, expected.version_count);
}

#[test]
fn decode_one_bad_document_fails_the_whole_list() {
    let body = br#"{"response":{"numFound":2,"docs":[
        {"id":"a:b","g":"a","a":"b","latestVersion":"1","repositoryId":"central","versionCount":3},
        {"id":"c:d","g":"c","a":"d","repositoryId":"central","versionCount":9}
    ]}}"#;
    assert_eq!(decode(body).unwrap_err(), SearchError::MalformedArtifact);
}

#[test]
fn decode_rejects_empty_coordinates() {
    let body = br#"{"response":{"numFound":1,"docs":[
        {"id":"x","g":"","a":"b","latestVersion":"1","repositoryId":"r","versionCount":1}
    ]}}"#;
    assert_eq!(decode(body).unwrap_err(), SearchError::MalformedArtifact);
}

#[test]
fn decode_rejects_out_of_range_version_count() {
    let body = br#"{"response":{"numFound":1,"docs":[
        {"id":"x","g":"g","a":"a","latestVersion":"1","repositoryId":"r","versionCount":-1}
    ]}}"#;
    assert_eq!(decode(body).unwrap_err(), SearchError::MalformedArtifact);
    let body = br#"{"response":{"numFound":1,"docs":[
        {"id":"x","g":"g","a":"a","latestVersion":"1","repositoryId":"r","versionCount":3000000000}
    ]}}"#;
    assert_eq!(decode(body).unwrap_err(), SearchError::MalformedArtifact);
}

#[test]
fn decode_ignores_unknown_fields() {
    let body = br#"{"response":{"numFound":1,"docs":[
        {"id":"x:y","g":"x","a":"y","latestVersion":"1","repositoryId":"r","versionCount":2,
         "score":1.5,"tags":["tool"],"extra":null}
    ]}}"#;
    let res = decode(body).unwrap();
    assert_eq!(res.data[0].version_count, 2);
}

#[test]
fn decode_malformed_envelopes() {
    assert_eq!(decode(b"not json").unwrap_err(), SearchError::MalformedResponse);
    assert_eq!(decode(&[0xff, 0xfe]).unwrap_err(), SearchError::MalformedResponse);
    assert_eq!(decode(b"{}").unwrap_err(), SearchError::MalformedResponse);
    assert_eq!(
        decode(br#"{"response":{"numFound":3}}"#).unwrap_err(),
        SearchError::MalformedResponse
    );
    assert_eq!(
        decode(br#"{"response":{"docs":{}}}"#).unwrap_err(),
        SearchError::MalformedResponse
    );
}

#[test]
fn render_sbt_exact() {
    let a = Artifact {
        id: "org.typelevel:cats_2.11".to_string(),
        group_id: "org.typelevel".to_string(),
        artifact_id: "cats_2.11".to_string(),
        latest_version: "1.0.0".to_string(),
        repository_id: "central".to_string(),
        version_count: 1,
    };
    assert_eq!(
        render(Dialect::Sbt, &a).unwrap(),
        "libraryDependencies += \"org.typelevel\" % \"cats_2.11\" % \"1.0.0\""
    );
}

#[test]
fn render_other_dialects_exact() {
    let a = scalalib();
    assert_eq!(
        render(Dialect::Gradle, &a).unwrap(),
        "compile 'org.scala-lang:scala-library:2.12.1'"
    );
    assert_eq!(
        render(Dialect::Grape, &a).unwrap(),
        "@Grab(group='org.scala-lang', module='scala-library', version='2.12.1')"
    );
    assert_eq!(
        render(Dialect::Ivy, &a).unwrap(),
        "<dependency org=\"org.scala-lang\" name=\"scala-library\" rev=\"2.12.1\" />"
    );
    assert_eq!(
        render(Dialect::Leiningen, &a).unwrap(),
        "[org.scala-lang/scala-library \"2.12.1\"]"
    );
    assert_eq!(
        render(Dialect::MavenPom, &a).unwrap(),
        "<dependency>\n  <groupId>org.scala-lang</groupId>\n  <artifactId>scala-library</artifactId>\n  <version>2.12.1</version>\n</dependency>"
    );
}

#[test]
fn render_unimplemented_dialects_fail() {
    let a = scalalib();
    assert_eq!(render(Dialect::ScalaAmmonite, &a).unwrap_err(), SearchError::UnsupportedFormat);
    assert_eq!(render(Dialect::Buildr, &a).unwrap_err(), SearchError::UnsupportedFormat);
}

#[test]
fn dialect_names() {
    assert_eq!(dialect_from_name("sbt"), Some(Dialect::Sbt));
    assert_eq!(dialect_from_name("gradle"), Some(Dialect::Gradle));
    assert_eq!(dialect_from_name("grape"), Some(Dialect::Grape));
    assert_eq!(dialect_from_name("ivy"), Some(Dialect::Ivy));
    assert_eq!(dialect_from_name("lein"), Some(Dialect::Leiningen));
    assert_eq!(dialect_from_name("pom"), Some(Dialect::MavenPom));
    assert_eq!(dialect_from_name("amm"), Some(Dialect::ScalaAmmonite));
    assert_eq!(dialect_from_name("buildr"), Some(Dialect::Buildr));
    assert_eq!(dialect_from_name("make"), None);
}

#[test]
fn summary_line_exact() {
    let a = scalalib();
    assert_eq!(
        summary_line(&a),
        "    org.scala-lang:scala-library: latest version [2.12.1] (versions behind: 153)"
    );
}

#[test]
fn end_to_end_stub_transport() {
    let q = SearchQuery::from_args(
        Some("org.scala-lang".to_string()),
        Some("scala-library".to_string()),
        Some(1),
        None,
    );
    let url = q.resolve_url().unwrap();
    assert!(url.starts_with("http://search.maven.org/solrsearch/select?q="));
    // A stub transport hands back the recorded envelope for that query.
    let body = FIXTURE.as_bytes();
    let (res, lines) = process_response(body, None).unwrap();
    assert_eq!(res.num_found, 1);
    assert_eq!(res.data.len(), 1);
    assert_eq!(res.data[0].latest_version, "2.12.1");
    assert_eq!(res.data[0].version_count, 153);
    assert_eq!(
        lines,
        vec!["    org.scala-lang:scala-library: latest version [2.12.1] (versions behind: 153)"]
    );
}

#[test]
fn process_response_renders_each_artifact() {
    let (_, lines) = process_response(FIXTURE.as_bytes(), Some(Dialect::Sbt)).unwrap();
    assert_eq!(
        lines,
        vec!["libraryDependencies += \"org.scala-lang\" % \"scala-library\" % \"2.12.1\""]
    );
}

#[test]
fn process_response_surfaces_unsupported_format() {
    assert_eq!(
        process_response(FIXTURE.as_bytes(), Some(Dialect::Buildr)).unwrap_err(),
        SearchError::UnsupportedFormat
    );
    assert_eq!(
        process_response(b"no json here", Some(Dialect::Sbt)).unwrap_err(),
        SearchError::MalformedResponse
    );
}
