use chromadb_rs::client::{
    Body, ChromaClient, ChromaClientParams, Method, Reply, Request, Settings,
};
use chromadb_rs::client::{encode_create_body, encode_metadata};
use chromadb_rs::collection::{
    Collection, CollectionMetadata, GetParams, Include, Metadata, MetadataValue,
};
use chromadb_rs::error::ChromaClientError;

fn s(x: &str) -> String {
    x.to_string()
}

fn default_client() -> ChromaClient {
    ChromaClient::new(ChromaClientParams::default())
}

fn header_pairs(r: &Request) -> Vec<(String, String)> {
    r.headers.clone()
}

fn json_pair(name: &str, value: &str) -> (String, String) {
    (s(name), s(value))
}

fn collection(name: &str, id: &str, metadata: Option<CollectionMetadata>) -> Collection {
    Collection::with_id(s(name), s(id), metadata)
}

fn status_message(e: &ChromaClientError) -> String {
    match e {
        ChromaClientError::ResponseStatusError(m) => m.clone(),
        other => panic!("expected a status error, got {:?}", other),
    }
}

#[test]
fn settings_default_scope() {
    let st = Settings::default();
    assert_eq!(st.tenant, "default_tenant");
    assert_eq!(st.database, "default_database");
    let st2: Settings = Default::default();
    assert_eq!(st2.tenant, "default_tenant");
}

#[test]
fn params_default_values() {
    let p = ChromaClientParams::default();
    assert_eq!(p.host, "localhost");
    assert_eq!(p.port, "8000");
    assert!(!p.ssl);
    assert!(p.headers.is_none());
    assert_eq!(p.settings.unwrap().database, "default_database");
}

#[test]
fn new_plain_base_address() {
    let c = default_client();
    assert_eq!(c.path, "http://localhost:8000");
    assert_eq!(c.tenant, "default_tenant");
    assert_eq!(c.database, "default_database");
    assert!(c.headers.is_empty());
}

#[test]
fn new_tls_base_address_and_scope() {
    let c = ChromaClient::new(ChromaClientParams {
        host: s("db.example.com"),
        port: s("443"),
        ssl: true,
        headers: Some(vec![json_pair("x-chroma-token", "SECRET-REDACTED")]),
        settings: Some(Settings { tenant: s("acme"), database: s("prod") }),
    });
    assert_eq!(c.path, "https://db.example.com:443");
    assert_eq!(c.tenant, "acme");
    assert_eq!(c.database, "prod");
    assert_eq!(c.headers, vec![json_pair("x-chroma-token", "SECRET-REDACTED")]);
}

#[test]
fn heartbeat_request_shape() {
    let r = default_client().heartbeat_request();
    assert_eq!(r.method, Method::Get);
    assert_eq!(r.url, "http://localhost:8000/api/v1/heartbeat");
    assert!(r.headers.is_empty());
    assert!(r.body.is_none());
}

#[test]
fn create_request_without_metadata() {
    let r = default_client().create_collection_request("collection-1", &None, false).unwrap();
    assert_eq!(r.method, Method::Post);
    assert_eq!(
        r.url,
        "http://localhost:8000/api/v1/collections?tenant=default_tenant&database=default_database"
    );
    assert_eq!(
        header_pairs(&r),
        vec![json_pair("accept", "application/json"), json_pair("content-type", "application/json")]
    );
    assert_eq!(
        r.body.unwrap(),
        r#"{"name":"collection-1","metadata":null,"get_or_create":false}"#
    );
}

#[test]
fn get_or_create_request_with_metadata() {
    let metadata = vec![
        (s("description"), MetadataValue::Str(s("my first collection into a vector db"))),
        (s("other-metadata"), MetadataValue::Str(s("testing get or create fn with metadata..."))),
    ];
    let r = default_client()
        .create_collection_request("collection-2", &Some(metadata), true)
        .unwrap();
    assert_eq!(
        r.body.unwrap(),
        r#"{"name":"collection-2","metadata":{"description":"my first collection into a vector db","other-metadata":"testing get or create fn with metadata..."},"get_or_create":true}"#
    );
}

#[test]
fn metadata_round_trip_body() {
    let metadata = vec![(s("description"), MetadataValue::Str(s("x")))];
    let r = default_client().create_collection_request("c", &Some(metadata.clone()), false).unwrap();
    assert_eq!(
        r.body.unwrap(),
        r#"{"name":"c","metadata":{"description":"x"},"get_or_create":false}"#
    );
    let got = ChromaClient::get_collection_result(Reply::Received(
        200,
        Body::Parsed(collection("c", "id-1", Some(metadata))),
    ))
    .unwrap();
    let m = got.metadata.unwrap();
    assert_eq!(m.len(), 1);
    assert_eq!(m[0].0, "description");
    assert!(matches!(&m[0].1, MetadataValue::Str(v) if v == "x"));
}

#[test]
fn metadata_scalars_and_escapes() {
    let metadata = vec![
        (s("n"), MetadataValue::Int(-42)),
        (s("min"), MetadataValue::Int(i64::MIN)),
        (s("ok"), MetadataValue::Bool(true)),
        (s("quote\"d"), MetadataValue::Str(s("line\nbreak"))),
    ];
    let r = default_client().create_collection_request("c", &Some(metadata), false).unwrap();
    assert_eq!(
        r.body.unwrap(),
        "{\"name\":\"c\",\"metadata\":{\"n\":-42,\"min\":-9223372036854775808,\"ok\":true,\"quote\\\"d\":\"line\\nbreak\"},\"get_or_create\":false}"
    );
}

#[test]
fn empty_metadata_is_not_absent() {
    let r = default_client().create_collection_request("c", &Some(Vec::new()), false).unwrap();
    assert_eq!(r.body.unwrap(), r#"{"name":"c","metadata":{},"get_or_create":false}"#);
}

#[test]
fn get_and_delete_request_shapes() {
    let c = default_client();
    let g = c.get_collection_request("collection-3").unwrap();
    assert_eq!(g.method, Method::Get);
    assert_eq!(
        g.url,
        "http://localhost:8000/api/v1/collections/collection-3?tenant=default_tenant&database=default_database"
    );
    assert_eq!(header_pairs(&g), vec![json_pair("accept", "application/json")]);
    let d = c.delete_collection_request("collection-3").unwrap();
    assert_eq!(d.method, Method::Delete);
    assert_eq!(d.url, g.url);
    assert_eq!(header_pairs(&d).len(), 2);
    assert!(d.body.is_none());
}

#[test]
fn list_and_reset_request_shapes() {
    let c = default_client();
    let l = c.list_collections_request().unwrap();
    assert_eq!(l.method, Method::Get);
    assert_eq!(
        l.url,
        "http://localhost:8000/api/v1/collections?tenant=default_tenant&database=default_database"
    );
    let r = c.reset_request();
    assert_eq!(r.method, Method::Post);
    assert_eq!(r.url, "http://localhost:8000/api/v1/reset");
    assert_eq!(header_pairs(&r), vec![json_pair("accept", "application/json")]);
}

#[test]
fn scope_values_are_query_encoded() {
    let c = ChromaClient::new(ChromaClientParams {
        host: s("localhost"),
        port: s("8000"),
        ssl: false,
        headers: None,
        settings: Some(Settings { tenant: s("a b&c"), database: s("d") }),
    });
    let l = c.list_collections_request().unwrap();
    assert_eq!(l.url, "http://localhost:8000/api/v1/collections?tenant=a+b%26c&database=d");
}

#[test]
fn static_headers_never_override_required() {
    let c = ChromaClient::new(ChromaClientParams {
        host: s("localhost"),
        port: s("8000"),
        ssl: false,
        headers: Some(vec![
            json_pair("Accept", "text/plain"),
            json_pair("x-chroma-token", "SECRET-REDACTED"),
            json_pair("CONTENT-TYPE", "text/plain"),
        ]),
        settings: None,
    });
    let r = c.create_collection_request("c", &None, false).unwrap();
    assert_eq!(
        header_pairs(&r),
        vec![
            json_pair("x-chroma-token", "SECRET-REDACTED"),
            json_pair("accept", "application/json"),
            json_pair("content-type", "application/json"),
        ]
    );
    let h = c.heartbeat_request();
    assert_eq!(h.headers.len(), 3);
}

#[test]
fn malformed_port_is_url_error() {
    let c = ChromaClient::new(ChromaClientParams {
        host: s("localhost"),
        port: s("notaport"),
        ssl: false,
        headers: None,
        settings: None,
    });
    assert!(matches!(c.list_collections_request(), Err(ChromaClientError::UrlParseError(_))));
    assert!(matches!(
        c.create_collection_request("c", &None, true),
        Err(ChromaClientError::UrlParseError(_))
    ));
    assert!(matches!(c.get_collection_request("c"), Err(ChromaClientError::UrlParseError(_))));
    assert!(matches!(c.delete_collection_request("c"), Err(ChromaClientError::UrlParseError(_))));
}

#[test]
fn heartbeat_result_outcomes() {
    assert_eq!(
        ChromaClient::heartbeat_result(Reply::Received(200, Body::Parsed(1700000000000000000)))
            .unwrap(),
        1700000000000000000
    );
    assert!(matches!(
        ChromaClient::heartbeat_result(Reply::SendFailed(s("refused"))),
        Err(ChromaClientError::RequestError(m)) if m == "refused"
    ));
    assert!(matches!(
        ChromaClient::heartbeat_result(Reply::Received(200, Body::ReadFailed(s("cut")))),
        Err(ChromaClientError::ResponseError(m)) if m == "cut"
    ));
    assert!(matches!(
        ChromaClient::heartbeat_result(Reply::Received(500, Body::ParseFailed(s("bad")))),
        Err(ChromaClientError::ResponseParseError(m)) if m == "bad"
    ));
}

#[test]
fn delete_missing_collection_is_status_error() {
    let r = ChromaClient::delete_collection_result(Reply::Received(404, Body::Parsed(())));
    let e = r.unwrap_err();
    assert_eq!(status_message(&e), "Failed to delete collection with status code: 404");
    assert!(ChromaClient::delete_collection_result(Reply::Received(204, Body::Parsed(()))).is_ok());
    let e = ChromaClient::delete_collection_result(Reply::Received(199, Body::Parsed(())))
        .unwrap_err();
    assert!(status_message(&e).contains("199"));
    let e = ChromaClient::delete_collection_result(Reply::Received(300, Body::Parsed(())))
        .unwrap_err();
    assert!(status_message(&e).contains("300"));
}

#[test]
fn reset_rejection_hints_at_flag() {
    let e = ChromaClient::reset_result(Reply::Received(401, Body::Parsed(()))).unwrap_err();
    assert_eq!(
        status_message(&e),
        "Failed to reset with status code: 401 - make sure `ALLOW_RESET=TRUE`"
    );
    assert!(ChromaClient::reset_result(Reply::Received(200, Body::Parsed(()))).is_ok());
}

#[test]
fn second_plain_create_is_rejected() {
    let first = ChromaClient::create_collection_result(Reply::Received(
        200,
        Body::Parsed(collection("dup", "id-7", None)),
    ))
    .unwrap();
    assert_eq!(first.id, "id-7");
    let again = ChromaClient::get_collection_result(Reply::Received(
        200,
        Body::Parsed(collection("dup", "id-7", None)),
    ))
    .unwrap();
    assert_eq!(again.id, first.id);
    let e = ChromaClient::create_collection_result(Reply::Received(
        409,
        Body::ParseFailed(s("not a collection")),
    ))
    .unwrap_err();
    assert_eq!(status_message(&e), "Failed to create collection with status code: 409");
}

#[test]
fn list_keeps_every_entry_in_order() {
    let listed = ChromaClient::list_collections_result(Reply::Received(
        200,
        Body::Parsed(vec![collection("a", "1", None), collection("b", "2", None)]),
    ))
    .unwrap();
    assert_eq!(listed.len(), 2);
    assert_eq!(listed[0].name, "a");
    assert_eq!(listed[1].name, "b");
    let e = ChromaClient::list_collections_result(Reply::Received(503, Body::Parsed(Vec::new())))
        .unwrap_err();
    assert_eq!(status_message(&e), "Failed to list collections with status code: 503");
}

#[test]
fn end_to_end_scenario_on_replies() {
    let c = default_client();
    let r1 = c.create_collection_request("collection-1", &None, false).unwrap();
    assert!(r1.body.unwrap().contains("\"collection-1\""));
    let metadata = vec![
        (s("description"), MetadataValue::Str(s("my first collection into a vector db"))),
        (s("other-metadata"), MetadataValue::Str(s("testing get or create fn with metadata..."))),
    ];
    let r2 = c.create_collection_request("collection-2", &Some(metadata.clone()), true).unwrap();
    assert!(r2.body.unwrap().ends_with("\"get_or_create\":true}"));
    let coll_2 = ChromaClient::create_collection_result(Reply::Received(
        200,
        Body::Parsed(collection("collection-2", "id-2", Some(metadata))),
    ))
    .unwrap();
    assert_eq!(coll_2.metadata.unwrap().len(), 2);
    let three = vec![
        collection("collection-1", "id-1", None),
        collection("collection-2", "id-2", None),
        collection("collection-3", "id-3", None),
    ];
    let listed = ChromaClient::list_collections_result(Reply::Received(200, Body::Parsed(three)))
        .unwrap();
    assert_eq!(listed.len(), 3);
    assert_eq!(
        c.delete_collection_request("collection-1").unwrap().url,
        "http://localhost:8000/api/v1/collections/collection-1?tenant=default_tenant&database=default_database"
    );
    assert!(ChromaClient::delete_collection_result(Reply::Received(200, Body::Parsed(()))).is_ok());
    assert!(ChromaClient::delete_collection_result(Reply::Received(200, Body::Parsed(()))).is_ok());
    let one = vec![collection("collection-3", "id-3", None)];
    let listed = ChromaClient::list_collections_result(Reply::Received(200, Body::Parsed(one)))
        .unwrap();
    assert_eq!(listed.len(), 1);
    assert_eq!(listed[0].name, "collection-3");
    let coll_3 = ChromaClient::get_collection_result(Reply::Received(
        200,
        Body::Parsed(collection("collection-3", "id-3", None)),
    ))
    .unwrap();
    assert_eq!(coll_3.name, "collection-3");
}

#[test]
fn collection_constructors_and_stub() {
    let c = Collection::new(s("n"), None);
    assert_eq!(c.name, "n");
    assert!(c.id.is_empty());
    assert!(c.metadata.is_none());
    let r: Result<Vec<u8>, ChromaClientError> = c.get(GetParams::default());
    assert!(matches!(r, Err(ChromaClientError::Unsupported(m)) if m == "get"));
    let p = GetParams::default();
    assert_eq!(p.included, vec![Include::Metadatas, Include::Documents]);
    assert!(p.limit.is_none());
}

#[test]
fn error_messages() {
    assert_eq!(
        ChromaClientError::ResponseStatusError(s("x")).message(),
        "Respond with a bad status: x"
    );
    assert_eq!(ChromaClientError::RequestError(s("y")).message(), "Unable to send request: y");
    assert_eq!(ChromaClientError::UrlParseError(s("z")).message(), "Unable to parse URL: z");
}

#[test]
fn number_metadata_kept_as_text() {
    let m = Some(vec![(s("ratio"), MetadataValue::Number(s("0.5"))), (s("big"), MetadataValue::Number(s("18446744073709551615")))]);
    assert_eq!(encode_metadata(&m), r#"{"ratio":0.5,"big":18446744073709551615}"#);
    assert_eq!(encode_metadata(&None), "null");
}

#[test]
fn control_characters_are_escaped() {
    let body = encode_create_body("a\u{1}b\tc\\d/", &None, true);
    assert_eq!(body, "{\"name\":\"a\\u0001b\\tc\\\\d/\",\"metadata\":null,\"get_or_create\":true}");
    let body = encode_create_body("\u{1f}\u{8}\u{c}\r", &None, false);
    assert!(body.starts_with("{\"name\":\"\\u001f\\b\\f\\r\","));
}

#[test]
fn status_only_operations_ignore_the_body() {
    assert!(ChromaClient::delete_collection_result(Reply::Received(200, Body::ReadFailed(s("cut")))).is_ok());
    assert!(ChromaClient::reset_result(Reply::Received(204, Body::ParseFailed(s("junk")))).is_ok());
    assert!(matches!(
        ChromaClient::delete_collection_result(Reply::SendFailed(s("refused"))),
        Err(ChromaClientError::RequestError(m)) if m == "refused"
    ));
}

#[test]
fn record_metadata_holds_each_pair_once() {
    let mut m = Metadata::new();
    assert!(m.insert(s("k"), s("v")));
    assert!(m.insert(s("k"), s("w")));
    assert!(!m.insert(s("k"), s("v")));
    assert_eq!(m.0.len(), 2);
    assert!(m.contains(&s("k"), &s("w")));
    assert!(!m.contains(&s("x"), &s("v")));
}
