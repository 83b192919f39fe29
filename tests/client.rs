use sanity::{encode_component, token_is_valid, build_base_url, ApiResponse, Endpoint, SanityClient};

const API: &str = "2022-01-12";

#[test]
fn base_url_live_api() {
    let client = SanityClient::new("abc", "production", API);
    assert_eq!(client.config().base_url(), "https://abc.api.sanity.io/v2022-01-12/data");
    assert!(!client.config().use_cdn());
    assert_eq!(client.config().token(), None);
}

#[test]
fn base_url_cdn() {
    let client = SanityClient::new("abc", "production", API).cdn(true);
    assert_eq!(client.config().base_url(), "https://abc.apicdn.sanity.io/v2022-01-12/data");
    let back = client.cdn(false);
    assert_eq!(back.config().base_url(), "https://abc.api.sanity.io/v2022-01-12/data");
}

#[test]
fn base_url_formula() {
    assert_eq!(build_base_url("p1", "1", false), "https://p1.api.sanity.io/v1/data");
    assert_eq!(build_base_url("p1", "1", true), "https://p1.apicdn.sanity.io/v1/data");
    assert_eq!(build_base_url("", "", false), "https://.api.sanity.io/v/data");
}

#[test]
fn build_request_trailing_slash() {
    let client = SanityClient::new("abc", "production", API);
    let r = client.config().build_request(Endpoint::Doc, "");
    assert_eq!(r.url, "https://abc.api.sanity.io/v2022-01-12/data/doc/production/");
    let r = client.config().build_request(Endpoint::Query, "x");
    assert_eq!(r.url, "https://abc.api.sanity.io/v2022-01-12/data/query/production/x");
    assert_eq!(r.authorization, None);
}

#[test]
fn query_build_encodes_query() {
    let client = SanityClient::new("abc", "production", API);
    let r = client.query("*[_type=='x']").build();
    assert_eq!(
        r.url,
        "https://abc.api.sanity.io/v2022-01-12/data/query/production/?query=%2A%5B_type%3D%3D%27x%27%5D"
    );
    assert_eq!(r.authorization, None);
}

#[test]
fn query_params_last_write_wins() {
    let client = SanityClient::new("abc", "production", API);
    let mut q = client.query("q");
    q.param("a", "1");
    q.param("b", "x y");
    q.param("a", "2");
    let r = q.build();
    assert_eq!(
        r.url,
        "https://abc.api.sanity.io/v2022-01-12/data/query/production/?query=q&a=2&b=x%20y"
    );
}

#[test]
fn documents_joined_with_comma() {
    let client = SanityClient::new("abc", "production", API);
    let mut d = client.document("a");
    d.document("b");
    let r = d.build();
    assert_eq!(r.url, "https://abc.api.sanity.io/v2022-01-12/data/doc/production/a,b");
}

#[test]
fn documents_keep_order_and_duplicates() {
    let client = SanityClient::new("abc", "production", API);
    let mut d = client.documents(&["x", "y"]);
    d.documents(&["x", "z"]);
    assert_eq!(d.build().url, "https://abc.api.sanity.io/v2022-01-12/data/doc/production/x,y,x,z");
}

#[test]
fn documents_empty_path() {
    let client = SanityClient::new("abc", "production", API);
    let d = client.documents(&[]);
    assert_eq!(d.build().url, "https://abc.api.sanity.io/v2022-01-12/data/doc/production/");
}

#[test]
fn cdn_twice_equals_once() {
    let once = SanityClient::new("abc", "production", API).cdn(true);
    let twice = SanityClient::new("abc", "production", API).cdn(true).cdn(true);
    assert_eq!(once.config().base_url(), twice.config().base_url());
    assert_eq!(once.config().project(), twice.config().project());
    assert_eq!(once.config().dataset(), twice.config().dataset());
    assert_eq!(once.config().api_version(), twice.config().api_version());
    assert_eq!(once.config().use_cdn(), twice.config().use_cdn());
    assert_eq!(once.config().token(), twice.config().token());
}

#[test]
fn token_on_every_request() {
    let client = SanityClient::new("abc", "production", API).token("T");
    let q = client.query("q").build();
    assert_eq!(q.authorization, Some(String::from("Bearer T")));
    let d = client.document("a").build();
    assert_eq!(d.authorization, Some(String::from("Bearer T")));
    let cdn = client.cdn(true);
    assert_eq!(cdn.config().token(), Some("T"));
    assert_eq!(cdn.query("q").build().authorization, Some(String::from("Bearer T")));
}

#[test]
fn no_token_no_header() {
    let client = SanityClient::new("abc", "production", API);
    assert_eq!(client.query("q").build().authorization, None);
    assert_eq!(client.document("a").build().authorization, None);
}

#[test]
fn token_keeps_cdn() {
    let client = SanityClient::new("abc", "production", API).cdn(true).token("T");
    assert!(client.config().use_cdn());
    assert_eq!(client.config().base_url(), "https://abc.apicdn.sanity.io/v2022-01-12/data");
}

#[test]
fn mutating_a_copy_leaves_the_original() {
    let original = SanityClient::new("abc", "production", API);
    let copy = original.clone().cdn(true).token("T");
    assert_eq!(copy.config().base_url(), "https://abc.apicdn.sanity.io/v2022-01-12/data");
    assert_eq!(original.config().base_url(), "https://abc.api.sanity.io/v2022-01-12/data");
    assert_eq!(original.config().token(), None);
    assert_eq!(original.query("q").build().authorization, None);
}

#[test]
fn token_validity() {
    assert!(token_is_valid("abc"));
    assert!(token_is_valid("a b\tc"));
    assert!(token_is_valid("\u{e9}"));
    assert!(!token_is_valid("a\nb"));
    assert!(!token_is_valid("a\u{7f}"));
    assert!(!token_is_valid("\0"));
}

#[test]
fn encode_component_cases() {
    assert_eq!(encode_component("a-b.c_d~e"), "a-b.c_d~e");
    assert_eq!(encode_component(" "), "%20");
    assert_eq!(encode_component("\u{e9}"), "%C3%A9");
    assert_eq!(encode_component("*[]"), "%2A%5B%5D");
    assert_eq!(encode_component(""), "");
}

struct Dimensions {
    width: u32,
    height: u32,
}

struct Asset {
    id: String,
    dimensions: Dimensions,
}

fn asset_of(v: &serde_json::Value) -> Option<Asset> {
    let id = v.get("id")?.as_str()?;
    let d = v.get("dimensions")?;
    let width = d.get("width")?.as_u64()?;
    let height = d.get("height")?.as_u64()?;
    Some(Asset {
        id: String::from(id),
        dimensions: Dimensions { width: width as u32, height: height as u32 },
    })
}

#[test]
fn json_body_decodes() {
    let body = r#"{"ms":12,"query":"q","result":[{"id":"x","dimensions":{"width":10,"height":20}}]}"#;
    let v: serde_json::Value = serde_json::from_str(body).unwrap();
    let result: Vec<Asset> = v["result"].as_array().unwrap().iter().map(|a| asset_of(a).unwrap()).collect();
    let response = ApiResponse {
        ms: v["ms"].as_u64().unwrap() as u32,
        query: String::from(v["query"].as_str().unwrap()),
        result,
    };
    assert_eq!(response.ms, 12);
    assert_eq!(response.query, "q");
    assert_eq!(response.result.len(), 1);
    assert_eq!(response.result[0].id, "x");
    assert_eq!(response.result[0].dimensions.width, 10);
    assert_eq!(response.result[0].dimensions.height, 20);
}
