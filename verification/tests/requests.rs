use song_recognition::body::SignatureSummary;
use song_recognition::error::RecognitionError;
use song_recognition::identity::identity_from_draws;
use song_recognition::request::{
    assemble_asset_fetch, assemble_recognition, build_recognition_url, prepare_asset_fetch,
    prepare_recognition, query_parameters, ASSET_TIMEOUT_SECS, RECOGNITION_TIMEOUT_SECS,
};

const POOL: [&str; 2] = [
    "Dalvik/2.1.0 (Linux; U; Android 5.0.2; VS980 4G Build/LRX22G)",
    "Dalvik/1.6.0 (Linux; U; Android 4.4.2; SM-T210 Build/KOT49H)",
];

const FIRST_ID: &str = "936da01f-9abd-4d9d-80c7-02af85c822a8";
const SECOND_ID: &str = "0b1a2c3d-4e5f-4a6b-8c7d-9e0f1a2b3c4d";

fn summary(uri: Option<&str>) -> SignatureSummary {
    SignatureSummary {
        number_samples: 96_000,
        sample_rate_hz: 16_000,
        encoded_uri: uri.map(String::from),
    }
}

#[test]
fn url_holds_both_identifiers_in_order() {
    assert_eq!(
        build_recognition_url("936DA01F-9ABD-4D9D-80C7-02AF85C822A8", SECOND_ID),
        "https://amp.shazam.com/discovery/v5/en/US/android/-/tag/\
         936DA01F-9ABD-4D9D-80C7-02AF85C822A8/0b1a2c3d-4e5f-4a6b-8c7d-9e0f1a2b3c4d"
    );
}

#[test]
fn query_is_the_fixed_list() {
    assert_eq!(
        query_parameters(),
        vec![
            ("sync", "true"),
            ("webv3", "true"),
            ("sampling", "true"),
            ("connected", ""),
            ("shazamapiversion", "v3"),
            ("sharehub", "true"),
            ("video", "v3"),
        ]
    );
}

#[test]
fn timeouts_are_fifteen_and_twenty_seconds() {
    assert_eq!(RECOGNITION_TIMEOUT_SECS, 15);
    assert_eq!(ASSET_TIMEOUT_SECS, 20);
}

#[test]
fn assembled_request_presents_signature_and_identity() {
    let identity = identity_from_draws(FIRST_ID, SECOND_ID, POOL[0]);
    let request = assemble_recognition(summary(Some("sig-uri")), 1_700_000_000_123, identity).unwrap();
    assert_eq!(
        request.url,
        "https://amp.shazam.com/discovery/v5/en/US/android/-/tag/\
         936DA01F-9ABD-4D9D-80C7-02AF85C822A8/0b1a2c3d-4e5f-4a6b-8c7d-9e0f1a2b3c4d"
    );
    assert_eq!(request.query, query_parameters());
    assert_eq!(request.headers.user_agent, POOL[0]);
    assert_eq!(request.headers.content_language, "en_US");
    assert_eq!(request.body.signature.samplems, 6000);
    assert_eq!(request.body.signature.uri, "sig-uri");
    assert_eq!(request.body.signature.timestamp, 3_487_918_203);
    assert_eq!(request.body.timestamp, 3_487_918_203);
    assert_eq!(request.timeout_secs, 15);
}

#[test]
fn assembly_without_encoding_is_an_encoding_error() {
    let identity = identity_from_draws(FIRST_ID, SECOND_ID, POOL[0]);
    let assembled = assemble_recognition(summary(None), 0, identity);
    assert_eq!(assembled.err(), Some(RecognitionError::Encoding));
}

#[test]
fn assembly_with_a_broken_user_agent_is_a_configuration_error() {
    let identity = identity_from_draws(FIRST_ID, SECOND_ID, "agent\n");
    let assembled = assemble_recognition(summary(Some("sig-uri")), 0, identity);
    assert_eq!(assembled.err(), Some(RecognitionError::Configuration));
}

#[test]
fn encoding_error_comes_before_the_user_agent_is_looked_at() {
    let identity = identity_from_draws(FIRST_ID, SECOND_ID, "agent\n");
    let assembled = assemble_recognition(summary(None), 0, identity);
    assert_eq!(assembled.err(), Some(RecognitionError::Encoding));
}

#[test]
fn prepared_request_uses_a_new_identity_from_the_pool() {
    let request = prepare_recognition(summary(Some("sig-uri")), 1_700_000_000_123, &POOL).unwrap();
    let prefix = "https://amp.shazam.com/discovery/v5/en/US/android/-/tag/";
    assert!(request.url.starts_with(prefix));
    let ids: Vec<&str> = request.url[prefix.len()..].split('/').collect();
    assert_eq!(ids.len(), 2);
    assert_eq!(ids[0].len(), 36);
    assert_eq!(ids[1].len(), 36);
    assert_eq!(ids[0], ids[0].to_uppercase());
    assert_eq!(ids[1], ids[1].to_lowercase());
    assert!(POOL.contains(&request.headers.user_agent.as_str()));
    assert_eq!(request.body.timestamp, request.body.signature.timestamp);
    assert_eq!(request.timeout_secs, 15);
}

#[test]
fn two_prepared_requests_go_to_different_addresses() {
    let first = prepare_recognition(summary(Some("sig-uri")), 1, &POOL).unwrap();
    let second = prepare_recognition(summary(Some("sig-uri")), 1, &POOL).unwrap();
    assert_ne!(first.url, second.url);
}

#[test]
fn preparing_without_encoding_is_an_encoding_error() {
    let prepared = prepare_recognition(summary(None), 1, &POOL);
    assert_eq!(prepared.err(), Some(RecognitionError::Encoding));
}

#[test]
fn preparing_with_a_broken_pool_is_a_configuration_error() {
    let prepared = prepare_recognition(summary(Some("sig-uri")), 1, &["agent\r\n"]);
    assert_eq!(prepared.err(), Some(RecognitionError::Configuration));
}

#[test]
fn asset_request_asks_for_the_address_as_given() {
    let request = assemble_asset_fetch("https://images.example/cover.jpg?size=400", POOL[1]).unwrap();
    assert_eq!(request.url, "https://images.example/cover.jpg?size=400");
    assert_eq!(request.headers.user_agent, POOL[1]);
    assert_eq!(request.headers.content_language, "en_US");
    assert_eq!(request.timeout_secs, 20);
}

#[test]
fn asset_request_with_a_broken_user_agent_is_an_asset_error() {
    let assembled = assemble_asset_fetch("https://images.example/cover.jpg", "agent\u{7f}");
    assert_eq!(assembled.err(), Some(RecognitionError::AssetFetch));
}

#[test]
fn prepared_asset_request_draws_from_the_pool() {
    let request = prepare_asset_fetch("https://images.example/cover.jpg", &POOL).unwrap();
    assert_eq!(request.url, "https://images.example/cover.jpg");
    assert!(POOL.contains(&request.headers.user_agent.as_str()));
    assert_eq!(request.timeout_secs, 20);
}

#[test]
fn preparing_an_asset_request_with_a_broken_pool_is_an_asset_error() {
    let prepared = prepare_asset_fetch("https://images.example/cover.jpg", &["agent\n"]);
    assert_eq!(prepared.err(), Some(RecognitionError::AssetFetch));
}
