use filter_rss_feed::cache_status::{CfCacheStatus, InvalidHeader, RssFilterCacheStatus};
use http::{HeaderMap, HeaderValue};

fn all_statuses() -> Vec<(CfCacheStatus, &'static str)> {
    vec![
        (CfCacheStatus::Hit, "HIT"),
        (CfCacheStatus::Miss, "MISS"),
        (CfCacheStatus::Dynamic, "DYNAMIC"),
        (CfCacheStatus::Expired, "EXPIRED"),
        (CfCacheStatus::Revalidated, "REVALIDATED"),
        (CfCacheStatus::Updating, "UPDATING"),
        (CfCacheStatus::Bypass, "BYPASS"),
        (CfCacheStatus::Other("custom".to_string()), "custom"),
    ]
}

fn decode_from(map: &HeaderMap) -> Result<CfCacheStatus, InvalidHeader> {
    CfCacheStatus::typed_get(map).ok_or(InvalidHeader)
}

#[test]
fn test_decode_success() {
    let cases = vec![
        ("HIT", CfCacheStatus::Hit),
        ("hit", CfCacheStatus::Hit),
        ("Hit", CfCacheStatus::Hit),
        ("MISS", CfCacheStatus::Miss),
        ("miss", CfCacheStatus::Miss),
        ("DYNAMIC", CfCacheStatus::Dynamic),
        ("dynamic", CfCacheStatus::Dynamic),
        ("EXPIRED", CfCacheStatus::Expired),
        ("REVALIDATED", CfCacheStatus::Revalidated),
        ("UPDATING", CfCacheStatus::Updating),
        ("BYPASS", CfCacheStatus::Bypass),
        ("CUSTOM", CfCacheStatus::Other("CUSTOM".to_string())),
        ("unknown-status", CfCacheStatus::Other("unknown-status".to_string())),
    ];
    for (input, expected) in cases {
        let result = CfCacheStatus::decode(&vec![Some(input.to_string())]).unwrap();
        assert_eq!(result, expected);
        assert_eq!(CfCacheStatus::from_str(input).unwrap(), expected);
    }
}

#[test]
fn test_decode_empty_iterator() {
    let result = CfCacheStatus::decode(&Vec::new());
    assert!(result.is_err());
}

#[test]
fn test_decode_invalid_utf8() {
    let header_value = HeaderValue::from_bytes(&[0xFF, 0xFE]).unwrap();
    let mut headers = HeaderMap::new();
    headers.insert("cf-cache-status", header_value);

    let result = decode_from(&headers);
    assert!(result.is_err());
    assert!(CfCacheStatus::decode(&vec![None]).is_err());
}

#[test]
fn test_encode() {
    for (status, expected) in all_statuses() {
        assert_eq!(status.encode(), expected.as_bytes().to_vec());
    }
}

#[test]
fn test_encode_other_with_invalid_characters() {
    let status = CfCacheStatus::Other("invalid\x00char".to_string());
    let value = status.encode();
    assert_eq!(value, b"INVALID".to_vec());
    assert_eq!(std::str::from_utf8(&value).unwrap(), "INVALID");
}

#[test]
fn encode_keeps_a_token_with_bytes_beyond_ascii() {
    let status = CfCacheStatus::Other("caf\u{e9}".to_string());
    assert_eq!(status.encode(), "caf\u{e9}".as_bytes().to_vec());
}

#[test]
fn encode_refuses_a_token_with_a_delete_character() {
    let status = CfCacheStatus::Other("a\x7fb".to_string());
    assert_eq!(status.encode(), b"INVALID".to_vec());
    let status = CfCacheStatus::Other("a\tb".to_string());
    assert_eq!(status.encode(), b"a\tb".to_vec());
}

#[test]
fn test_display() {
    for (status, expected) in all_statuses() {
        assert_eq!(status.to_string(), expected);
    }
}

#[test]
fn test_header_name() {
    assert_eq!(CfCacheStatus::name(), "cf-cache-status");
    assert_eq!(RssFilterCacheStatus::name(), "x-rssfilter-cache-status");
}

#[test]
fn test_roundtrip_encode_decode() {
    let statuses = vec![
        CfCacheStatus::Hit,
        CfCacheStatus::Miss,
        CfCacheStatus::Dynamic,
        CfCacheStatus::Expired,
        CfCacheStatus::Revalidated,
        CfCacheStatus::Updating,
        CfCacheStatus::Bypass,
        CfCacheStatus::Other("custom-status".to_string()),
    ];

    for status in statuses {
        let value = status.encode();
        let mut headers = HeaderMap::new();
        headers.insert("cf-cache-status", HeaderValue::from_bytes(&value).unwrap());
        let decoded = decode_from(&headers).unwrap();
        assert_eq!(status, decoded);
    }
}

#[test]
fn test_header_map_integration() {
    let mut headers = HeaderMap::new();

    assert!(CfCacheStatus::Hit.typed_insert(&mut headers));

    let retrieved = CfCacheStatus::typed_get(&headers).unwrap();
    assert_eq!(retrieved, CfCacheStatus::Hit);

    let header_value = headers.get("cf-cache-status").unwrap();
    assert_eq!(header_value.to_str().unwrap(), "HIT");
}

#[test]
fn test_header_map_replace() {
    let mut headers = HeaderMap::new();

    CfCacheStatus::Miss.typed_insert(&mut headers);
    CfCacheStatus::Hit.typed_insert(&mut headers);

    let retrieved = CfCacheStatus::typed_get(&headers).unwrap();
    assert_eq!(retrieved, CfCacheStatus::Hit);
    assert_eq!(headers.get_all("cf-cache-status").iter().count(), 1);
}

#[test]
fn test_multiple_header_values_takes_first() {
    let mut headers = HeaderMap::new();
    headers.insert("cf-cache-status", HeaderValue::from_static("HIT"));
    headers.append("cf-cache-status", HeaderValue::from_static("MISS"));

    let retrieved = decode_from(&headers).unwrap();
    assert_eq!(retrieved, CfCacheStatus::Hit);
}

#[test]
fn status_is_read_under_its_own_name_only() {
    let mut headers = HeaderMap::new();
    headers.insert("cf-cache-status", HeaderValue::from_static("HIT"));
    assert_eq!(RssFilterCacheStatus::typed_get(&headers), None);
    headers.insert("x-rssfilter-cache-status", HeaderValue::from_static("bypass"));
    assert_eq!(
        RssFilterCacheStatus::typed_get(&headers),
        Some(RssFilterCacheStatus(CfCacheStatus::Bypass))
    );
    assert_eq!(CfCacheStatus::typed_get(&headers), Some(CfCacheStatus::Hit));
    assert_eq!(CfCacheStatus::typed_get(&HeaderMap::new()), None);
}

#[test]
fn status_that_cannot_stand_in_a_header_is_inserted_as_invalid() {
    let mut headers = HeaderMap::new();
    headers.insert("x-rssfilter-cache-status", HeaderValue::from_static("old"));
    headers.append("x-rssfilter-cache-status", HeaderValue::from_static("older"));
    let status = RssFilterCacheStatus(CfCacheStatus::Other("a\nb".to_string()));
    assert!(status.typed_insert(&mut headers));
    let values: Vec<_> = headers.get_all("x-rssfilter-cache-status").iter().collect();
    assert_eq!(values, vec!["INVALID"]);
    let status = RssFilterCacheStatus(CfCacheStatus::Other("custom".to_string()));
    assert!(status.typed_insert(&mut headers));
    assert_eq!(headers.get("x-rssfilter-cache-status").unwrap(), "custom");
}

#[test]
fn rssfilter_status_wraps_the_cache_status() {
    let status = RssFilterCacheStatus::from_str("revalidated").unwrap();
    assert_eq!(status, RssFilterCacheStatus(CfCacheStatus::Revalidated));
    assert_eq!(status.to_string(), "REVALIDATED");
    assert_eq!(status.encode(), b"REVALIDATED".to_vec());
    let decoded = RssFilterCacheStatus::decode(&vec![Some("stale".to_string()), None]).unwrap();
    assert_eq!(decoded, RssFilterCacheStatus(CfCacheStatus::Other("stale".to_string())));
    assert!(RssFilterCacheStatus::decode(&vec![None, Some("HIT".to_string())]).is_err());
    assert!(RssFilterCacheStatus::decode(&Vec::new()).is_err());
}

#[test]
fn from_upper_goes_by_the_upper_case_form() {
    assert_eq!(CfCacheStatus::from_upper("HIT", "hit"), CfCacheStatus::Hit);
    assert_eq!(
        CfCacheStatus::from_upper("hit", "hit"),
        CfCacheStatus::Other("hit".to_string())
    );
    assert_eq!(
        CfCacheStatus::from_upper("STALE", "Stale"),
        CfCacheStatus::Other("Stale".to_string())
    );
}
