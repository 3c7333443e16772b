use blob_sync::url::{blob_sidecars_url, get_url, header_url, headers_url};

#[test]
fn get_url_adds_the_missing_slash() {
    assert_eq!(get_url("http://node:5052", "eth/v1/x"), "http://node:5052/eth/v1/x");
}

#[test]
fn get_url_keeps_a_trailing_slash() {
    assert_eq!(get_url("http://node:5052/", "eth/v1/x"), "http://node:5052/eth/v1/x");
}

#[test]
fn get_url_of_an_empty_base_starts_with_a_slash() {
    assert_eq!(get_url("", "p"), "/p");
}

#[test]
fn endpoint_addresses() {
    assert_eq!(
        blob_sidecars_url("http://n", 8626176),
        "http://n/eth/v1/beacon/blob_sidecars/8626176"
    );
    assert_eq!(headers_url("http://n/"), "http://n/eth/v1/beacon/headers");
    assert_eq!(header_url("http://n", 0), "http://n/eth/v1/beacon/headers/0");
    assert_eq!(header_url("http://n", 1000), "http://n/eth/v1/beacon/headers/1000");
}
