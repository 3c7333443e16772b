//! Addresses of the beacon API resources.

use vstd::prelude::*;
use vstd::string::*;
use crate::text::{decimal_text, push_decimal};

verus! {

/// The address of `path` below `base`: the two joined by exactly one added
/// slash, unless `base` already ends in one.
pub open spec fn url_text(base: Seq<char>, path: Seq<char>) -> Seq<char> {
    if base.len() > 0 && base.last() == '/' {
        base + path
    } else {
        base + seq!['/'] + path
    }
}

/// Joins a base address and a relative path.
pub fn get_url(base_url: &str, path: &str) -> (url: String)
    ensures
        url@ == url_text(base_url@, path@),
{
    let n: usize = base_url.unicode_len();
    let mut url = String::from_str(base_url);
    if n == 0 || base_url.get_char(n - 1) != '/' {
        proof {
            reveal_strlit("/");
        }
        url.append("/");
        assert("/"@ =~= seq!['/']);
    }
    url.append(path);
    url
}

/// The path of the sidecars of a slot.
pub open spec fn blob_sidecars_path(slot: usize) -> Seq<char> {
    "eth/v1/beacon/blob_sidecars/"@ + decimal_text(slot as nat)
}

/// The path of the head query.
pub open spec fn headers_path() -> Seq<char> {
    "eth/v1/beacon/headers"@
}

/// The path of the header of a slot.
pub open spec fn header_path(slot: usize) -> Seq<char> {
    "eth/v1/beacon/headers/"@ + decimal_text(slot as nat)
}

/// The address of the sidecars of `slot`.
pub fn blob_sidecars_url(base_url: &str, slot: usize) -> (url: String)
    ensures
        url@ == url_text(base_url@, blob_sidecars_path(slot)),
{
    let mut path = String::from_str("eth/v1/beacon/blob_sidecars/");
    push_decimal(&mut path, slot);
    get_url(base_url, path.as_str())
}

/// The address of the head query.
pub fn headers_url(base_url: &str) -> (url: String)
    ensures
        url@ == url_text(base_url@, headers_path()),
{
    get_url(base_url, "eth/v1/beacon/headers")
}

/// The address of the header of `slot`.
pub fn header_url(base_url: &str, slot: usize) -> (url: String)
    ensures
        url@ == url_text(base_url@, header_path(slot)),
{
    let mut path = String::from_str("eth/v1/beacon/headers/");
    push_decimal(&mut path, slot);
    get_url(base_url, path.as_str())
}

} // verus!
