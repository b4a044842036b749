//! Key construction for the persistent key-value store.
//!
//! Every persisted entry lives under one of six fixed prefixes; each helper
//! prepends its prefix and a `/` to the caller's key.

use vstd::prelude::*;

verus! {

/// `image_hash => image_name (name:tag)`
pub fn downloaded_images_key(key: &str) -> (r: String)
    ensures
        r@ == "downloaded_images/"@ + key@,
{
    String::from_str("downloaded_images/").concat(key)
}

/// `container_id => command`
pub fn container_commands_key(key: &str) -> (r: String)
    ensures
        r@ == "container_commands/"@ + key@,
{
    String::from_str("container_commands/").concat(key)
}

/// `container_id => image_hash`
pub fn container_image_hashes_key(key: &str) -> (r: String)
    ensures
        r@ == "container_image_hashes/"@ + key@,
{
    String::from_str("container_image_hashes/").concat(key)
}

/// `container_id => pid`
pub fn container_pids_key(key: &str) -> (r: String)
    ensures
        r@ == "container_pids/"@ + key@,
{
    String::from_str("container_pids/").concat(key)
}

/// `ip address => "1"` while the address is reserved
pub fn used_ip_addresses_key(key: &str) -> (r: String)
    ensures
        r@ == "used_ip_addresses/"@ + key@,
{
    String::from_str("used_ip_addresses/").concat(key)
}

/// `veth name => ip address`
pub fn veth_ip_addresses_key(key: &str) -> (r: String)
    ensures
        r@ == "veth_ip_addresses/"@ + key@,
{
    String::from_str("veth_ip_addresses/").concat(key)
}

} // verus!
