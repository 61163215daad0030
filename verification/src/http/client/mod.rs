pub mod file_client;

use vstd::prelude::*;
use crate::error::HiveDropError;
use crate::text::{decimal, push_str, u64_to_decimal};

verus! {

/// The address of an endpoint of a peer's service: `https://{address}:{port}{path}`.
pub open spec fn endpoint_url_spec(address: Seq<char>, port: u16, path: Seq<char>) -> Seq<char> {
    "https://"@ + address + ":"@ + decimal(port as nat) + path
}

/// The address of endpoint `path` of the peer at `address:port`.
pub fn endpoint_url(address: &str, port: u16, path: &str) -> (r: String)
    ensures
        r@ == endpoint_url_spec(address@, port, path@),
{
    let mut url = String::new();
    push_str(&mut url, "https://");
    push_str(&mut url, address);
    push_str(&mut url, ":");
    let p = u64_to_decimal(port as u64);
    push_str(&mut url, p.as_str());
    push_str(&mut url, path);
    url
}

/// The address of a file offered by the peer (`/api/file/{file_id}`), for its
/// metadata and its download.
pub fn file_url(address: &str, port: u16, file_id: &str) -> (r: String)
    ensures
        r@ == endpoint_url_spec(address@, port, "/api/file/"@ + file_id@),
{
    let path = crate::text::concat("/api/file/", file_id);
    endpoint_url(address, port, path.as_str())
}

/// The address of the status query of a request
/// (`/api/transfer/request/{request_id}/status`).
pub fn transfer_status_url(address: &str, port: u16, request_id: &str) -> (r: String)
    ensures
        r@ == endpoint_url_spec(address@, port, "/api/transfer/request/"@ + request_id@ + "/status"@),
{
    let path = crate::text::concat3("/api/transfer/request/", request_id, "/status");
    endpoint_url(address, port, path.as_str())
}

/// The error for a reply with an unexpected status: `"{context}，状态码: {status}"`.
pub fn status_failure(context: &str, status: &str) -> (r: HiveDropError)
    ensures
        r matches HiveDropError::NetworkError(s) && s@ == context@ + "，状态码: "@ + status@,
{
    HiveDropError::NetworkError(crate::text::concat3(context, "，状态码: ", status))
}

} // verus!
