use vstd::prelude::*;
use dashmap::DashMap;
use crate::dto::request::TransferRequest;
use crate::types::{DeviceInfo, PendingReceiveFileInfo, PendingSendFileInfo};

verus! {

/// A concurrent hash map (`dashmap::DashMap`); its contents are given by the
/// `*_table` names below, one for each kind of entry the service keeps.
#[verifier::external_type_specification]
#[verifier::external_body]
#[verifier::reject_recursive_types(K)]
#[verifier::reject_recursive_types(V)]
#[verifier::reject_recursive_types(S)]
pub struct ExDashMap<K, V, S>(DashMap<K, V, S>);

/// The views of the entries of a table.
pub open spec fn views<V: View>(t: Map<Seq<char>, V>) -> Map<Seq<char>, V::V> {
    t.map_values(|x: V| x@)
}

/// Inserting an entry inserts its view.
pub proof fn lemma_views_insert<V: View>(t: Map<Seq<char>, V>, k: Seq<char>, v: V)
    ensures
        views(t.insert(k, v)) == views(t).insert(k, v@),
{
    assert(views(t.insert(k, v)) =~= views(t).insert(k, v@));
}

/// Removing an entry removes its view.
pub proof fn lemma_views_remove<V: View>(t: Map<Seq<char>, V>, k: Seq<char>)
    ensures
        views(t.remove(k)) == views(t).remove(k),
{
    assert(views(t.remove(k)) =~= views(t).remove(k));
}

/// An empty table has no views.
pub proof fn lemma_views_empty<V: View>(t: Map<Seq<char>, V>)
    requires
        t == Map::<Seq<char>, V>::empty(),
    ensures
        views(t) == Map::<Seq<char>, V::V>::empty(),
{
    assert(views(t) =~= Map::<Seq<char>, V::V>::empty());
}

/// `v` holds one copy of each entry of `m` (by view), in some order.
pub open spec fn lists_exactly<V: View>(v: Seq<V>, m: Map<Seq<char>, V::V>) -> bool {
    &&& v.len() == m.dom().len()
    &&& forall|i: int| #![trigger v[i]] 0 <= i < v.len()
        ==> exists|k: Seq<char>| #[trigger] m.contains_key(k) && m[k] == v[i]@
    &&& forall|k: Seq<char>| #[trigger] m.contains_key(k)
        ==> exists|i: int| 0 <= i < v.len() && v[i]@ == m[k]
}

/// A device table with no entries.
pub open spec fn no_devices() -> Map<Seq<char>, DeviceInfo> {
    Map::empty()
}

/// A request table with no entries.
pub open spec fn no_requests() -> Map<Seq<char>, TransferRequest> {
    Map::empty()
}

/// A table of files to send with no entries.
pub open spec fn no_send_files() -> Map<Seq<char>, PendingSendFileInfo> {
    Map::empty()
}

/// A table of files to receive with no entries.
pub open spec fn no_receive_files() -> Map<Seq<char>, PendingReceiveFileInfo> {
    Map::empty()
}

/// What a map of known devices holds, by device id.
pub uninterp spec fn device_table(m: DashMap<String, DeviceInfo>) -> Map<Seq<char>, DeviceInfo>;

/// What a map of transfer requests holds, by request id.
pub uninterp spec fn request_table(m: DashMap<String, TransferRequest>) -> Map<Seq<char>, TransferRequest>;

/// What a map of files to send holds, by file id.
pub uninterp spec fn send_file_table(m: DashMap<String, PendingSendFileInfo>) -> Map<Seq<char>, PendingSendFileInfo>;

/// What a map of files to receive holds, by file id.
pub uninterp spec fn receive_file_table(m: DashMap<String, PendingReceiveFileInfo>) -> Map<Seq<char>, PendingReceiveFileInfo>;

/// An empty map of known devices (`DashMap::new`).
/// Trusted: it holds nothing.
#[verifier::external_body]
pub(crate) fn devices_new() -> (m: DashMap<String, DeviceInfo>)
    ensures
        device_table(m) == no_devices(),
{
    DashMap::new()
}

/// Whether the map of known devices has an entry under `key` (`DashMap::contains_key`).
/// Trusted: the answer is whether the contents hold `key`.
#[verifier::external_body]
pub(crate) fn devices_contains(m: &DashMap<String, DeviceInfo>, key: &str) -> (r: bool)
    ensures
        r == device_table(*m).contains_key(key@),
{
    m.contains_key(key)
}

/// A copy of the entry under `key` in the map of known devices (`DashMap::get`,
/// copying the entry with a verified `duplicate`).
/// Trusted: `None` exactly when there is no such entry, else a copy of it.
#[verifier::external_body]
pub(crate) fn devices_get(m: &DashMap<String, DeviceInfo>, key: &str) -> (r: Option<DeviceInfo>)
    ensures
        r is None <==> !device_table(*m).contains_key(key@),
        r matches Some(v) ==> v@ == device_table(*m)[key@]@,
{
    m.get(key).map(|e| e.value().duplicate())
}

/// Puts `value` under `key` in the map of known devices, replacing any entry there
/// (`DashMap::insert`).
/// Trusted: the contents become the old ones with `key` mapped to `value`.
#[verifier::external_body]
pub(crate) fn devices_insert(m: &mut DashMap<String, DeviceInfo>, key: String, value: DeviceInfo)
    ensures
        device_table(*final(m)) == device_table(*old(m)).insert(key@, value),
{
    m.insert(key, value);
}

/// Copies of all entries of the map of known devices (`DashMap::iter`, copying each
/// entry with a verified `duplicate`).
/// Trusted: one copy of each entry, in the order of the map's iteration, which
/// the hash of each key decides and which is left unsaid.
#[verifier::external_body]
pub(crate) fn devices_values(m: &DashMap<String, DeviceInfo>) -> (r: Vec<DeviceInfo>)
    ensures
        lists_exactly(r@, views(device_table(*m))),
{
    m.iter().map(|e| e.value().duplicate()).collect()
}

/// Removes every entry of the map of known devices (`DashMap::clear`).
/// Trusted: the contents become empty.
#[verifier::external_body]
pub(crate) fn devices_clear(m: &mut DashMap<String, DeviceInfo>)
    ensures
        device_table(*final(m)) == no_devices(),
{
    m.clear();
}
/// An empty map of transfer requests (`DashMap::new`).
/// Trusted: it holds nothing.
#[verifier::external_body]
pub(crate) fn requests_new() -> (m: DashMap<String, TransferRequest>)
    ensures
        request_table(m) == no_requests(),
{
    DashMap::new()
}

/// Whether the map of transfer requests has an entry under `key` (`DashMap::contains_key`).
/// Trusted: the answer is whether the contents hold `key`.
#[verifier::external_body]
pub(crate) fn requests_contains(m: &DashMap<String, TransferRequest>, key: &str) -> (r: bool)
    ensures
        r == request_table(*m).contains_key(key@),
{
    m.contains_key(key)
}

/// A copy of the entry under `key` in the map of transfer requests (`DashMap::get`,
/// copying the entry with a verified `duplicate`).
/// Trusted: `None` exactly when there is no such entry, else a copy of it.
#[verifier::external_body]
pub(crate) fn requests_get(m: &DashMap<String, TransferRequest>, key: &str) -> (r: Option<TransferRequest>)
    ensures
        r is None <==> !request_table(*m).contains_key(key@),
        r matches Some(v) ==> v@ == request_table(*m)[key@]@,
{
    m.get(key).map(|e| e.value().duplicate())
}

/// Puts `value` under `key` in the map of transfer requests, replacing any entry there
/// (`DashMap::insert`).
/// Trusted: the contents become the old ones with `key` mapped to `value`.
#[verifier::external_body]
pub(crate) fn requests_insert(m: &mut DashMap<String, TransferRequest>, key: String, value: TransferRequest)
    ensures
        request_table(*final(m)) == request_table(*old(m)).insert(key@, value),
{
    m.insert(key, value);
}

/// Removes the entry under `key` from the map of transfer requests, if any (`DashMap::remove`).
/// Trusted: the contents become the old ones without `key`.
#[verifier::external_body]
pub(crate) fn requests_remove(m: &mut DashMap<String, TransferRequest>, key: &str)
    ensures
        request_table(*final(m)) == request_table(*old(m)).remove(key@),
{
    m.remove(key);
}

/// Copies of all entries of the map of transfer requests (`DashMap::iter`, copying each
/// entry with a verified `duplicate`).
/// Trusted: one copy of each entry, in the order of the map's iteration, which
/// the hash of each key decides and which is left unsaid.
#[verifier::external_body]
pub(crate) fn requests_values(m: &DashMap<String, TransferRequest>) -> (r: Vec<TransferRequest>)
    ensures
        lists_exactly(r@, views(request_table(*m))),
{
    m.iter().map(|e| e.value().duplicate()).collect()
}

/// Removes every entry of the map of transfer requests (`DashMap::clear`).
/// Trusted: the contents become empty.
#[verifier::external_body]
pub(crate) fn requests_clear(m: &mut DashMap<String, TransferRequest>)
    ensures
        request_table(*final(m)) == no_requests(),
{
    m.clear();
}
/// An empty map of files to send (`DashMap::new`).
/// Trusted: it holds nothing.
#[verifier::external_body]
pub(crate) fn send_files_new() -> (m: DashMap<String, PendingSendFileInfo>)
    ensures
        send_file_table(m) == no_send_files(),
{
    DashMap::new()
}

/// Whether the map of files to send has an entry under `key` (`DashMap::contains_key`).
/// Trusted: the answer is whether the contents hold `key`.
#[verifier::external_body]
pub(crate) fn send_files_contains(m: &DashMap<String, PendingSendFileInfo>, key: &str) -> (r: bool)
    ensures
        r == send_file_table(*m).contains_key(key@),
{
    m.contains_key(key)
}

/// A copy of the entry under `key` in the map of files to send (`DashMap::get`,
/// copying the entry with a verified `duplicate`).
/// Trusted: `None` exactly when there is no such entry, else a copy of it.
#[verifier::external_body]
pub(crate) fn send_files_get(m: &DashMap<String, PendingSendFileInfo>, key: &str) -> (r: Option<PendingSendFileInfo>)
    ensures
        r is None <==> !send_file_table(*m).contains_key(key@),
        r matches Some(v) ==> v@ == send_file_table(*m)[key@]@,
{
    m.get(key).map(|e| e.value().duplicate())
}

/// Puts `value` under `key` in the map of files to send, replacing any entry there
/// (`DashMap::insert`).
/// Trusted: the contents become the old ones with `key` mapped to `value`.
#[verifier::external_body]
pub(crate) fn send_files_insert(m: &mut DashMap<String, PendingSendFileInfo>, key: String, value: PendingSendFileInfo)
    ensures
        send_file_table(*final(m)) == send_file_table(*old(m)).insert(key@, value),
{
    m.insert(key, value);
}

/// Removes the entry under `key` from the map of files to send, if any (`DashMap::remove`).
/// Trusted: the contents become the old ones without `key`.
#[verifier::external_body]
pub(crate) fn send_files_remove(m: &mut DashMap<String, PendingSendFileInfo>, key: &str)
    ensures
        send_file_table(*final(m)) == send_file_table(*old(m)).remove(key@),
{
    m.remove(key);
}

/// Copies of all entries of the map of files to send (`DashMap::iter`, copying each
/// entry with a verified `duplicate`).
/// Trusted: one copy of each entry, in the order of the map's iteration, which
/// the hash of each key decides and which is left unsaid.
#[verifier::external_body]
pub(crate) fn send_files_values(m: &DashMap<String, PendingSendFileInfo>) -> (r: Vec<PendingSendFileInfo>)
    ensures
        lists_exactly(r@, views(send_file_table(*m))),
{
    m.iter().map(|e| e.value().duplicate()).collect()
}
/// An empty map of files to receive (`DashMap::new`).
/// Trusted: it holds nothing.
#[verifier::external_body]
pub(crate) fn receive_files_new() -> (m: DashMap<String, PendingReceiveFileInfo>)
    ensures
        receive_file_table(m) == no_receive_files(),
{
    DashMap::new()
}

/// Whether the map of files to receive has an entry under `key` (`DashMap::contains_key`).
/// Trusted: the answer is whether the contents hold `key`.
#[verifier::external_body]
pub(crate) fn receive_files_contains(m: &DashMap<String, PendingReceiveFileInfo>, key: &str) -> (r: bool)
    ensures
        r == receive_file_table(*m).contains_key(key@),
{
    m.contains_key(key)
}

/// A copy of the entry under `key` in the map of files to receive (`DashMap::get`,
/// copying the entry with a verified `duplicate`).
/// Trusted: `None` exactly when there is no such entry, else a copy of it.
#[verifier::external_body]
pub(crate) fn receive_files_get(m: &DashMap<String, PendingReceiveFileInfo>, key: &str) -> (r: Option<PendingReceiveFileInfo>)
    ensures
        r is None <==> !receive_file_table(*m).contains_key(key@),
        r matches Some(v) ==> v@ == receive_file_table(*m)[key@]@,
{
    m.get(key).map(|e| e.value().duplicate())
}

/// Puts `value` under `key` in the map of files to receive, replacing any entry there
/// (`DashMap::insert`).
/// Trusted: the contents become the old ones with `key` mapped to `value`.
#[verifier::external_body]
pub(crate) fn receive_files_insert(m: &mut DashMap<String, PendingReceiveFileInfo>, key: String, value: PendingReceiveFileInfo)
    ensures
        receive_file_table(*final(m)) == receive_file_table(*old(m)).insert(key@, value),
{
    m.insert(key, value);
}

/// Removes the entry under `key` from the map of files to receive, if any (`DashMap::remove`).
/// Trusted: the contents become the old ones without `key`.
#[verifier::external_body]
pub(crate) fn receive_files_remove(m: &mut DashMap<String, PendingReceiveFileInfo>, key: &str)
    ensures
        receive_file_table(*final(m)) == receive_file_table(*old(m)).remove(key@),
{
    m.remove(key);
}

/// Copies of all entries of the map of files to receive (`DashMap::iter`, copying each
/// entry with a verified `duplicate`).
/// Trusted: one copy of each entry, in the order of the map's iteration, which
/// the hash of each key decides and which is left unsaid.
#[verifier::external_body]
pub(crate) fn receive_files_values(m: &DashMap<String, PendingReceiveFileInfo>) -> (r: Vec<PendingReceiveFileInfo>)
    ensures
        lists_exactly(r@, views(receive_file_table(*m))),
{
    m.iter().map(|e| e.value().duplicate()).collect()
}

} // verus!
