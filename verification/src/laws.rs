use vstd::prelude::*;
use crate::dto::request::{FileInfoView, RequestView};
use crate::http::download_manage::{chunk_end_spec, chunk_schedule, collect_spec, handed_out};
use crate::http::server::transfer_handler::{
    cancel_spec, transfer_progress_spec, transfer_response_spec, without_receive_files, without_send_files,
};
use crate::types::status_name;
use crate::text::{ascii_lower, is_ascii_text};
use crate::http::server::transfer_handler::reported_status;
use crate::http::download_manage::{task_matches, DownloadTask};
use crate::http::service::{
    add_sent_spec, first_failure, listed_files, outgoing_request, peer_status_spec, scanned_device, with_send_files,
};
use crate::types::file_info_of;
use crate::http::service::{
    with_request_status, accept_spec, add_accepted_files, add_pending_spec, by_paths_outcome, receive_entry, scan_spec, shutdown_spec,
    start_spec, stop_spec, OutgoingTransferRequest, PathListing, ServiceModel,
};
use crate::types::{ReceiveFileView, SendFileView, TransferStatus};

verus! {

/// A received request is kept under its id, and a second request with the same
/// id changes nothing: the first one stays.
pub proof fn law_pending_request_kept(m: ServiceModel, r: RequestView, r2: RequestView)
    requires
        !m.pending.contains_key(r.request_id),
        r2.request_id == r.request_id,
    ensures
        add_pending_spec(m, r).pending.contains_key(r.request_id),
        add_pending_spec(m, r).pending[r.request_id] == r,
        add_pending_spec(add_pending_spec(m, r), r2) == add_pending_spec(m, r),
{
}

/// Starting twice is starting once; stopping a started service leaves it as
/// stopping it would, and not running.
pub proof fn law_start_stop(m: ServiceModel)
    ensures
        start_spec(start_spec(m)) == start_spec(m),
        stop_spec(start_spec(m)) == stop_spec(m),
        !stop_spec(start_spec(m)).running,
        start_spec(m).running,
{
}

/// Shutting down forgets every device and request and keeps the files; doing it
/// twice is doing it once.
pub proof fn law_shutdown(m: ServiceModel)
    ensures
        shutdown_spec(m).devices.dom().is_empty(),
        shutdown_spec(m).pending.dom().is_empty(),
        shutdown_spec(m).sent.dom().is_empty(),
        shutdown_spec(m).send_files == m.send_files,
        shutdown_spec(m).receive_files == m.receive_files,
        !shutdown_spec(m).running,
        shutdown_spec(shutdown_spec(m)) == shutdown_spec(m),
{
}

proof fn lemma_accepted_file(
    m: Map<Seq<char>, ReceiveFileView>,
    req: RequestView,
    files: Seq<FileInfoView>,
    save_path: Seq<char>,
    excluded: Seq<Seq<char>>,
    i: int,
)
    requires
        0 <= i < files.len(),
        !excluded.contains(files[i].file_id),
        forall|j: int| i < j < files.len() ==> #[trigger] files[j].file_id != files[i].file_id,
    ensures
        add_accepted_files(m, req, files, save_path, excluded).contains_key(files[i].file_id),
        add_accepted_files(m, req, files, save_path, excluded)[files[i].file_id]
            == receive_entry(req, files[i], save_path),
    decreases files.len(),
{
    if i < files.len() - 1 {
        lemma_accepted_file(m, req, files.drop_last(), save_path, excluded, i);
        assert(files.drop_last()[i] == files[i]);
        assert(files.last().file_id != files[i].file_id);
    }
}

proof fn lemma_accept_keeps(
    m: Map<Seq<char>, ReceiveFileView>,
    req: RequestView,
    files: Seq<FileInfoView>,
    save_path: Seq<char>,
    excluded: Seq<Seq<char>>,
    k: Seq<char>,
)
    requires
        forall|j: int| 0 <= j < files.len() ==> #[trigger] files[j].file_id != k || excluded.contains(files[j].file_id),
    ensures
        add_accepted_files(m, req, files, save_path, excluded).contains_key(k) == m.contains_key(k),
        m.contains_key(k) ==> add_accepted_files(m, req, files, save_path, excluded)[k] == m[k],
    decreases files.len(),
{
    if files.len() > 0 {
        assert forall|j: int| 0 <= j < files.drop_last().len() implies
            #[trigger] files.drop_last()[j].file_id != k || excluded.contains(files.drop_last()[j].file_id) by {
            assert(files.drop_last()[j] == files[j]);
        }
        lemma_accept_keeps(m, req, files.drop_last(), save_path, excluded, k);
        assert(files[files.len() - 1] == files.last());
    }
}

/// Accepting a pending request makes each of its files that is not excluded a
/// file to receive, accepted, saved at `save_path/relative path`, with nothing
/// received (when a request lists an id twice, the last listing counts); the
/// excluded files add nothing; the request stays pending and records that it
/// was accepted.
pub proof fn law_accept_request(m: ServiceModel, request_id: Seq<char>, save_path: Seq<char>, excluded: Seq<Seq<char>>, i: int)
    requires
        m.pending.contains_key(request_id),
        0 <= i < m.pending[request_id].files.len(),
    ensures
        ({
            let req = m.pending[request_id];
            let f = req.files[i];
            let after = accept_spec(m, request_id, save_path, excluded);
            &&& !excluded.contains(f.file_id)
                && (forall|j: int| i < j < req.files.len() ==> #[trigger] req.files[j].file_id != f.file_id) ==> {
                &&& after.receive_files.contains_key(f.file_id)
                &&& after.receive_files[f.file_id] == receive_entry(req, f, save_path)
                &&& after.receive_files[f.file_id].status == TransferStatus::Accepted
                &&& after.receive_files[f.file_id].file_absolute_path == save_path + "/"@ + f.file_path
                &&& after.receive_files[f.file_id].progress == 0
            }
            &&& (forall|j: int| 0 <= j < req.files.len() ==> #[trigger] req.files[j].file_id != f.file_id
                || excluded.contains(req.files[j].file_id)) ==>
                after.receive_files.contains_key(f.file_id) == m.receive_files.contains_key(f.file_id)
            &&& after.pending.dom() == m.pending.dom()
            &&& after.pending[request_id] == (RequestView { status: status_name(TransferStatus::Accepted), ..req })
            &&& after.sent == m.sent
        }),
{
    let req = m.pending[request_id];
    let f = req.files[i];
    let req1 = with_request_status(m, request_id, TransferStatus::Accepted).pending[request_id];
    assert(req1.files == req.files);
    assert(receive_entry(req1, f, save_path) == receive_entry(req, f, save_path));
    assert(accept_spec(m, request_id, save_path, excluded).pending.dom() =~= m.pending.dom());
    if !excluded.contains(f.file_id) && (forall|j: int| i < j < req.files.len() ==> #[trigger] req.files[j].file_id != f.file_id) {
        lemma_accepted_file(m.receive_files, req1, req1.files, save_path, excluded, i);
    }
    if forall|j: int| 0 <= j < req.files.len() ==> #[trigger] req.files[j].file_id != f.file_id
        || excluded.contains(req.files[j].file_id) {
        lemma_accept_keeps(m.receive_files, req1, req1.files, save_path, excluded, f.file_id);
    }
}

proof fn lemma_without_send_files(m: Map<Seq<char>, SendFileView>, files: Seq<FileInfoView>, k: Seq<char>)
    ensures
        (exists|j: int| 0 <= j < files.len() && files[j].file_id == k) ==> !without_send_files(m, files).contains_key(k),
        (forall|j: int| 0 <= j < files.len() ==> files[j].file_id != k) ==>
            without_send_files(m, files).contains_key(k) == m.contains_key(k)
            && (m.contains_key(k) ==> without_send_files(m, files)[k] == m[k]),
    decreases files.len(),
{
    if files.len() > 0 {
        lemma_without_send_files(m, files.drop_last(), k);
        if exists|j: int| 0 <= j < files.len() && files[j].file_id == k {
            let j = choose|j: int| 0 <= j < files.len() && files[j].file_id == k;
            if j < files.len() - 1 {
                assert(files.drop_last()[j] == files[j]);
            }
        }
        if forall|j: int| 0 <= j < files.len() ==> files[j].file_id != k {
            assert forall|j: int| 0 <= j < files.drop_last().len() implies files.drop_last()[j].file_id != k by {
                assert(files.drop_last()[j] == files[j]);
            }
            assert(files[files.len() - 1].file_id != k);
        }
    }
}

proof fn lemma_without_receive_files(m: Map<Seq<char>, ReceiveFileView>, files: Seq<FileInfoView>, k: Seq<char>)
    ensures
        (exists|j: int| 0 <= j < files.len() && files[j].file_id == k) ==> !without_receive_files(m, files).contains_key(k),
        (forall|j: int| 0 <= j < files.len() ==> files[j].file_id != k) ==>
            without_receive_files(m, files).contains_key(k) == m.contains_key(k),
    decreases files.len(),
{
    if files.len() > 0 {
        lemma_without_receive_files(m, files.drop_last(), k);
        if exists|j: int| 0 <= j < files.len() && files[j].file_id == k {
            let j = choose|j: int| 0 <= j < files.len() && files[j].file_id == k;
            if j < files.len() - 1 {
                assert(files.drop_last()[j] == files[j]);
            }
        }
        if forall|j: int| 0 <= j < files.len() ==> files[j].file_id != k {
            assert forall|j: int| 0 <= j < files.drop_last().len() implies files.drop_last()[j].file_id != k by {
                assert(files.drop_last()[j] == files[j]);
            }
            assert(files[files.len() - 1].file_id != k);
        }
    }
}

/// Cancelling a request forgets it on both sides, and none of its files remain
/// to send or to receive.
pub proof fn law_cancel_forgets(m: ServiceModel, request_id: Seq<char>, k: Seq<char>)
    ensures
        !cancel_spec(m, request_id).pending.contains_key(request_id),
        !cancel_spec(m, request_id).sent.contains_key(request_id),
        m.pending.contains_key(request_id)
            && (exists|j: int| 0 <= j < m.pending[request_id].files.len() && m.pending[request_id].files[j].file_id == k)
            ==> !cancel_spec(m, request_id).receive_files.contains_key(k),
        m.sent.contains_key(request_id)
            && (exists|j: int| 0 <= j < m.sent[request_id].files.len() && m.sent[request_id].files[j].file_id == k)
            ==> !cancel_spec(m, request_id).send_files.contains_key(k),
{
    if m.pending.contains_key(request_id) {
        lemma_without_receive_files(m.receive_files, m.pending[request_id].files, k);
    }
    if m.sent.contains_key(request_id) {
        let m1 = if m.pending.contains_key(request_id) {
            ServiceModel {
                receive_files: without_receive_files(m.receive_files, m.pending[request_id].files),
                pending: m.pending.remove(request_id),
                ..m
            }
        } else {
            m
        };
        assert(m1.sent == m.sent);
        lemma_without_send_files(m1.send_files, m.sent[request_id].files, k);
    }
}

/// A rejection withdraws every file of the rejected request, and only those.
pub proof fn law_rejection_withdraws(m: ServiceModel, request_id: Seq<char>, k: Seq<char>)
    requires
        m.sent.contains_key(request_id),
    ensures
        (exists|j: int| 0 <= j < m.sent[request_id].files.len() && m.sent[request_id].files[j].file_id == k)
            ==> !transfer_response_spec(m, request_id, "rejected"@).send_files.contains_key(k),
        (forall|j: int| 0 <= j < m.sent[request_id].files.len() ==> m.sent[request_id].files[j].file_id != k)
            ==> transfer_response_spec(m, request_id, "rejected"@).send_files.contains_key(k) == m.send_files.contains_key(k),
        transfer_response_spec(m, request_id, "accepted"@) == m,
{
    lemma_without_send_files(m.send_files, m.sent[request_id].files, k);
    assert("accepted"@ != "rejected"@) by {
        reveal_strlit("accepted");
        reveal_strlit("rejected");
        assert("accepted"@[0] != "rejected"@[0]);
    }
}

/// A file reported completed is no longer offered; a file reported in progress
/// records the bytes received.
pub proof fn law_progress_report(m: ServiceModel, p: crate::dto::request::ProgressView)
    requires
        m.sent.contains_key(p.request_id),
        m.send_files.contains_key(p.file_id),
    ensures
        p.status == TransferStatus::Completed ==> !transfer_progress_spec(m, p).send_files.contains_key(p.file_id),
        p.status != TransferStatus::Completed ==> transfer_progress_spec(m, p).send_files[p.file_id].progress == p.bytes_received,
{
}

/// Handing out the downloads leaves no accepted file to receive, and doing it
/// again changes nothing more: each file is handed out once.
pub proof fn law_downloads_handed_out_once(m: ServiceModel, k: Seq<char>)
    ensures
        collect_spec(m).receive_files.contains_key(k) ==> collect_spec(m).receive_files[k].status != TransferStatus::Accepted,
        collect_spec(collect_spec(m)) == collect_spec(m),
{
    let once = collect_spec(m);
    let twice = collect_spec(once);
    assert(twice.receive_files =~= once.receive_files);
}

/// A scan leaves the device known, reachable at the scanned address; scanning
/// the same address again adds no second copy of it.
pub proof fn law_scan_records_address(m: ServiceModel, addr: Seq<char>, port: u16, id: Seq<char>, online: bool, version: Seq<char>)
    ensures
        scan_spec(m, addr, port, id, online, version).devices.contains_key(id),
        scan_spec(m, addr, port, id, online, version).devices[id].address.contains(addr),
        scan_spec(scan_spec(m, addr, port, id, online, version), addr, port, id, online, version).devices[id].address
            == scan_spec(m, addr, port, id, online, version).devices[id].address,
{
    let d = scan_spec(m, addr, port, id, online, version).devices[id];
    if m.devices.contains_key(id) {
        let old_addr = m.devices[id].address;
        if !old_addr.contains(addr) {
            assert(old_addr.push(addr)[old_addr.len() as int] == addr);
        }
    } else {
        assert(seq![addr][0] == addr);
    }
}

/// The chunks a download asks for, when each arrives whole, follow one another
/// without gap or overlap from `offset` to the last byte, and none is longer
/// than a chunk.
pub proof fn law_chunks_cover(offset: int, chunk: int, len: int)
    requires
        0 <= offset < len,
        chunk > 0,
    ensures
        ({
            let s = chunk_schedule(offset, chunk, len);
            &&& s.len() > 0
            &&& s[0].0 == offset
            &&& s.last().1 == len - 1
            &&& forall|i: int| 0 <= i < s.len() ==> (#[trigger] s[i]).0 <= s[i].1 && s[i].1 - s[i].0 + 1 <= chunk
            &&& forall|i: int| 0 <= i < s.len() - 1 ==> (#[trigger] s[i + 1]).0 == s[i].1 + 1
        }),
    decreases len - offset,
{
    let end = chunk_end_spec(offset, chunk, len);
    let rest = chunk_schedule(end + 1, chunk, len);
    let s = chunk_schedule(offset, chunk, len);
    assert(s == seq![(offset, end)] + rest);
    if end + 1 < len {
        law_chunks_cover(end + 1, chunk, len);
        assert forall|i: int| 0 <= i < s.len() implies (#[trigger] s[i]).0 <= s[i].1 && s[i].1 - s[i].0 + 1 <= chunk by {
            if i > 0 {
                assert(s[i] == rest[i - 1]);
            }
        }
        assert forall|i: int| 0 <= i < s.len() - 1 implies (#[trigger] s[i + 1]).0 == s[i].1 + 1 by {
            assert(s[i + 1] == rest[i]);
            if i > 0 {
                assert(s[i] == rest[i - 1]);
                assert(rest[(i - 1) + 1].0 == rest[i - 1].1 + 1);
            } else {
                assert(rest[0].0 == end + 1);
            }
        }
        assert(s.last() == rest.last());
    } else {
        assert(rest.len() == 0);
        assert(s.len() == 1);
    }
}


/// What the metadata reply of a file says, the client reads back: its size, type
/// and name, for names without `;` that neither begin nor end with `"`.
#[verifier::rlimit(40)]
pub proof fn law_file_metadata_roundtrip(size: u64, mime: Seq<char>, name: Seq<char>)
    requires
        !name.contains(';'),
        name.len() > 0 ==> name[0] != '"' && name.last() != '"',
    ensures
        crate::http::client::file_client::metadata_from_headers_spec(
            Some(crate::text::decimal(size as nat)),
            Some(mime),
            Some(crate::http::server::file_handler::disposition_spec(name)),
        ) == Some((size, mime, name)),
{
    crate::text::lemma_parse_decimal_roundtrip(size);
    reveal_strlit("attachment; filename=\"");
    reveal_strlit("\"");
    reveal_strlit("filename=");
    let head = "attachment; filename=\""@;
    let quote = "\""@;
    let d = head + name + quote;
    assert(head.len() == 22);
    assert(d == crate::http::server::file_handler::disposition_spec(name));
    // The first piece ends at the `;` after `attachment`.
    assert forall|k: int| 0 <= k < 10 implies #[trigger] d[k] != ';' by {
        assert(d[k] == head[k]);
    }
    assert(d[10] == ';');
    crate::text::lemma_first_pos(d, ';', 10);
    let p = d.skip(11);
    assert forall|k: int| 0 <= k < p.len() implies #[trigger] p[k] != ';' by {
        assert(p[k] == d[k + 11]);
        if k + 11 < 22 {
            assert(d[k + 11] == head[k + 11]);
        } else if k + 11 < 22 + name.len() {
            assert(d[k + 11] == name[k + 11 - 22]);
        } else {
            assert(d[k + 11] == quote[0]);
        }
    }
    crate::text::lemma_first_pos(p, ';', p.len() as int);
    let parts = crate::text::split_on(d, ';');
    assert(parts == seq![d.take(10)] + crate::text::split_on(p, ';'));
    assert(crate::text::split_on(p, ';') == seq![p]);
    // The first piece, `attachment`, names no file.
    let t0 = d.take(10);
    let ws = |c: char| crate::text::is_whitespace(c);
    crate::text::lemma_lead_count(t0, ws, 0);
    crate::text::lemma_trail_count(t0, ws, t0.len() as int);
    assert(t0.skip(0) == t0);
    assert(crate::text::trim_spec(t0) == t0);
    assert(t0[0] == 'a');
    assert(!crate::text::starts_with(crate::text::trim_spec(t0), "filename="@)) by {
        if crate::text::starts_with(t0, "filename="@) {
            assert(t0.take(9)[0] == "filename="@[0]);
        }
    }
    assert(parts.drop_first() == seq![p]);
    // The second piece is ` filename="{name}"`.
    assert(p[0] == ' ');
    assert(p[1] == 'f');
    crate::text::lemma_lead_count(p, ws, 1);
    let front = p.skip(1);
    assert(front.last() == '"');
    crate::text::lemma_trail_count(front, ws, front.len() as int);
    assert(front.take(front.len() as int) == front);
    let t1 = crate::text::trim_spec(p);
    assert(t1 == front);
    assert(front == "filename="@ + quote + name + quote) by {
        assert(front =~= "filename="@ + quote + name + quote);
    }
    assert(crate::text::starts_with(t1, "filename="@)) by {
        assert(t1.take(9) =~= "filename="@);
    }
    let q = t1.skip(9);
    assert(q =~= quote + name + quote);
    let isq = |c: char| c == '"';
    if name.len() == 0 {
        crate::text::lemma_lead_count(q, isq, 2);
        assert(q.skip(2).len() == 0);
        crate::text::lemma_trail_count(q.skip(2), isq, 0);
        assert(crate::text::trim_quotes_spec(q) =~= name);
    } else {
        assert(q[1] == name[0]);
        crate::text::lemma_lead_count(q, isq, 1);
        let qf = q.skip(1);
        assert(qf =~= name + quote);
        assert(qf[qf.len() - 2] == name.last());
        crate::text::lemma_trail_count(qf, isq, qf.len() - 1);
        assert(crate::text::trim_quotes_spec(q) =~= name);
    }
    assert(crate::http::client::file_client::first_filename(seq![p]) == Some(name));
}


/// Once a request is received, listing the received requests gives it back.
pub proof fn law_received_request_listed(m: ServiceModel, r: RequestView, v: Seq<crate::dto::request::TransferRequest>)
    requires
        !m.pending.contains_key(r.request_id),
        crate::http::tables::lists_exactly(v, add_pending_spec(m, r).pending),
    ensures
        exists|i: int| 0 <= i < v.len() && v[i]@ == r,
{
    assert(add_pending_spec(m, r).pending.contains_key(r.request_id));
}

/// Accepting a request starts its transfer: once the downloads are handed out,
/// each accepted file of the request (not excluded, and listed last under its
/// id) is being downloaded.
pub proof fn law_accepted_files_are_downloaded(
    m: ServiceModel,
    request_id: Seq<char>,
    save_path: Seq<char>,
    excluded: Seq<Seq<char>>,
    i: int,
)
    requires
        crate::http::service::model_wf(m),
        m.pending.contains_key(request_id),
        0 <= i < m.pending[request_id].files.len(),
        !excluded.contains(m.pending[request_id].files[i].file_id),
        forall|j: int| i < j < m.pending[request_id].files.len()
            ==> #[trigger] m.pending[request_id].files[j].file_id != m.pending[request_id].files[i].file_id,
    ensures
        ({
            let f = m.pending[request_id].files[i];
            let after = collect_spec(accept_spec(m, request_id, save_path, excluded));
            &&& after.receive_files.contains_key(f.file_id)
            &&& after.receive_files[f.file_id].status == TransferStatus::InProgress
            &&& after.receive_files[f.file_id].request_id == request_id
        }),
{
    law_accept_request(m, request_id, save_path, excluded, i);
}

/// Once a request to send is prepared, listing the sent requests gives it back.
pub proof fn law_sent_request_listed(
    m0: ServiceModel,
    self_id: Seq<char>,
    ls: Seq<PathListing>,
    device_id: Seq<char>,
    out: OutgoingTransferRequest,
    m1: ServiceModel,
    v: Seq<crate::dto::request::TransferRequest>,
)
    requires
        by_paths_outcome(m0, self_id, ls, device_id, Ok(out), m1),
        crate::http::tables::lists_exactly(v, m1.sent),
    ensures
        exists|i: int| 0 <= i < v.len() && v[i]@ == out.request@,
{
    assert(m1.sent.contains_key(out.request@.request_id));
}

/// The word that names state `s` in a status reply: its name in lower case.
pub open spec fn state_word(s: TransferStatus) -> Seq<char> {
    match s {
        TransferStatus::Pending => "pending"@,
        TransferStatus::Accepted => "accepted"@,
        TransferStatus::Rejected => "rejected"@,
        TransferStatus::InProgress => "inprogress"@,
        TransferStatus::Paused => "paused"@,
        TransferStatus::Completed => "completed"@,
        TransferStatus::Failed => "failed"@,
        TransferStatus::Cancelled => "cancelled"@,
    }
}

/// After a pending request records a new state, the status query names that
/// state by its word, such as `accepted` or `rejected`.
pub proof fn law_status_query_names_state(m: ServiceModel, request_id: Seq<char>, s: TransferStatus)
    requires
        m.pending.contains_key(request_id),
    ensures
        reported_status(with_request_status(m, request_id, s).pending[request_id]) == state_word(s),
{
    let name = status_name(s);
    assert(with_request_status(m, request_id, s).pending[request_id].status == name);
    match s {
        TransferStatus::Pending => {
            reveal_strlit("Pending");
            reveal_strlit("pending");
            assert(is_ascii_text(name));
            assert(ascii_lower(name) =~= "pending"@);
        },
        TransferStatus::Accepted => {
            reveal_strlit("Accepted");
            reveal_strlit("accepted");
            assert(is_ascii_text(name));
            assert(ascii_lower(name) =~= "accepted"@);
        },
        TransferStatus::Rejected => {
            reveal_strlit("Rejected");
            reveal_strlit("rejected");
            assert(is_ascii_text(name));
            assert(ascii_lower(name) =~= "rejected"@);
        },
        TransferStatus::InProgress => {
            reveal_strlit("InProgress");
            reveal_strlit("inprogress");
            assert(is_ascii_text(name));
            assert(ascii_lower(name) =~= "inprogress"@);
        },
        TransferStatus::Paused => {
            reveal_strlit("Paused");
            reveal_strlit("paused");
            assert(is_ascii_text(name));
            assert(ascii_lower(name) =~= "paused"@);
        },
        TransferStatus::Completed => {
            reveal_strlit("Completed");
            reveal_strlit("completed");
            assert(is_ascii_text(name));
            assert(ascii_lower(name) =~= "completed"@);
        },
        TransferStatus::Failed => {
            reveal_strlit("Failed");
            reveal_strlit("failed");
            assert(is_ascii_text(name));
            assert(ascii_lower(name) =~= "failed"@);
        },
        TransferStatus::Cancelled => {
            reveal_strlit("Cancelled");
            reveal_strlit("cancelled");
            assert(is_ascii_text(name));
            assert(ascii_lower(name) =~= "cancelled"@);
        },
    }
}

/// A request received as `pending` is reported as `pending`.
pub proof fn law_received_request_reported_pending(q: RequestView)
    requires
        q.status == "pending"@,
    ensures
        reported_status(q) == "pending"@,
{
    reveal_strlit("pending");
    assert(is_ascii_text(q.status));
    assert(ascii_lower(q.status) =~= "pending"@);
}

/// A prepared request offers exactly the listed files, in the order listed: the
/// file at each position carries the id, name, relative path, size, type and
/// kind (file or folder) of the listed file at that position. It comes from this
/// device, goes to the chosen device, starts as `pending`, and is recorded among
/// the sent requests as it is.
pub proof fn law_offered_files_are_the_listed_files(
    m0: ServiceModel,
    self_id: Seq<char>,
    ls: Seq<PathListing>,
    device_id: Seq<char>,
    out: OutgoingTransferRequest,
    m1: ServiceModel,
)
    requires
        by_paths_outcome(m0, self_id, ls, device_id, Ok(out), m1),
    ensures
        ({
            let files = listed_files(ls, ls.len() as int);
            let q = out.request@;
            &&& first_failure(ls) == ls.len()
            &&& q.files.len() == files.len()
            &&& forall|i: int| 0 <= i < files.len() ==> {
                &&& (#[trigger] q.files[i]).file_id == files[i].file_id
                &&& q.files[i].file_name == files[i].file_name
                &&& q.files[i].file_path == files[i].file_relative_path
                &&& q.files[i].file_size == files[i].file_size
                &&& q.files[i].mime_type == files[i].mime_type
                &&& q.files[i].is_dir == files[i].is_dir
            }
            &&& q.sender_device_id == self_id
            &&& q.receiver_device_id == device_id
            &&& q.status == "pending"@
            &&& m1.sent.contains_key(q.request_id)
            &&& m1.sent[q.request_id] == q
        }),
{
    lemma_first_failure_bound(ls);
    let files = listed_files(ls, ls.len() as int);
    let after_files = ServiceModel { send_files: with_send_files(m0.send_files, files), ..m0 };
    assert(first_failure(ls) == ls.len());
    assert(files.len() > 0);
    let id = choose|id: Seq<char>| #![trigger crate::utils::gen_id::is_uuid_text(id)] {
        let q = outgoing_request(id, self_id, device_id, files);
        &&& crate::utils::gen_id::is_uuid_text(id)
        &&& !after_files.sent.contains_key(id)
        &&& m1 == add_sent_spec(after_files, q)
        &&& out.request@ == q
    };
    let q = outgoing_request(id, self_id, device_id, files);
    assert(out.request@ == q);
    assert forall|i: int| 0 <= i < files.len() implies (#[trigger] q.files[i]) == file_info_of(files[i]) by {
    }
}

proof fn lemma_first_failure_bound(ls: Seq<PathListing>)
    ensures
        first_failure(ls) <= ls.len(),
    decreases ls.len(),
{
    if ls.len() > 0 && ls[0] is Ok {
        lemma_first_failure_bound(ls.drop_first());
    }
}

/// Accepting a request registers each accepted file with the metadata the
/// request gave it: its request, sender, id, name, relative path, size, type and
/// kind (file or folder).
pub proof fn law_accept_keeps_file_metadata(
    m: ServiceModel,
    request_id: Seq<char>,
    save_path: Seq<char>,
    excluded: Seq<Seq<char>>,
    i: int,
)
    requires
        m.pending.contains_key(request_id),
        0 <= i < m.pending[request_id].files.len(),
        !excluded.contains(m.pending[request_id].files[i].file_id),
        forall|j: int| i < j < m.pending[request_id].files.len()
            ==> #[trigger] m.pending[request_id].files[j].file_id != m.pending[request_id].files[i].file_id,
    ensures
        ({
            let req = m.pending[request_id];
            let f = req.files[i];
            let after = accept_spec(m, request_id, save_path, excluded);
            let g = after.receive_files[f.file_id];
            &&& after.receive_files.contains_key(f.file_id)
            &&& g.request_id == req.request_id
            &&& g.device_id == req.sender_device_id
            &&& g.file_id == f.file_id
            &&& g.file_name == f.file_name
            &&& g.file_relative_path == f.file_path
            &&& g.file_size == f.file_size
            &&& g.mime_type == f.mime_type
            &&& g.is_dir == f.is_dir
        }),
{
    law_accept_request(m, request_id, save_path, excluded, i);
}

/// Each download task handed out carries the metadata of the file to receive it
/// was made from: its request, sender, where it is saved, its size, whether it
/// is a folder, and the progress to resume from, with no retries yet.
pub proof fn law_tasks_carry_file_metadata(m: ServiceModel, r: Seq<DownloadTask>)
    requires
        forall|i: int| #![trigger r[i]] 0 <= i < r.len() ==> {
            &&& m.receive_files.contains_key(r[i].file_id@)
            &&& m.receive_files[r[i].file_id@].status == TransferStatus::Accepted
            &&& task_matches(r[i], m.receive_files[r[i].file_id@])
        },
    ensures
        forall|i: int| #![trigger r[i]] 0 <= i < r.len() ==> {
            let f = m.receive_files[r[i].file_id@];
            &&& r[i].request_id@ == f.request_id
            &&& r[i].device_id@ == f.device_id
            &&& r[i].save_path@ == f.file_absolute_path
            &&& r[i].file_size == f.file_size
            &&& r[i].is_dir == f.is_dir
            &&& r[i].start_offset == f.progress
            &&& r[i].retry_count == 0
        },
{
}

/// A scan answered with `id`, `online` and `version` leaves device `id` recorded
/// with exactly that state and version, reachable at the scanned address; the
/// record returned is the one stored; other devices are untouched. A device seen
/// for the first time is recorded at the scanned address and port alone; a known
/// one keeps its port and earlier addresses.
pub proof fn law_scan_records_reported_state(
    m: ServiceModel,
    addr: Seq<char>,
    port: u16,
    id: Seq<char>,
    online: bool,
    version: Seq<char>,
)
    requires
        crate::http::service::model_wf(m),
    ensures
        ({
            let after = scan_spec(m, addr, port, id, online, version);
            let d = after.devices[id];
            &&& after.devices.contains_key(id)
            &&& scanned_device(m, addr, port, id, online, version) == d
            &&& d.device_id == id
            &&& d.is_online == online
            &&& d.version == version
            &&& d.address.contains(addr)
            &&& !m.devices.contains_key(id) ==> d.address == seq![addr] && d.port == port && d.extra_info is None
            &&& m.devices.contains_key(id) ==> d.port == m.devices[id].port
                && (forall|j: int| 0 <= j < m.devices[id].address.len()
                    ==> d.address.contains(#[trigger] m.devices[id].address[j]))
            &&& forall|k: Seq<char>| k != id ==> after.devices.contains_key(k) == m.devices.contains_key(k)
                && (m.devices.contains_key(k) ==> #[trigger] after.devices[k] == m.devices[k])
        }),
{
    law_scan_records_address(m, addr, port, id, online, version);
    if m.devices.contains_key(id) {
        let old_addr = m.devices[id].address;
        if !old_addr.contains(addr) {
            assert forall|j: int| 0 <= j < old_addr.len() implies
                old_addr.push(addr).contains(#[trigger] old_addr[j]) by {
                assert(old_addr.push(addr)[j] == old_addr[j]);
            }
        } else {
            assert forall|j: int| 0 <= j < old_addr.len() implies
                old_addr.contains(#[trigger] old_addr[j]) by {
            }
        }
    }
}

/// An unknown peer that posts its status is recorded as the device it reports:
/// its id, the address it posted from, the port, state and version it gave, no
/// extra information; other devices are untouched. A known peer changes nothing.
pub proof fn law_unknown_peer_recorded_as_reported(
    m: ServiceModel,
    ip: Seq<char>,
    id: Seq<char>,
    port: u16,
    online: bool,
    version: Seq<char>,
)
    ensures
        ({
            let after = peer_status_spec(m, ip, id, port, online, version);
            &&& !m.devices.contains_key(id) ==> {
                let d = after.devices[id];
                &&& after.devices.contains_key(id)
                &&& d.device_id == id
                &&& d.address == seq![ip]
                &&& d.port == port
                &&& d.is_online == online
                &&& d.version == version
                &&& d.extra_info is None
            }
            &&& m.devices.contains_key(id) ==> after == m
            &&& forall|k: Seq<char>| k != id ==> after.devices.contains_key(k) == m.devices.contains_key(k)
                && (m.devices.contains_key(k) ==> #[trigger] after.devices[k] == m.devices[k])
            &&& after.pending == m.pending && after.sent == m.sent
            &&& after.send_files == m.send_files && after.receive_files == m.receive_files
        }),
{
}

} // verus!
