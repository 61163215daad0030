use vstd::prelude::*;
use crate::dto::request::{FileInfoView, ProgressView, TransferCancel, TransferProgress, TransferRequest, TransferResponse};
use crate::dto::response::{TransferRequestResponse, TransferStatusResponse};
use crate::http::server::{status_reply, Reply};
use crate::http::service::{add_pending_spec, announced, HttpTransferService, ServiceModel};
use crate::text::{concat, str_eq, to_lowercase};
use crate::types::{ReceiveFileView, SendFileView, TransferEvent, TransferStatus};

verus! {

/// `m` without the entries of `files`.
pub open spec fn without_send_files(m: Map<Seq<char>, SendFileView>, files: Seq<FileInfoView>) -> Map<Seq<char>, SendFileView>
    decreases files.len(),
{
    if files.len() == 0 {
        m
    } else {
        without_send_files(m, files.drop_last()).remove(files.last().file_id)
    }
}

/// `m` without the entries of `files`.
pub open spec fn without_receive_files(m: Map<Seq<char>, ReceiveFileView>, files: Seq<FileInfoView>) -> Map<Seq<char>, ReceiveFileView>
    decreases files.len(),
{
    if files.len() == 0 {
        m
    } else {
        without_receive_files(m, files.drop_last()).remove(files.last().file_id)
    }
}

/// Receives a transfer request from a sender: records it as pending and answers
/// `{request_id, "pending"}`, or, when its id is already pending, answers 400
/// with the reason.
pub fn handle_transfer_request(service: &mut HttpTransferService, request: TransferRequest) -> (r: Reply<TransferRequestResponse>)
    requires
        old(service).wf(),
    ensures
        final(service).wf(),
        final(service).config() == old(service).config(),
        final(service).model() == add_pending_spec(old(service).model(), request@),
        !old(service).model().pending.contains_key(request@.request_id) ==> {
            &&& r matches Reply::Json(resp) && resp.request_id@ == request@.request_id && resp.status@ == "pending"@
            &&& announced(old(service).events(), final(service).events(),
                |e: TransferEvent| e matches TransferEvent::RequestReceived(q) && q@ == request@)
        },
        old(service).model().pending.contains_key(request@.request_id) ==> {
            &&& crate::http::server::is_status_reply(r, 400,
                "处理传输请求失败: "@ + "Invalid transfer request: "@ + "传输请求ID已存在"@)
            &&& final(service).events() == old(service).events()
        },
{
    let request_id = request.request_id.clone();
    match service.add_pending_request(request) {
        Ok(()) => Reply::Json(TransferRequestResponse { request_id, status: "pending".to_owned() }),
        Err(e) => {
            let text = e.to_message();
            let r = status_reply(400, concat("处理传输请求失败: ", text.as_str()));
            assert("处理传输请求失败: "@ + text@ =~= "处理传输请求失败: "@ + "Invalid transfer request: "@ + "传输请求ID已存在"@);
            r
        },
    }
}

/// The state text of a request as the status query reports it: the request's
/// state in lower case, such as `pending`, `accepted` or `rejected`.
pub open spec fn reported_status(q: crate::dto::request::RequestView) -> Seq<char> {
    if crate::text::is_ascii_text(q.status) {
        crate::text::ascii_lower(q.status)
    } else {
        crate::text::lowercase_text(q.status)
    }
}

/// Answers a status query on request `request_id`: looked up among the pending
/// requests, then among the sent ones; 404 when it is in neither.
pub fn get_transfer_status(service: &HttpTransferService, request_id: &str) -> (r: Reply<TransferStatusResponse>)
    ensures
        service.model().pending.contains_key(request_id@) ==>
            (r matches Reply::Json(s) && s.request_id@ == request_id@ && s.message is None
                && s.status@ == reported_status(service.model().pending[request_id@])),
        !service.model().pending.contains_key(request_id@) && service.model().sent.contains_key(request_id@) ==>
            (r matches Reply::Json(s) && s.request_id@ == request_id@ && s.message is None
                && s.status@ == reported_status(service.model().sent[request_id@])),
        !service.model().pending.contains_key(request_id@) && !service.model().sent.contains_key(request_id@) ==>
            crate::http::server::is_status_reply(r, 404, "找不到传输请求: "@ + request_id@),
{
    let found = match service.pending_request(request_id) {
        Some(q) => Some(q),
        None => service.sent_request(request_id),
    };
    match found {
        Some(q) => {
            let status = to_lowercase(q.status.as_str());
            Reply::Json(TransferStatusResponse { request_id: request_id.to_owned(), status, message: None })
        },
        None => status_reply(404, concat("找不到传输请求: ", request_id)),
    }
}

/// The state after the receiver answered `status` to sent request `request_id`:
/// on `"rejected"` the request's files are no longer offered.
pub open spec fn transfer_response_spec(m: ServiceModel, request_id: Seq<char>, status: Seq<char>) -> ServiceModel {
    if m.sent.contains_key(request_id) && status == "rejected"@ {
        ServiceModel { send_files: without_send_files(m.send_files, m.sent[request_id].files), ..m }
    } else {
        m
    }
}

/// Handles the receiver's answer to a sent request: `"accepted"` is announced;
/// `"rejected"` withdraws the request's files and is announced; other answers
/// get 400, unknown requests 404.
pub fn handle_transfer_response(service: &mut HttpTransferService, response: &TransferResponse) -> (r: Reply<()>)
    requires
        old(service).wf(),
    ensures
        final(service).wf(),
        final(service).config() == old(service).config(),
        final(service).model() == transfer_response_spec(old(service).model(), response.request_id@, response.status@),
        !old(service).model().sent.contains_key(response.request_id@) ==> {
            &&& crate::http::server::is_status_reply(r, 404, "找不到请求ID: "@ + response.request_id@)
            &&& final(service).events() == old(service).events()
        },
        old(service).model().sent.contains_key(response.request_id@) && response.status@ == "accepted"@ ==> {
            &&& crate::http::server::is_status_reply(r, 200, "传输请求已接受"@)
            &&& announced(old(service).events(), final(service).events(),
                |e: TransferEvent| e matches TransferEvent::RequestStatusChanged { request_id: i, status: s, message: m }
                    && i@ == response.request_id@ && s@ == "accepted"@ && m is None)
        },
        old(service).model().sent.contains_key(response.request_id@) && response.status@ == "rejected"@ ==> {
            &&& crate::http::server::is_status_reply(r, 200, "传输请求已被拒绝"@)
            &&& announced(old(service).events(), final(service).events(),
                |e: TransferEvent| e matches TransferEvent::RequestStatusChanged { request_id: i, status: s, message: m }
                    && i@ == response.request_id@ && s@ == "rejected"@ && m is None)
        },
        old(service).model().sent.contains_key(response.request_id@) && response.status@ != "accepted"@
            && response.status@ != "rejected"@ ==> {
            &&& crate::http::server::is_status_reply(r, 400, "无效的响应状态"@)
            &&& final(service).events() == old(service).events()
        },
{
    let request = match service.sent_request(response.request_id.as_str()) {
        Some(q) => q,
        None => {
            return status_reply(404, concat("找不到请求ID: ", response.request_id.as_str()));
        },
    };
    if str_eq(response.status.as_str(), "accepted") {
        assert("accepted"@ != "rejected"@) by {
            reveal_strlit("accepted");
            reveal_strlit("rejected");
            assert("accepted"@[0] != "rejected"@[0]);
        }
        service.announce(TransferEvent::RequestStatusChanged {
            request_id: response.request_id.clone(),
            status: "accepted".to_owned(),
            message: None,
        });
        status_reply(200, "传输请求已接受".to_owned())
    } else if str_eq(response.status.as_str(), "rejected") {
        let ghost m0 = service.model();
        let ghost files = request@.files;
        let mut i: usize = 0;
        while i < request.files.len()
            invariant
                i <= request.files@.len(),
                files == request@.files,
                m0 == old(service).model(),
                m0.sent.contains_key(response.request_id@),
                files == m0.sent[response.request_id@].files,
                service.wf(),
                service.config() == old(service).config(),
                service.events() == old(service).events(),
                service.model() == (ServiceModel { send_files: without_send_files(m0.send_files, files.take(i as int)), ..m0 }),
            decreases request.files@.len() - i,
        {
            assert(files.take(i + 1).drop_last() == files.take(i as int));
            service.remove_send_file(request.files[i].file_id.as_str());
            i = i + 1;
        }
        assert(files.take(request.files@.len() as int) == files);
        service.announce(TransferEvent::RequestStatusChanged {
            request_id: response.request_id.clone(),
            status: "rejected".to_owned(),
            message: None,
        });
        status_reply(200, "传输请求已被拒绝".to_owned())
    } else {
        status_reply(400, "无效的响应状态".to_owned())
    }
}

/// The state after the receiver reported progress `p` on a sent request: the
/// file's bytes sent become `p.bytes_received`, and a completed file is no
/// longer offered. Unknown requests or files change nothing.
pub open spec fn transfer_progress_spec(m: ServiceModel, p: ProgressView) -> ServiceModel {
    if !m.sent.contains_key(p.request_id) || !m.send_files.contains_key(p.file_id) {
        m
    } else {
        let updated = m.send_files.insert(p.file_id, SendFileView { progress: p.bytes_received, ..m.send_files[p.file_id] });
        ServiceModel {
            send_files: if p.status == TransferStatus::Completed { updated.remove(p.file_id) } else { updated },
            ..m
        }
    }
}

/// Handles a progress report from the receiver: unknown requests and files get
/// 404; otherwise the file's progress is recorded and the report is announced
/// according to its state (in progress, completed, failed, cancelled), answered
/// with 204; other states get 400.
pub fn handle_transfer_progress(service: &mut HttpTransferService, progress: TransferProgress) -> (r: Reply<()>)
    requires
        old(service).wf(),
    ensures
        final(service).wf(),
        final(service).config() == old(service).config(),
        final(service).model() == transfer_progress_spec(old(service).model(), progress@),
        !old(service).model().sent.contains_key(progress@.request_id) ==> {
            &&& crate::http::server::is_status_reply(r, 404, "找不到请求ID: "@ + progress@.request_id)
            &&& final(service).events() == old(service).events()
        },
        old(service).model().sent.contains_key(progress@.request_id)
            && !old(service).model().send_files.contains_key(progress@.file_id) ==> {
            &&& crate::http::server::is_status_reply(r, 404, "找不到文件ID: "@ + progress@.file_id)
            &&& final(service).events() == old(service).events()
        },
        old(service).model().sent.contains_key(progress@.request_id)
            && old(service).model().send_files.contains_key(progress@.file_id) ==> {
            &&& (progress.status == TransferStatus::InProgress ==> r is NoContent
                && final(service).events() == old(service).events().push(TransferEvent::ProgressUpdated(progress)))
            &&& (progress.status == TransferStatus::Completed ==> r is NoContent
                && announced(old(service).events(), final(service).events(),
                    |e: TransferEvent| e matches TransferEvent::TransferCompleted { request_id: i, file_id: f, save_path: p }
                        && i@ == progress@.request_id && f@ == progress@.file_id && p is None))
            &&& (progress.status == TransferStatus::Failed ==> r is NoContent
                && announced(old(service).events(), final(service).events(),
                    |e: TransferEvent| e matches TransferEvent::TransferFailed { request_id: i, file_id: f, error: x }
                        && i@ == progress@.request_id && f@ == progress@.file_id
                        && x@ == match progress@.error_message { Some(m) => m, None => "未知错误"@ }))
            &&& (progress.status == TransferStatus::Cancelled ==> r is NoContent
                && announced(old(service).events(), final(service).events(),
                    |e: TransferEvent| e matches TransferEvent::TransferCancelled { request_id: i, reason: x }
                        && i@ == progress@.request_id
                        && x@ == match progress@.error_message { Some(m) => m, None => "接收方取消"@ }))
            &&& (progress.status != TransferStatus::InProgress && progress.status != TransferStatus::Completed
                && progress.status != TransferStatus::Failed && progress.status != TransferStatus::Cancelled ==>
                crate::http::server::is_status_reply(r, 400, "无效的传输状态"@)
                && final(service).events() == old(service).events())
        },
{
    if service.sent_request(progress.request_id.as_str()).is_none() {
        return status_reply(404, concat("找不到请求ID: ", progress.request_id.as_str()));
    }
    if service.send_file(progress.file_id.as_str()).is_none() {
        return status_reply(404, concat("找不到文件ID: ", progress.file_id.as_str()));
    }
    service.set_send_file_progress(progress.file_id.as_str(), progress.bytes_received);
    match progress.status {
        TransferStatus::InProgress => {
            let _ = service.update_transfer_progress(progress);
        },
        TransferStatus::Completed => {
            service.announce(TransferEvent::TransferCompleted {
                request_id: progress.request_id.clone(),
                file_id: progress.file_id.clone(),
                save_path: None,
            });
            service.remove_send_file(progress.file_id.as_str());
        },
        TransferStatus::Failed => {
            let error = match progress.error_message {
                Some(m) => m,
                None => "未知错误".to_owned(),
            };
            service.announce(TransferEvent::TransferFailed {
                request_id: progress.request_id,
                file_id: progress.file_id,
                error,
            });
        },
        TransferStatus::Cancelled => {
            let reason = match progress.error_message {
                Some(m) => m,
                None => "接收方取消".to_owned(),
            };
            service.announce(TransferEvent::TransferCancelled { request_id: progress.request_id, reason });
        },
        _ => {
            return status_reply(400, "无效的传输状态".to_owned());
        },
    }
    Reply::NoContent
}

/// The state after cancelling request `request_id`: a pending request is
/// forgotten with its files to receive; a sent request is forgotten with its
/// files to send.
pub open spec fn cancel_spec(m: ServiceModel, request_id: Seq<char>) -> ServiceModel {
    let m1 = if m.pending.contains_key(request_id) {
        ServiceModel {
            receive_files: without_receive_files(m.receive_files, m.pending[request_id].files),
            pending: m.pending.remove(request_id),
            ..m
        }
    } else {
        m
    };
    if m1.sent.contains_key(request_id) {
        ServiceModel {
            send_files: without_send_files(m1.send_files, m1.sent[request_id].files),
            sent: m1.sent.remove(request_id),
            ..m1
        }
    } else {
        m1
    }
}

/// Handles a cancellation from the other side: forgets the request and its
/// files, announces the cancellation and answers 204; unknown requests get 404.
pub fn handle_transfer_cancel(service: &mut HttpTransferService, cancel: &TransferCancel) -> (r: Reply<()>)
    requires
        old(service).wf(),
    ensures
        final(service).wf(),
        final(service).config() == old(service).config(),
        final(service).model() == cancel_spec(old(service).model(), cancel.request_id@),
        !old(service).model().pending.contains_key(cancel.request_id@)
            && !old(service).model().sent.contains_key(cancel.request_id@) ==> {
            &&& crate::http::server::is_status_reply(r, 404, "找不到请求ID: "@ + cancel.request_id@)
            &&& final(service).events() == old(service).events()
        },
        old(service).model().pending.contains_key(cancel.request_id@)
            || old(service).model().sent.contains_key(cancel.request_id@) ==> {
            &&& r is NoContent
            &&& announced(old(service).events(), final(service).events(),
                |e: TransferEvent| e matches TransferEvent::TransferCancelled { request_id: i, reason: x }
                    && i@ == cancel.request_id@ && x@ == cancel.reason@)
        },
{
    let pending = service.pending_request(cancel.request_id.as_str());
    let sent_exists = service.sent_request(cancel.request_id.as_str()).is_some();
    if pending.is_none() && !sent_exists {
        return status_reply(404, concat("找不到请求ID: ", cancel.request_id.as_str()));
    }
    let ghost m0 = service.model();
    match pending {
        Some(request) => {
            let ghost files = request@.files;
            let mut i: usize = 0;
            while i < request.files.len()
                invariant
                    i <= request.files@.len(),
                    files == request@.files,
                    service.wf(),
                    service.config() == old(service).config(),
                    service.events() == old(service).events(),
                    service.model() == (ServiceModel { receive_files: without_receive_files(m0.receive_files, files.take(i as int)), ..m0 }),
                decreases request.files@.len() - i,
            {
                assert(files.take(i + 1).drop_last() == files.take(i as int));
                service.remove_receive_file(request.files[i].file_id.as_str());
                i = i + 1;
            }
            assert(files.take(request.files@.len() as int) == files);
            service.remove_pending_request(cancel.request_id.as_str());
        },
        None => {},
    }
    let ghost m1 = service.model();
    match service.sent_request(cancel.request_id.as_str()) {
        Some(request) => {
            let ghost files = request@.files;
            let mut i: usize = 0;
            while i < request.files.len()
                invariant
                    i <= request.files@.len(),
                    files == request@.files,
                    service.wf(),
                    service.config() == old(service).config(),
                    service.events() == old(service).events(),
                    service.model() == (ServiceModel { send_files: without_send_files(m1.send_files, files.take(i as int)), ..m1 }),
                decreases request.files@.len() - i,
            {
                assert(files.take(i + 1).drop_last() == files.take(i as int));
                service.remove_send_file(request.files[i].file_id.as_str());
                i = i + 1;
            }
            assert(files.take(request.files@.len() as int) == files);
            service.remove_sent_request(cancel.request_id.as_str());
        },
        None => {},
    }
    service.announce(TransferEvent::TransferCancelled {
        request_id: cancel.request_id.clone(),
        reason: cancel.reason.clone(),
    });
    Reply::NoContent
}

} // verus!
