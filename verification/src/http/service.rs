use vstd::prelude::*;
use dashmap::DashMap;
use crate::dto::request::{FileInfo, FileInfoView, RequestView, TransferProgress, TransferRequest};
use crate::dto::response::{DeviceStatusInfo, DiscoveryLevel};
use crate::error::HiveDropError;
use crate::http::tables;
use crate::http::tables::{lemma_views_empty, lemma_views_insert, lemma_views_remove, lists_exactly, views};
use crate::http::tables::{
    devices_clear, devices_contains, devices_get, devices_insert, devices_new,
    devices_values,  receive_files_contains, receive_files_get,
    receive_files_insert, receive_files_new, receive_files_remove, receive_files_values,
    requests_clear, requests_contains, requests_get, requests_insert,
    requests_new, requests_remove, requests_values,  send_files_contains,
    send_files_get, send_files_insert, send_files_new, send_files_remove, send_files_values,
};
use crate::text::{concat, push_str};
use crate::types::{
    file_info_of, DeviceInfo, DeviceView, PendingReceiveFileInfo, PendingSendFileInfo, ReceiveFileView,
    SendFileView, TransferEvent, TransferServiceConfig, TransferStatus, PACKAGE_VERSION,
};

verus! {

/// The abstract state of the transfer service: whether it runs, and the views of
/// what it keeps, each table by its entries' ids.
pub struct ServiceModel {
    pub running: bool,
    /// Known devices, by device id.
    pub devices: Map<Seq<char>, DeviceView>,
    /// Requests received from senders, by request id.
    pub pending: Map<Seq<char>, RequestView>,
    /// Requests sent to receivers, by request id.
    pub sent: Map<Seq<char>, RequestView>,
    /// Files offered to receivers, by file id.
    pub send_files: Map<Seq<char>, SendFileView>,
    /// Files to receive, by file id.
    pub receive_files: Map<Seq<char>, ReceiveFileView>,
}

/// What every state of the service keeps: finitely many entries in each table,
/// each stored under its own id, and every known device with an address.
pub open spec fn model_wf(m: ServiceModel) -> bool {
    &&& m.devices.dom().finite()
    &&& m.pending.dom().finite()
    &&& m.sent.dom().finite()
    &&& m.send_files.dom().finite()
    &&& m.receive_files.dom().finite()
    &&& forall|k: Seq<char>| #[trigger] m.devices.contains_key(k)
        ==> m.devices[k].device_id == k && m.devices[k].address.len() > 0
    &&& forall|k: Seq<char>| #[trigger] m.pending.contains_key(k) ==> m.pending[k].request_id == k
    &&& forall|k: Seq<char>| #[trigger] m.sent.contains_key(k) ==> m.sent[k].request_id == k
    &&& forall|k: Seq<char>| #[trigger] m.send_files.contains_key(k) ==> m.send_files[k].file_id == k
    &&& forall|k: Seq<char>| #[trigger] m.receive_files.contains_key(k) ==> m.receive_files[k].file_id == k
}

/// `post` is `pre` with one more event at the end, for which `p` holds.
pub open spec fn announced(pre: Seq<TransferEvent>, post: Seq<TransferEvent>, p: spec_fn(TransferEvent) -> bool) -> bool {
    &&& post.len() == pre.len() + 1
    &&& post.drop_last() == pre
    &&& p(post.last())
}

/// The state of the HTTP transfer service: its configuration, whether it runs,
/// the devices, requests and files it keeps, and the events it has announced
/// and not yet handed out.
pub struct HttpTransferService {
    config: TransferServiceConfig,
    is_running: bool,
    known_devices: DashMap<String, DeviceInfo>,
    pending_requests: DashMap<String, TransferRequest>,
    sent_requests: DashMap<String, TransferRequest>,
    sent_files: DashMap<String, PendingSendFileInfo>,
    received_files: DashMap<String, PendingReceiveFileInfo>,
    events: Vec<TransferEvent>,
}

impl HttpTransferService {
    /// The abstract state.
    pub closed spec fn model(&self) -> ServiceModel {
        ServiceModel {
            running: self.is_running,
            devices: views(tables::device_table(self.known_devices)),
            pending: views(tables::request_table(self.pending_requests)),
            sent: views(tables::request_table(self.sent_requests)),
            send_files: views(tables::send_file_table(self.sent_files)),
            receive_files: views(tables::receive_file_table(self.received_files)),
        }
    }

    /// The configuration.
    pub closed spec fn config(&self) -> TransferServiceConfig {
        self.config
    }

    /// The events announced and not yet handed out, oldest first.
    pub closed spec fn events(&self) -> Seq<TransferEvent> {
        self.events@
    }

    /// The service's state is well formed.
    pub open spec fn wf(&self) -> bool {
        model_wf(self.model())
    }

    /// A service with `config`, not running, knowing nothing, with no events.
    pub fn new(config: TransferServiceConfig) -> (r: Self)
        ensures
            r.wf(),
            r.config() == config,
            r.model() == (ServiceModel {
                running: false,
                devices: Map::empty(),
                pending: Map::empty(),
                sent: Map::empty(),
                send_files: Map::empty(),
                receive_files: Map::empty(),
            }),
            r.events() == Seq::<TransferEvent>::empty(),
    {
        let r = HttpTransferService {
            config,
            is_running: false,
            known_devices: devices_new(),
            pending_requests: requests_new(),
            sent_requests: requests_new(),
            sent_files: send_files_new(),
            received_files: receive_files_new(),
            events: Vec::new(),
        };
        proof {
            lemma_views_empty(tables::device_table(r.known_devices));
            lemma_views_empty(tables::request_table(r.pending_requests));
            lemma_views_empty(tables::request_table(r.sent_requests));
            lemma_views_empty(tables::send_file_table(r.sent_files));
            lemma_views_empty(tables::receive_file_table(r.received_files));
        }
        r
    }

    /// Announces `event` to the subscribers.
    fn send_event(&mut self, event: TransferEvent)
        ensures
            final(self).events() == old(self).events().push(event),
            final(self).events().drop_last() == old(self).events(),
            final(self).model() == old(self).model(),
            final(self).config() == old(self).config(),
    {
        self.events.push(event);
        assert(self.events@.drop_last() =~= old(self).events@);
    }

    /// Hands out the events announced so far, oldest first, and forgets them.
    pub fn take_events(&mut self) -> (r: Vec<TransferEvent>)
        ensures
            r@ == old(self).events(),
            final(self).events() == Seq::<TransferEvent>::empty(),
            final(self).model() == old(self).model(),
            final(self).config() == old(self).config(),
    {
        let mut taken: Vec<TransferEvent> = Vec::new();
        std::mem::swap(&mut taken, &mut self.events);
        taken
    }

    /// The configuration.
    pub fn get_config(&self) -> (r: &TransferServiceConfig)
        ensures
            *r == self.config(),
    {
        &self.config
    }

    /// The port the server listens on.
    pub fn get_server_port(&self) -> (r: u16)
        ensures
            r == self.config().server_port,
    {
        self.config.server_port
    }

    /// Whether the service runs.
    pub fn is_service_running(&self) -> (r: bool)
        ensures
            r == self.model().running,
    {
        self.is_running
    }

    /// The state of this device, as the status endpoint reports it: its id,
    /// discovery level, whether the service runs, this package's version and
    /// the server port.
    pub fn get_device_status(&self) -> (r: DeviceStatusInfo)
        ensures
            r.device_id == self.config().device_id,
            r.discovery_level == self.config().discovery_level,
            r.is_online == self.model().running,
            r.version@ == PACKAGE_VERSION@,
            r.port == self.config().server_port,
    {
        let mut version = String::new();
        push_str(&mut version, PACKAGE_VERSION);
        DeviceStatusInfo {
            device_id: self.config.device_id.clone(),
            discovery_level: self.config.discovery_level,
            is_online: self.is_running,
            version,
            port: self.config.server_port,
        }
    }
}

/// The state after receiving request `r`: unchanged when a request with its id
/// is already pending, else with `r` pending.
pub open spec fn add_pending_spec(m: ServiceModel, r: RequestView) -> ServiceModel {
    if m.pending.contains_key(r.request_id) {
        m
    } else {
        ServiceModel { pending: m.pending.insert(r.request_id, r), ..m }
    }
}

/// The state after recording sent request `r`: unchanged when a request with its
/// id was already sent, else with `r` among the sent requests.
pub open spec fn add_sent_spec(m: ServiceModel, r: RequestView) -> ServiceModel {
    if m.sent.contains_key(r.request_id) {
        m
    } else {
        ServiceModel { sent: m.sent.insert(r.request_id, r), ..m }
    }
}

/// The state after adding file `f` to receive: unchanged when a file with its id
/// is already there, else with `f` among the files to receive.
pub open spec fn add_receive_file_spec(m: ServiceModel, f: ReceiveFileView) -> ServiceModel {
    if m.receive_files.contains_key(f.file_id) {
        m
    } else {
        ServiceModel { receive_files: m.receive_files.insert(f.file_id, f), ..m }
    }
}

/// The state after pending request `request_id` records state `status` (by its
/// name); unchanged when the request is not pending.
pub open spec fn with_request_status(m: ServiceModel, request_id: Seq<char>, status: TransferStatus) -> ServiceModel {
    if m.pending.contains_key(request_id) {
        ServiceModel {
            pending: m.pending.insert(request_id,
                RequestView { status: crate::types::status_name(status), ..m.pending[request_id] }),
            ..m
        }
    } else {
        m
    }
}

/// `e` is a validation error that carries `text`.
pub open spec fn is_validation_error(e: HiveDropError, text: Seq<char>) -> bool {
    e matches HiveDropError::ValidationError(s) && s@ == text
}

/// `e` is a not-found error that carries `text`.
pub open spec fn is_not_found_error(e: HiveDropError, text: Seq<char>) -> bool {
    e matches HiveDropError::NotFoundError(s) && s@ == text
}

impl HttpTransferService {
    /// Records a transfer request received from a sender and announces it.
    /// A request whose id is already pending is refused with a validation error.
    pub fn add_pending_request(&mut self, request: TransferRequest) -> (r: Result<(), HiveDropError>)
        requires
            old(self).wf(),
        ensures
            final(self).wf(),
            final(self).config() == old(self).config(),
            final(self).model() == add_pending_spec(old(self).model(), request@),
            r is Ok <==> !old(self).model().pending.contains_key(request@.request_id),
            r matches Err(e) ==> is_validation_error(e, "传输请求ID已存在"@),
            r is Err ==> final(self).events() == old(self).events(),
            r is Ok ==> announced(old(self).events(), final(self).events(),
                |e: TransferEvent| e matches TransferEvent::RequestReceived(q) && q@ == request@),
    {
        if requests_contains(&self.pending_requests, request.request_id.as_str()) {
            return Err(HiveDropError::ValidationError("传输请求ID已存在".to_owned()));
        }
        let announced_copy = request.duplicate();
        let key = request.request_id.clone();
        proof {
            lemma_views_insert(tables::request_table(self.pending_requests), key@, request);
        }
        requests_insert(&mut self.pending_requests, key, request);
        self.send_event(TransferEvent::RequestReceived(announced_copy));
        Ok(())
    }

    /// Records a transfer request sent to a receiver.
    /// A request whose id was already sent is refused with a validation error.
    pub fn add_sent_request(&mut self, request: TransferRequest) -> (r: Result<(), HiveDropError>)
        requires
            old(self).wf(),
        ensures
            final(self).wf(),
            final(self).config() == old(self).config(),
            final(self).model() == add_sent_spec(old(self).model(), request@),
            final(self).events() == old(self).events(),
            r is Ok <==> !old(self).model().sent.contains_key(request@.request_id),
            r matches Err(e) ==> is_validation_error(e, "传输请求ID已存在"@),
    {
        if requests_contains(&self.sent_requests, request.request_id.as_str()) {
            return Err(HiveDropError::ValidationError("传输请求ID已存在".to_owned()));
        }
        let key = request.request_id.clone();
        proof {
            lemma_views_insert(tables::request_table(self.sent_requests), key@, request);
        }
        requests_insert(&mut self.sent_requests, key, request);
        Ok(())
    }

    /// Records a new state of a pending request, as the state's name, and
    /// announces it. A request that is not pending is refused with a not-found
    /// error, and nothing changes.
    pub fn update_request_status(
        &mut self,
        request_id: &str,
        status: TransferStatus,
        message: Option<String>,
    ) -> (r: Result<(), HiveDropError>)
        requires
            old(self).wf(),
        ensures
            final(self).wf(),
            final(self).config() == old(self).config(),
            final(self).model() == with_request_status(old(self).model(), request_id@, status),
            r is Ok <==> old(self).model().pending.contains_key(request_id@),
            r matches Err(e) ==> is_not_found_error(e, "找不到传输请求: "@ + request_id@),
            r is Err ==> final(self).events() == old(self).events(),
            r is Ok ==> announced(old(self).events(), final(self).events(),
                |e: TransferEvent| e matches TransferEvent::RequestStatusChanged { request_id: i, status: s, message: m }
                    && i@ == request_id@ && s@ == crate::types::status_name(status) && m == message),
    {
        match requests_get(&self.pending_requests, request_id) {
            Some(request) => {
                let ghost before = self.model();
                assert(request@ == before.pending[request_id@]);
                let mut updated = request;
                updated.status = status.debug_name();
                let key = request_id.to_owned();
                assert(updated@ == (RequestView { status: crate::types::status_name(status), ..before.pending[request_id@] }));
                proof {
                    lemma_views_insert(tables::request_table(self.pending_requests), key@, updated);
                }
                requests_insert(&mut self.pending_requests, key, updated);
                assert(self.model().pending == before.pending.insert(request_id@,
                    RequestView { status: crate::types::status_name(status), ..before.pending[request_id@] }));
                assert forall|k: Seq<char>| #[trigger] self.model().pending.contains_key(k)
                    implies self.model().pending[k].request_id == k by {
                    if k != request_id@ {
                        assert(before.pending.contains_key(k));
                    } else {
                        assert(before.pending.contains_key(request_id@));
                        assert(model_wf(before));
                        assert(before.pending[request_id@].request_id == request_id@);
                    }
                }
                let name = status.debug_name();
                self.send_event(TransferEvent::RequestStatusChanged {
                    request_id: request_id.to_owned(),
                    status: name,
                    message,
                });
                Ok(())
            },
            None => Err(HiveDropError::NotFoundError(concat("找不到传输请求: ", request_id))),
        }
    }

    /// The known device with id `device_id`, if any.
    pub fn get_device_info(&self, device_id: &str) -> (r: Option<DeviceInfo>)
        ensures
            r is None <==> !self.model().devices.contains_key(device_id@),
            r matches Some(d) ==> d@ == self.model().devices[device_id@],
    {
        devices_get(&self.known_devices, device_id)
    }

    /// Announces the progress of a transfer.
    pub fn update_transfer_progress(&mut self, progress: TransferProgress) -> (r: Result<(), HiveDropError>)
        requires
            old(self).wf(),
        ensures
            final(self).wf(),
            final(self).config() == old(self).config(),
            final(self).model() == old(self).model(),
            r is Ok,
            final(self).events() == old(self).events().push(TransferEvent::ProgressUpdated(progress)),
    {
        self.send_event(TransferEvent::ProgressUpdated(progress));
        Ok(())
    }

    /// Adds a file to receive. A file whose id is already there is refused with a
    /// validation error.
    pub fn add_pending_receive_file(&mut self, file_info: PendingReceiveFileInfo) -> (r: Result<(), HiveDropError>)
        requires
            old(self).wf(),
        ensures
            final(self).wf(),
            final(self).config() == old(self).config(),
            final(self).events() == old(self).events(),
            final(self).model() == add_receive_file_spec(old(self).model(), file_info@),
            r is Ok <==> !old(self).model().receive_files.contains_key(file_info@.file_id),
            r matches Err(e) ==> is_validation_error(e, "接收文件ID已存在"@),
    {
        if receive_files_contains(&self.received_files, file_info.file_id.as_str()) {
            return Err(HiveDropError::ValidationError("接收文件ID已存在".to_owned()));
        }
        let key = file_info.file_id.clone();
        proof {
            lemma_views_insert(tables::receive_file_table(self.received_files), key@, file_info);
        }
        receive_files_insert(&mut self.received_files, key, file_info);
        Ok(())
    }
}


/// The file to receive that accepting request `req` into `save_path` makes of `f`:
/// saved at `save_path/relative path`, nothing received yet, state accepted.
pub open spec fn receive_entry(req: RequestView, f: FileInfoView, save_path: Seq<char>) -> ReceiveFileView {
    ReceiveFileView {
        request_id: req.request_id,
        device_id: req.sender_device_id,
        file_id: f.file_id,
        file_name: f.file_name,
        file_relative_path: f.file_path,
        file_absolute_path: save_path + "/"@ + f.file_path,
        file_size: f.file_size,
        mime_type: f.mime_type,
        is_dir: f.is_dir,
        progress: 0,
        status: TransferStatus::Accepted,
    }
}

/// `m` with an entry to receive for each of `files`, in order, except those whose
/// id is in `excluded`.
pub open spec fn add_accepted_files(
    m: Map<Seq<char>, ReceiveFileView>,
    req: RequestView,
    files: Seq<FileInfoView>,
    save_path: Seq<char>,
    excluded: Seq<Seq<char>>,
) -> Map<Seq<char>, ReceiveFileView>
    decreases files.len(),
{
    if files.len() == 0 {
        m
    } else {
        let before = add_accepted_files(m, req, files.drop_last(), save_path, excluded);
        let f = files.last();
        if excluded.contains(f.file_id) {
            before
        } else {
            before.insert(f.file_id, receive_entry(req, f, save_path))
        }
    }
}

/// The state after accepting request `request_id` into `save_path`, leaving out
/// the files in `excluded`: the request records the accepted state and its files
/// are added to receive; unchanged when the request is not pending.
pub open spec fn accept_spec(m: ServiceModel, request_id: Seq<char>, save_path: Seq<char>, excluded: Seq<Seq<char>>) -> ServiceModel {
    if m.pending.contains_key(request_id) {
        let m1 = with_request_status(m, request_id, TransferStatus::Accepted);
        let req = m1.pending[request_id];
        ServiceModel {
            receive_files: add_accepted_files(m1.receive_files, req, req.files, save_path, excluded),
            ..m1
        }
    } else {
        m
    }
}

/// The state after the service starts.
pub open spec fn start_spec(m: ServiceModel) -> ServiceModel {
    ServiceModel { running: true, ..m }
}

/// The state after the service stops.
pub open spec fn stop_spec(m: ServiceModel) -> ServiceModel {
    ServiceModel { running: false, ..m }
}

/// The state after the service shuts down: stopped, knowing no devices and no
/// requests; the files to send and to receive stay.
pub open spec fn shutdown_spec(m: ServiceModel) -> ServiceModel {
    ServiceModel {
        running: false,
        devices: Map::empty(),
        pending: Map::empty(),
        sent: Map::empty(),
        ..m
    }
}

impl HttpTransferService {
    /// Accepts a pending request: announces it as accepted, then adds each of its
    /// files, in order and except those whose ids are in `exclusion_list`, to the
    /// files to receive, to be saved at `save_path/relative path`. A request that
    /// is not pending is refused with a not-found error and nothing changes.
    pub fn accept_transfer_request(
        &mut self,
        request_id: &str,
        save_path: &str,
        exclusion_list: Vec<String>,
    ) -> (r: Result<(), HiveDropError>)
        requires
            old(self).wf(),
        ensures
            final(self).wf(),
            final(self).config() == old(self).config(),
            final(self).model() == accept_spec(old(self).model(), request_id@, save_path@,
                crate::text::strings_view(exclusion_list@)),
            r is Ok <==> old(self).model().pending.contains_key(request_id@),
            r matches Err(e) ==> is_not_found_error(e, "找不到传输请求: "@ + request_id@),
            r is Err ==> final(self).events() == old(self).events(),
            r is Ok ==> announced(old(self).events(), final(self).events(),
                |e: TransferEvent| e matches TransferEvent::RequestStatusChanged { request_id: i, status: s, message: m }
                    && i@ == request_id@ && s@ == crate::types::status_name(TransferStatus::Accepted) && m is None),
    {
        self.update_request_status(request_id, TransferStatus::Accepted, None)?;
        assert(self.model().pending.contains_key(request_id@));
        let request = match requests_get(&self.pending_requests, request_id) {
            Some(q) => q,
            None => {
                return Err(HiveDropError::NotFoundError("请求ID不存在".to_owned()));
            },
        };
        let ghost req = request@;
        let ghost excluded = crate::text::strings_view(exclusion_list@);
        let ghost m0 = self.model();
        let ghost ev = self.events();
        assert(req == m0.pending[request_id@]);
        let mut i: usize = 0;
        while i < request.files.len()
            invariant
                i <= request.files@.len(),
                req == request@,
                excluded == crate::text::strings_view(exclusion_list@),
                self.wf(),
                self.config() == old(self).config(),
                self.events() == ev,
                self.model() == (ServiceModel {
                    receive_files: add_accepted_files(m0.receive_files, req, req.files.take(i as int), save_path@, excluded),
                    ..m0
                }),
            decreases request.files@.len() - i,
        {
            let file = &request.files[i];
            assert(req.files.take(i + 1).drop_last() == req.files.take(i as int));
            assert(req.files.take(i + 1).last() == file@);
            if !crate::text::contains_string(&exclusion_list, file.file_id.as_str()) {
                let entry = PendingReceiveFileInfo {
                    request_id: request.request_id.clone(),
                    device_id: request.sender_device_id.clone(),
                    file_id: file.file_id.clone(),
                    file_name: file.file_name.clone(),
                    file_relative_path: file.file_path.clone(),
                    file_absolute_path: crate::text::concat3(save_path, "/", file.file_path.as_str()),
                    file_size: file.file_size,
                    mime_type: file.mime_type.clone(),
                    is_dir: file.is_dir,
                    progress: 0,
                    status: TransferStatus::Accepted,
                };
                assert(entry@ == receive_entry(req, file@, save_path@));
                let key = file.file_id.clone();
                proof {
                    lemma_views_insert(tables::receive_file_table(self.received_files), key@, entry);
                }
                receive_files_insert(&mut self.received_files, key, entry);
            }
            i = i + 1;
        }
        assert(req.files.take(request.files@.len() as int) == req.files);
        Ok(())
    }

    /// Rejects a pending request: announces it as rejected with `reason`.
    /// A request that is not pending is refused with a not-found error.
    pub fn reject_transfer_request(&mut self, request_id: &str, reason: Option<String>) -> (r: Result<(), HiveDropError>)
        requires
            old(self).wf(),
        ensures
            final(self).wf(),
            final(self).config() == old(self).config(),
            final(self).model() == with_request_status(old(self).model(), request_id@, TransferStatus::Rejected),
            r is Ok <==> old(self).model().pending.contains_key(request_id@),
            r matches Err(e) ==> is_not_found_error(e, "找不到传输请求: "@ + request_id@),
            r is Err ==> final(self).events() == old(self).events(),
            r is Ok ==> announced(old(self).events(), final(self).events(),
                |e: TransferEvent| e matches TransferEvent::RequestStatusChanged { request_id: i, status: s, message: m }
                    && i@ == request_id@ && s@ == crate::types::status_name(TransferStatus::Rejected) && m == reason),
    {
        self.update_request_status(request_id, TransferStatus::Rejected, reason)
    }

    /// Cancels a sent request. Nothing is done yet: the call always succeeds.
    pub fn cancel_transfer_request(&mut self, request_id: &str) -> (r: Result<(), HiveDropError>)
        ensures
            r is Ok,
            final(self).model() == old(self).model(),
            final(self).config() == old(self).config(),
            final(self).events() == old(self).events(),
    {
        Ok(())
    }

    /// Pauses the download of a file. Nothing is done yet: the call always succeeds.
    pub fn pause_file_download(&mut self, request_id: &str, file_id: &str) -> (r: Result<(), HiveDropError>)
        ensures
            r is Ok,
            final(self).model() == old(self).model(),
            final(self).config() == old(self).config(),
            final(self).events() == old(self).events(),
    {
        Ok(())
    }

    /// Resumes the download of a file. Nothing is done yet: the call always succeeds.
    pub fn resume_file_download(&mut self, request_id: &str, file_id: &str) -> (r: Result<(), HiveDropError>)
        ensures
            r is Ok,
            final(self).model() == old(self).model(),
            final(self).config() == old(self).config(),
            final(self).events() == old(self).events(),
    {
        Ok(())
    }

    /// Cancels the sending of a file. Nothing is done yet: the call always succeeds.
    pub fn cancel_file_send(&mut self, request_id: &str, file_id: &str) -> (r: Result<(), HiveDropError>)
        ensures
            r is Ok,
            final(self).model() == old(self).model(),
            final(self).config() == old(self).config(),
            final(self).events() == old(self).events(),
    {
        Ok(())
    }

    /// Retries a failed transfer. Nothing is done yet: the call always succeeds.
    pub fn retry_failed_transfer(&mut self, request_id: &str, file_id: &str) -> (r: Result<(), HiveDropError>)
        ensures
            r is Ok,
            final(self).model() == old(self).model(),
            final(self).config() == old(self).config(),
            final(self).events() == old(self).events(),
    {
        Ok(())
    }

    /// Cancels the receiving of a request: announces the cancellation with `reason`.
    pub fn cancel_file_receiving(&mut self, request_id: &str, reason: &str) -> (r: Result<(), HiveDropError>)
        requires
            old(self).wf(),
        ensures
            r is Ok,
            final(self).wf(),
            final(self).model() == old(self).model(),
            final(self).config() == old(self).config(),
            announced(old(self).events(), final(self).events(),
                |e: TransferEvent| e matches TransferEvent::TransferCancelled { request_id: i, reason: w }
                    && i@ == request_id@ && w@ == reason@),
    {
        self.send_event(TransferEvent::TransferCancelled { request_id: request_id.to_owned(), reason: reason.to_owned() });
        Ok(())
    }

    /// Copies of all pending (received) requests.
    pub fn get_received_requests(&self) -> (r: Result<Vec<TransferRequest>, HiveDropError>)
        requires
            self.wf(),
        ensures
            r matches Ok(v) && lists_exactly(v@, self.model().pending),
    {
        let v = requests_values(&self.pending_requests);
        Ok(v)
    }

    /// Copies of all sent requests.
    pub fn get_sent_requests(&self) -> (r: Result<Vec<TransferRequest>, HiveDropError>)
        requires
            self.wf(),
        ensures
            r matches Ok(v) && lists_exactly(v@, self.model().sent),
    {
        let v = requests_values(&self.sent_requests);
        Ok(v)
    }

    /// Copies of all known devices.
    pub fn get_known_devices(&self) -> (r: Result<Vec<DeviceInfo>, HiveDropError>)
        requires
            self.wf(),
        ensures
            r matches Ok(v) && lists_exactly(v@, self.model().devices),
    {
        let v = devices_values(&self.known_devices);
        Ok(v)
    }

    /// Copies of all files to send.
    pub fn get_pending_send_files(&self) -> (r: Result<Vec<PendingSendFileInfo>, HiveDropError>)
        requires
            self.wf(),
        ensures
            r matches Ok(v) && lists_exactly(v@, self.model().send_files),
    {
        let v = send_files_values(&self.sent_files);
        Ok(v)
    }

    /// Copies of all files to receive.
    pub fn get_pending_receive_files(&self) -> (r: Result<Vec<PendingReceiveFileInfo>, HiveDropError>)
        requires
            self.wf(),
        ensures
            r matches Ok(v) && lists_exactly(v@, self.model().receive_files),
    {
        let v = receive_files_values(&self.received_files);
        Ok(v)
    }

    /// The discovery level of this device.
    pub fn get_discovery_level(&self) -> (r: DiscoveryLevel)
        ensures
            r == self.config().discovery_level,
    {
        self.config.discovery_level
    }

    /// Sets the discovery level of this device and announces the change.
    pub fn set_discovery_level(&mut self, level: DiscoveryLevel) -> (r: Result<(), HiveDropError>)
        requires
            old(self).wf(),
        ensures
            r is Ok,
            final(self).wf(),
            final(self).model() == old(self).model(),
            final(self).config() == (TransferServiceConfig { discovery_level: level, ..old(self).config() }),
            announced(old(self).events(), final(self).events(),
                |e: TransferEvent| e matches TransferEvent::DiscoveryLevelChanged { device_id: d, level: l }
                    && d == old(self).config().device_id && l == level),
    {
        self.config.discovery_level = level;
        let device_id = self.config.device_id.clone();
        self.send_event(TransferEvent::DiscoveryLevelChanged { device_id, level });
        Ok(())
    }

    /// Marks the service as running and announces it, unless it already runs.
    /// Returns whether it was started now: the caller then launches the server
    /// and the download manager.
    pub fn start(&mut self) -> (started: bool)
        requires
            old(self).wf(),
        ensures
            final(self).wf(),
            final(self).config() == old(self).config(),
            started == !old(self).model().running,
            final(self).model() == start_spec(old(self).model()),
            !started ==> final(self).events() == old(self).events(),
            started ==> final(self).events() == old(self).events().push(TransferEvent::ServiceStarted),
    {
        if self.is_running {
            return false;
        }
        self.is_running = true;
        self.send_event(TransferEvent::ServiceStarted);
        true
    }

    /// Marks the service as stopped and announces it, unless it is not running.
    /// Returns whether it was stopped now: the caller then stops the server and
    /// the download manager.
    pub fn stop(&mut self) -> (stopped: bool)
        requires
            old(self).wf(),
        ensures
            final(self).wf(),
            final(self).config() == old(self).config(),
            stopped == old(self).model().running,
            final(self).model() == stop_spec(old(self).model()),
            !stopped ==> final(self).events() == old(self).events(),
            stopped ==> final(self).events() == old(self).events().push(TransferEvent::ServiceStopped),
    {
        if !self.is_running {
            return false;
        }
        self.is_running = false;
        self.send_event(TransferEvent::ServiceStopped);
        true
    }

    /// Stops the service and forgets the known devices and all requests.
    /// Returns whether it was running.
    pub fn shutdown(&mut self) -> (was_running: bool)
        requires
            old(self).wf(),
        ensures
            final(self).wf(),
            final(self).config() == old(self).config(),
            was_running == old(self).model().running,
            final(self).model() == shutdown_spec(old(self).model()),
            !was_running ==> final(self).events() == old(self).events(),
            was_running ==> final(self).events() == old(self).events().push(TransferEvent::ServiceStopped),
    {
        let was_running = self.stop();
        devices_clear(&mut self.known_devices);
        requests_clear(&mut self.pending_requests);
        requests_clear(&mut self.sent_requests);
        proof {
            lemma_views_empty(tables::device_table(self.known_devices));
            lemma_views_empty(tables::request_table(self.pending_requests));
            lemma_views_empty(tables::request_table(self.sent_requests));
        }
        was_running
    }
}


/// The record of a device after a scan at `addr:port` answered with `id`,
/// `online` and `version`: a known device gains the address if new and takes the
/// new state and version (its port stays); an unknown one is recorded with that
/// address and port.
pub open spec fn scanned_device(m: ServiceModel, addr: Seq<char>, port: u16, id: Seq<char>, online: bool, version: Seq<char>) -> DeviceView {
    if m.devices.contains_key(id) {
        let d = m.devices[id];
        DeviceView {
            address: if d.address.contains(addr) { d.address } else { d.address.push(addr) },
            is_online: online,
            version: version,
            ..d
        }
    } else {
        DeviceView { device_id: id, address: seq![addr], port: port, is_online: online, version: version, extra_info: None }
    }
}

/// The state after a scan of `addr:port` answered with `id`, `online` and `version`.
pub open spec fn scan_spec(m: ServiceModel, addr: Seq<char>, port: u16, id: Seq<char>, online: bool, version: Seq<char>) -> ServiceModel {
    ServiceModel { devices: m.devices.insert(id, scanned_device(m, addr, port, id, online, version)), ..m }
}

/// The state after a peer at `ip` reported its status (`id`, `port`, `online`,
/// `version`): an unknown peer is recorded; a known one is left as it is.
pub open spec fn peer_status_spec(m: ServiceModel, ip: Seq<char>, id: Seq<char>, port: u16, online: bool, version: Seq<char>) -> ServiceModel {
    if m.devices.contains_key(id) {
        m
    } else {
        ServiceModel {
            devices: m.devices.insert(id, DeviceView {
                device_id: id, address: seq![ip], port: port, is_online: online, version: version, extra_info: None,
            }),
            ..m
        }
    }
}

impl HttpTransferService {
    /// Records what a scan of `sender_address:port` learnt (`status`): updates the
    /// device if known (adding the address when new) and announces the update, or
    /// records it as discovered and announces the discovery. Returns the record.
    pub fn record_scanned_device(&mut self, sender_address: &str, port: u16, status: &DeviceStatusInfo) -> (r: DeviceInfo)
        requires
            old(self).wf(),
        ensures
            final(self).wf(),
            final(self).config() == old(self).config(),
            r@ == scanned_device(old(self).model(), sender_address@, port, status.device_id@, status.is_online, status.version@),
            final(self).model() == scan_spec(old(self).model(), sender_address@, port, status.device_id@, status.is_online, status.version@),
            old(self).model().devices.contains_key(status.device_id@) ==> announced(old(self).events(), final(self).events(),
                |e: TransferEvent| e matches TransferEvent::DeviceUpdated(d) && d@ == r@),
            !old(self).model().devices.contains_key(status.device_id@) ==> announced(old(self).events(), final(self).events(),
                |e: TransferEvent| e matches TransferEvent::DeviceDiscovered(d) && d@ == r@),
    {
        let ghost m0 = self.model();
        match devices_get(&self.known_devices, status.device_id.as_str()) {
            Some(existing) => {
                let mut device = existing;
                if !crate::text::contains_string(&device.address, sender_address) {
                    device.address.push(sender_address.to_owned());
                    assert(crate::text::strings_view(device.address@) =~= m0.devices[status.device_id@].address.push(sender_address@));
                }
                device.is_online = status.is_online;
                device.version = status.version.clone();
                let copy = device.duplicate();
                let announced_copy = device.duplicate();
                let key = status.device_id.clone();
                proof {
                    lemma_views_insert(tables::device_table(self.known_devices), key@, device);
                }
                devices_insert(&mut self.known_devices, key, device);
                self.send_event(TransferEvent::DeviceUpdated(announced_copy));
                copy
            },
            None => {
                let mut address: Vec<String> = Vec::new();
                address.push(sender_address.to_owned());
                let device = DeviceInfo {
                    device_id: status.device_id.clone(),
                    address,
                    port,
                    is_online: status.is_online,
                    version: status.version.clone(),
                    extra_info: None,
                };
                assert(crate::text::strings_view(device.address@) =~= seq![sender_address@]);
                let copy = device.duplicate();
                let announced_copy = device.duplicate();
                let key = status.device_id.clone();
                proof {
                    lemma_views_insert(tables::device_table(self.known_devices), key@, device);
                }
                devices_insert(&mut self.known_devices, key, device);
                self.send_event(TransferEvent::DeviceDiscovered(announced_copy));
                copy
            },
        }
    }

    /// Handles a peer at `sender_ip` that posted its status (`POST /api/status`):
    /// records the peer if it is not known yet and announces its discovery;
    /// returns this device's status.
    pub fn check_device_status(&mut self, sender_ip: &str, remote: &DeviceStatusInfo) -> (r: DeviceStatusInfo)
        requires
            old(self).wf(),
        ensures
            final(self).wf(),
            final(self).config() == old(self).config(),
            final(self).model() == peer_status_spec(old(self).model(), sender_ip@, remote.device_id@, remote.port, remote.is_online, remote.version@),
            old(self).model().devices.contains_key(remote.device_id@) ==> final(self).events() == old(self).events(),
            !old(self).model().devices.contains_key(remote.device_id@) ==> announced(old(self).events(), final(self).events(),
                |e: TransferEvent| e matches TransferEvent::DeviceDiscovered(d) && d@ == (DeviceView {
                    device_id: remote.device_id@, address: seq![sender_ip@], port: remote.port,
                    is_online: remote.is_online, version: remote.version@, extra_info: None,
                })),
            r.device_id == final(self).config().device_id,
            r.discovery_level == final(self).config().discovery_level,
            r.is_online == final(self).model().running,
            r.version@ == PACKAGE_VERSION@,
            r.port == final(self).config().server_port,
    {
        if !devices_contains(&self.known_devices, remote.device_id.as_str()) {
            let mut address: Vec<String> = Vec::new();
            address.push(sender_ip.to_owned());
            let device = DeviceInfo {
                device_id: remote.device_id.clone(),
                address,
                port: remote.port,
                is_online: remote.is_online,
                version: remote.version.clone(),
                extra_info: None,
            };
            assert(crate::text::strings_view(device.address@) =~= seq![sender_ip@]);
            let announced_copy = device.duplicate();
            let key = remote.device_id.clone();
            proof {
                lemma_views_insert(tables::device_table(self.known_devices), key@, device);
            }
            devices_insert(&mut self.known_devices, key, device);
            self.send_event(TransferEvent::DeviceDiscovered(announced_copy));
        }
        self.get_device_status()
    }

    /// Announces `event` to the subscribers.
    pub fn announce(&mut self, event: TransferEvent)
        requires
            old(self).wf(),
        ensures
            final(self).wf(),
            final(self).events() == old(self).events().push(event),
            final(self).events().drop_last() == old(self).events(),
            final(self).model() == old(self).model(),
            final(self).config() == old(self).config(),
    {
        self.send_event(event);
    }

    /// A copy of the pending request `request_id`, if any.
    pub fn pending_request(&self, request_id: &str) -> (r: Option<TransferRequest>)
        ensures
            r is None <==> !self.model().pending.contains_key(request_id@),
            r matches Some(q) ==> q@ == self.model().pending[request_id@],
    {
        requests_get(&self.pending_requests, request_id)
    }

    /// A copy of the sent request `request_id`, if any.
    pub fn sent_request(&self, request_id: &str) -> (r: Option<TransferRequest>)
        ensures
            r is None <==> !self.model().sent.contains_key(request_id@),
            r matches Some(q) ==> q@ == self.model().sent[request_id@],
    {
        requests_get(&self.sent_requests, request_id)
    }

    /// A copy of the file to send `file_id`, if any.
    pub fn send_file(&self, file_id: &str) -> (r: Option<PendingSendFileInfo>)
        ensures
            r is None <==> !self.model().send_files.contains_key(file_id@),
            r matches Some(f) ==> f@ == self.model().send_files[file_id@],
    {
        send_files_get(&self.sent_files, file_id)
    }

    /// A copy of the file to receive `file_id`, if any.
    pub fn receive_file(&self, file_id: &str) -> (r: Option<PendingReceiveFileInfo>)
        ensures
            r is None <==> !self.model().receive_files.contains_key(file_id@),
            r matches Some(f) ==> f@ == self.model().receive_files[file_id@],
    {
        receive_files_get(&self.received_files, file_id)
    }

    /// Forgets the pending request `request_id`, if any.
    pub fn remove_pending_request(&mut self, request_id: &str)
        requires
            old(self).wf(),
        ensures
            final(self).wf(),
            final(self).model() == (ServiceModel { pending: old(self).model().pending.remove(request_id@), ..old(self).model() }),
            final(self).events() == old(self).events(),
            final(self).config() == old(self).config(),
    {
        proof {
            lemma_views_remove(tables::request_table(self.pending_requests), request_id@);
        }
        requests_remove(&mut self.pending_requests, request_id);
    }

    /// Forgets the sent request `request_id`, if any.
    pub fn remove_sent_request(&mut self, request_id: &str)
        requires
            old(self).wf(),
        ensures
            final(self).wf(),
            final(self).model() == (ServiceModel { sent: old(self).model().sent.remove(request_id@), ..old(self).model() }),
            final(self).events() == old(self).events(),
            final(self).config() == old(self).config(),
    {
        proof {
            lemma_views_remove(tables::request_table(self.sent_requests), request_id@);
        }
        requests_remove(&mut self.sent_requests, request_id);
    }

    /// Forgets the file to send `file_id`, if any.
    pub fn remove_send_file(&mut self, file_id: &str)
        requires
            old(self).wf(),
        ensures
            final(self).wf(),
            final(self).model() == (ServiceModel { send_files: old(self).model().send_files.remove(file_id@), ..old(self).model() }),
            final(self).events() == old(self).events(),
            final(self).config() == old(self).config(),
    {
        proof {
            lemma_views_remove(tables::send_file_table(self.sent_files), file_id@);
        }
        send_files_remove(&mut self.sent_files, file_id);
    }

    /// Forgets the file to receive `file_id`, if any.
    pub fn remove_receive_file(&mut self, file_id: &str)
        requires
            old(self).wf(),
        ensures
            final(self).wf(),
            final(self).model() == (ServiceModel { receive_files: old(self).model().receive_files.remove(file_id@), ..old(self).model() }),
            final(self).events() == old(self).events(),
            final(self).config() == old(self).config(),
    {
        proof {
            lemma_views_remove(tables::receive_file_table(self.received_files), file_id@);
        }
        receive_files_remove(&mut self.received_files, file_id);
    }

    /// Sets the bytes sent of the file to send `file_id`, if it is there.
    pub fn set_send_file_progress(&mut self, file_id: &str, progress: u64)
        requires
            old(self).wf(),
        ensures
            final(self).wf(),
            final(self).events() == old(self).events(),
            final(self).config() == old(self).config(),
            final(self).model() == (if old(self).model().send_files.contains_key(file_id@) {
                ServiceModel {
                    send_files: old(self).model().send_files.insert(file_id@,
                        SendFileView { progress: progress, ..old(self).model().send_files[file_id@] }),
                    ..old(self).model()
                }
            } else {
                old(self).model()
            }),
    {
        match send_files_get(&self.sent_files, file_id) {
            Some(f) => {
                let mut f = f;
                f.progress = progress;
                let key = f.file_id.clone();
                proof {
                    lemma_views_insert(tables::send_file_table(self.sent_files), key@, f);
                }
                send_files_insert(&mut self.sent_files, key, f);
            },
            None => {},
        }
    }

    /// Sets the state (and, when given, the bytes received) of the file to
    /// receive `file_id`, if it is there.
    pub fn set_receive_file_state(&mut self, file_id: &str, progress: Option<u64>, status: TransferStatus)
        requires
            old(self).wf(),
        ensures
            final(self).wf(),
            final(self).events() == old(self).events(),
            final(self).config() == old(self).config(),
            final(self).model() == (if old(self).model().receive_files.contains_key(file_id@) {
                let f = old(self).model().receive_files[file_id@];
                ServiceModel {
                    receive_files: old(self).model().receive_files.insert(file_id@,
                        ReceiveFileView {
                            progress: match progress { Some(p) => p, None => f.progress },
                            status: status,
                            ..f
                        }),
                    ..old(self).model()
                }
            } else {
                old(self).model()
            }),
    {
        match receive_files_get(&self.received_files, file_id) {
            Some(f) => {
                let mut f = f;
                match progress {
                    Some(p) => { f.progress = p; },
                    None => {},
                }
                f.status = status;
                let key = f.file_id.clone();
                proof {
                    lemma_views_insert(tables::receive_file_table(self.received_files), key@, f);
                }
                receive_files_insert(&mut self.received_files, key, f);
            },
            None => {},
        }
    }
}


/// The enumeration of the files under one path, or the error it met.
pub type PathListing = Result<Vec<PendingSendFileInfo>, HiveDropError>;

/// The position of the first failed listing, or the number of listings.
pub open spec fn first_failure(ls: Seq<PathListing>) -> nat
    decreases ls.len(),
{
    if ls.len() == 0 {
        0
    } else if ls[0] is Err {
        0
    } else {
        1 + first_failure(ls.drop_first())
    }
}

proof fn lemma_first_failure(ls: Seq<PathListing>, i: int)
    requires
        0 <= i <= ls.len(),
        forall|j: int| 0 <= j < i ==> #[trigger] ls[j] is Ok,
        i == ls.len() || ls[i] is Err,
    ensures
        first_failure(ls) == i,
    decreases i,
{
    if i > 0 {
        assert forall|j: int| 0 <= j < i - 1 implies #[trigger] ls.drop_first()[j] is Ok by {
            assert(ls.drop_first()[j] == ls[j + 1]);
        }
        lemma_first_failure(ls.drop_first(), i - 1);
    }
}

/// The files of the first `n` listings, in order (failed listings give none).
pub open spec fn listed_files(ls: Seq<PathListing>, n: int) -> Seq<SendFileView>
    decreases n,
{
    if n <= 0 {
        Seq::empty()
    } else {
        listed_files(ls, n - 1) + match ls[n - 1] {
            Ok(v) => v@.map_values(|f: PendingSendFileInfo| f@),
            Err(_) => Seq::empty(),
        }
    }
}

/// `m` with each of `files` put under its id, in order.
pub open spec fn with_send_files(m: Map<Seq<char>, SendFileView>, files: Seq<SendFileView>) -> Map<Seq<char>, SendFileView>
    decreases files.len(),
{
    if files.len() == 0 {
        m
    } else {
        with_send_files(m, files.drop_last()).insert(files.last().file_id, files.last())
    }
}

/// The request that offers `files` to `receiver` under id `id`, from `sender`.
pub open spec fn outgoing_request(id: Seq<char>, sender: Seq<char>, receiver: Seq<char>, files: Seq<SendFileView>) -> RequestView {
    RequestView {
        request_id: id,
        sender_device_id: sender,
        receiver_device_id: receiver,
        files: files.map_values(|f: SendFileView| file_info_of(f)),
        status: "pending"@,
    }
}

/// A request to send, with where to send it.
#[derive(Debug)]
pub struct OutgoingTransferRequest {
    pub request: TransferRequest,
    /// The first address of the receiver.
    pub address: String,
    /// The port of the receiver.
    pub port: u16,
}

/// What preparing a request to `device_id` from the listings `ls` gives, from
/// state `m0` of a service whose own id is `self_id`: the result `r` and the new
/// state `m1` (see `create_transfer_request_by_paths`).
pub open spec fn by_paths_outcome(
    m0: ServiceModel,
    self_id: Seq<char>,
    ls: Seq<PathListing>,
    device_id: Seq<char>,
    r: Result<OutgoingTransferRequest, HiveDropError>,
    m1: ServiceModel,
) -> bool {
    let fe = first_failure(ls);
    let files = listed_files(ls, fe as int);
    let after_files = ServiceModel { send_files: with_send_files(m0.send_files, files), ..m0 };
    if fe < ls.len() {
        &&& r == Err::<OutgoingTransferRequest, HiveDropError>(ls[fe as int]->Err_0)
        &&& m1 == after_files
    } else if files.len() == 0 {
        &&& r matches Err(e) && is_validation_error(e, "没有找到有效文件可发送"@)
        &&& m1 == after_files
    } else {
        exists|id: Seq<char>| #![trigger crate::utils::gen_id::is_uuid_text(id)] {
            let q = outgoing_request(id, self_id, device_id, files);
            &&& crate::utils::gen_id::is_uuid_text(id)
            &&& if after_files.sent.contains_key(id) {
                &&& r matches Err(e) && is_validation_error(e, "传输请求ID已存在"@)
                &&& m1 == after_files
            } else {
                &&& m1 == add_sent_spec(after_files, q)
                &&& if m0.devices.contains_key(device_id) {
                    &&& r matches Ok(out)
                    &&& out.request@ == q
                    &&& out.address@ == m0.devices[device_id].address[0]
                    &&& out.port == m0.devices[device_id].port
                } else {
                    r matches Err(e) && is_not_found_error(e, "接收方设备未找到"@)
                }
            }
        }
    }
}

impl HttpTransferService {
    /// Prepares a transfer request to `device_id` from the listings of the paths to
    /// send, taken in order: the files of each listing join the files to send; the
    /// first failed listing ends the call with its error. With no files at all the
    /// call fails with a validation error. Otherwise a request with a fresh id,
    /// offering all files, is recorded as sent (a clash of ids fails with a
    /// validation error), and the receiver is looked up among the known devices
    /// (failing with a not-found error): the result is the request and the
    /// receiver's first address and port, to which the caller sends it.
    pub fn create_transfer_request_by_paths(
        &mut self,
        listings: Vec<PathListing>,
        device_id: &str,
    ) -> (r: Result<OutgoingTransferRequest, HiveDropError>)
        requires
            old(self).wf(),
        ensures
            final(self).wf(),
            final(self).config() == old(self).config(),
            final(self).events() == old(self).events(),
            by_paths_outcome(old(self).model(), old(self).config().device_id@, listings@, device_id@, r, final(self).model()),
    {
        let ghost m0 = self.model();
        let ghost ls = listings@;
        let request_id = crate::utils::gen_id::generate_unique_id();
        let mut all: Vec<PendingSendFileInfo> = Vec::new();
        for listing in it: listings
            invariant
                it.seq() == ls,
                ls == listings@,
                m0 == old(self).model(),
                forall|j: int| 0 <= j < it.index() ==> #[trigger] ls[j] is Ok,
                all@.map_values(|f: PendingSendFileInfo| f@) == listed_files(ls, it.index() as int),
                self.wf(),
                self.config() == old(self).config(),
                self.events() == old(self).events(),
                self.model() == (ServiceModel { send_files: with_send_files(m0.send_files, listed_files(ls, it.index() as int)), ..m0 }),
        {
            let ghost i = it.index();
            assert(listing == ls[i as int]);
            match listing {
                Err(e) => {
                    proof {
                        lemma_first_failure(ls, i as int);
                    }
                    return Err(e);
                },
                Ok(files) => {
                    let ghost fv = files@.map_values(|f: PendingSendFileInfo| f@);
                    let ghost before = listed_files(ls, i as int);
                    assert(listed_files(ls, i + 1) == before + fv);
                    for file in it2: files
                        invariant
                            it2.seq() == files@,
                            fv == files@.map_values(|f: PendingSendFileInfo| f@),
                            all@.map_values(|f: PendingSendFileInfo| f@) == before + fv.take(it2.index() as int),
                            self.wf(),
                            self.config() == old(self).config(),
                            self.events() == old(self).events(),
                            self.model() == (ServiceModel { send_files: with_send_files(m0.send_files, before + fv.take(it2.index() as int)), ..m0 }),
                    {
                        let ghost k = it2.index();
                        let ghost done = before + fv.take(k as int);
                        assert(before + fv.take(k + 1) == done.push(file@));
                        assert(done.push(file@).drop_last() == done);
                        let copy = file.duplicate();
                        let key = file.file_id.clone();
                        proof {
                            lemma_views_insert(tables::send_file_table(self.sent_files), key@, copy);
                        }
                        send_files_insert(&mut self.sent_files, key, copy);
                        all.push(file);
                        assert(all@.map_values(|f: PendingSendFileInfo| f@) =~= done.push(file@));
                    }
                    assert(fv.take(files@.len() as int) == fv);
                },
            }
        }
        proof {
            lemma_first_failure(ls, ls.len() as int);
        }
        let ghost files = listed_files(ls, ls.len() as int);
        let ghost after_files = self.model();
        if all.len() == 0 {
            return Err(HiveDropError::ValidationError("没有找到有效文件可发送".to_owned()));
        }
        let mut infos: Vec<FileInfo> = Vec::new();
        for j in 0..all.len()
            invariant
                infos@.len() == j,
                all@.map_values(|f: PendingSendFileInfo| f@) == files,
                forall|t: int| 0 <= t < j ==> #[trigger] infos@[t]@ == file_info_of(files[t]),
        {
            let info = all[j].to_file_info();
            infos.push(info);
        }
        let request = TransferRequest {
            request_id,
            sender_device_id: self.config.device_id.clone(),
            receiver_device_id: device_id.to_owned(),
            files: infos,
            status: "pending".to_owned(),
        };
        let ghost q = outgoing_request(request_id@, old(self).config().device_id@, device_id@, files);
        assert(request@.files =~= q.files);
        assert(request@ == q);
        let ghost id = request_id@;
        self.add_sent_request(request.duplicate())?;
        match self.get_device_info(device_id) {
            None => Err(HiveDropError::NotFoundError("接收方设备未找到".to_owned())),
            Some(receiver) => {
                let address = receiver.address[0].clone();
                Ok(OutgoingTransferRequest { request, address, port: receiver.port })
            },
        }
    }

    /// Prepares a transfer request to `device_id` from the listing of one path
    /// (see `create_transfer_request_by_paths`).
    pub fn create_transfer_request_by_path(
        &mut self,
        listing: PathListing,
        device_id: &str,
    ) -> (r: Result<OutgoingTransferRequest, HiveDropError>)
        requires
            old(self).wf(),
        ensures
            final(self).wf(),
            final(self).config() == old(self).config(),
            final(self).events() == old(self).events(),
            by_paths_outcome(old(self).model(), old(self).config().device_id@, seq![listing], device_id@, r, final(self).model()),
    {
        let ghost one = listing;
        let mut listings: Vec<PathListing> = Vec::new();
        listings.push(listing);
        assert(listings@ =~= seq![one]);
        self.create_transfer_request_by_paths(listings, device_id)
    }
}

} // verus!
