use vstd::prelude::*;
use std::collections::VecDeque;
use crate::dto::request::TransferProgress;
use crate::error::HiveDropError;
use crate::http::service::{announced, HttpTransferService, ServiceModel};
use crate::text::{concat, decimal, push_str, str_eq, u64_to_decimal};
use crate::types::{DeviceInfo, ReceiveFileView, TransferEvent, TransferStatus};

verus! {

/// Most downloads at the same time.
pub const MAX_CONCURRENT_DOWNLOADS: usize = 5;

/// Retries of a whole download after the first attempt.
pub const MAX_DOWNLOAD_RETRIES: u32 = 2;

/// Attempts at downloading one chunk.
pub const MAX_CHUNK_RETRIES: u32 = 5;

/// Attempts at reporting progress to the sender.
pub const MAX_REPORT_RETRIES: u32 = 3;

/// Seconds of history that the speed of a download is averaged over.
pub const SPEED_HISTORY_SECONDS: usize = 5;

/// Milliseconds between local progress updates.
pub const PROGRESS_INTERVAL_MS: u64 = 500;

/// Milliseconds between progress reports to the sender.
pub const SENDER_REPORT_INTERVAL_MS: u64 = 2000;

/// Seconds to wait before retrying a failed download.
pub const DOWNLOAD_RETRY_DELAY_SECS: u64 = 2;

/// The download of one file to receive.
#[derive(Debug)]
pub struct DownloadTask {
    pub request_id: String,
    pub file_id: String,
    /// The sender.
    pub device_id: String,
    /// Where the file is saved.
    pub save_path: String,
    pub file_size: u64,
    pub is_dir: bool,
    /// Bytes already there, from which the download resumes.
    pub start_offset: u64,
    /// Retries made so far.
    pub retry_count: u32,
}

/// The download task for file `f` to receive: from its saved progress, no retries yet.
pub open spec fn task_matches(t: DownloadTask, f: ReceiveFileView) -> bool {
    &&& t.request_id@ == f.request_id
    &&& t.file_id@ == f.file_id
    &&& t.device_id@ == f.device_id
    &&& t.save_path@ == f.file_absolute_path
    &&& t.file_size == f.file_size
    &&& t.is_dir == f.is_dir
    &&& t.start_offset == f.progress
    &&& t.retry_count == 0
}

/// File `f` as handed out for download: an accepted file becomes in progress.
pub open spec fn handed_out(f: ReceiveFileView) -> ReceiveFileView {
    if f.status == TransferStatus::Accepted {
        ReceiveFileView { status: TransferStatus::InProgress, ..f }
    } else {
        f
    }
}

/// The state after the accepted files to receive are handed out for download.
pub open spec fn collect_spec(m: ServiceModel) -> ServiceModel {
    ServiceModel { receive_files: m.receive_files.map_values(|f: ReceiveFileView| handed_out(f)), ..m }
}

/// Some of the first `i` listed files has id `k`.
#[verifier::opaque]
pub open spec fn seen_before(fs: Seq<crate::types::PendingReceiveFileInfo>, i: int, k: Seq<char>) -> bool {
    exists|j: int| 0 <= j < i && (#[trigger] fs[j])@.file_id == k
}

/// The files to receive of `m` once the first `i` listed files have been handed out.
pub open spec fn handed_out_so_far(
    m: Map<Seq<char>, ReceiveFileView>,
    fs: Seq<crate::types::PendingReceiveFileInfo>,
    i: int,
) -> Map<Seq<char>, ReceiveFileView> {
    Map::new(|k: Seq<char>| m.contains_key(k), |k: Seq<char>| if seen_before(fs, i, k) { handed_out(m[k]) } else { m[k] })
}

proof fn lemma_handed_out_start(m: Map<Seq<char>, ReceiveFileView>, fs: Seq<crate::types::PendingReceiveFileInfo>)
    ensures
        handed_out_so_far(m, fs, 0) == m,
{
    reveal(seen_before);
    assert(handed_out_so_far(m, fs, 0) =~= m);
}

proof fn lemma_handed_out_step(
    m: Map<Seq<char>, ReceiveFileView>,
    fs: Seq<crate::types::PendingReceiveFileInfo>,
    i: int,
)
    requires
        0 <= i < fs.len(),
        m.contains_key(fs[i]@.file_id),
        m[fs[i]@.file_id] == fs[i]@,
    ensures
        ({
            let k = fs[i]@.file_id;
            let cur = handed_out_so_far(m, fs, i);
            &&& cur.contains_key(k)
            &&& handed_out_so_far(m, fs, i + 1) == if fs[i]@.status == TransferStatus::Accepted {
                cur.insert(k, ReceiveFileView { status: TransferStatus::InProgress, ..cur[k] })
            } else {
                cur
            }
        }),
{
    reveal(seen_before);
    let k = fs[i]@.file_id;
    let cur = handed_out_so_far(m, fs, i);
    assert(seen_before(fs, i + 1, k)) by {
        assert(fs[i]@.file_id == k);
    }
    assert forall|k2: Seq<char>| k2 != k implies seen_before(fs, i + 1, k2) == seen_before(fs, i, k2) by {
        if seen_before(fs, i + 1, k2) {
            let j = choose|j: int| 0 <= j < i + 1 && (#[trigger] fs[j])@.file_id == k2;
            assert(j != i);
        }
    }
    if fs[i]@.status == TransferStatus::Accepted {
        assert(handed_out_so_far(m, fs, i + 1) =~= cur.insert(k, ReceiveFileView { status: TransferStatus::InProgress, ..cur[k] }));
    } else {
        assert(handed_out_so_far(m, fs, i + 1) =~= cur);
    }
}

proof fn lemma_handed_out_all(m: Map<Seq<char>, ReceiveFileView>, fs: Seq<crate::types::PendingReceiveFileInfo>)
    requires
        crate::http::tables::lists_exactly(fs, m),
        forall|k: Seq<char>| #[trigger] m.contains_key(k) ==> m[k].file_id == k,
    ensures
        handed_out_so_far(m, fs, fs.len() as int) == m.map_values(|f: ReceiveFileView| handed_out(f)),
{
    reveal(seen_before);
    assert forall|k: Seq<char>| #[trigger] m.contains_key(k) implies seen_before(fs, fs.len() as int, k) by {
        let j = choose|j: int| 0 <= j < fs.len() && fs[j]@ == m[k];
        assert(fs[j]@.file_id == k);
    }
    assert(handed_out_so_far(m, fs, fs.len() as int) =~= m.map_values(|f: ReceiveFileView| handed_out(f)));
}

/// A listing of the files to receive names each file once: the files carry
/// their own keys, and the listing has as many entries as the table.
proof fn lemma_listed_ids_distinct(fs: Seq<crate::types::PendingReceiveFileInfo>, m: Map<Seq<char>, ReceiveFileView>)
    requires
        crate::http::tables::lists_exactly(fs, m),
        m.dom().finite(),
        forall|k: Seq<char>| #[trigger] m.contains_key(k) ==> m[k].file_id == k,
    ensures
        forall|i: int, j: int| 0 <= i < fs.len() && 0 <= j < fs.len() && i != j
            ==> (#[trigger] fs[i])@.file_id != (#[trigger] fs[j])@.file_id,
{
    let ids = fs.map_values(|f: crate::types::PendingReceiveFileInfo| f@.file_id);
    assert forall|k: Seq<char>| ids.to_set().contains(k) implies m.dom().contains(k) by {
        let t = choose|t: int| 0 <= t < ids.len() && ids[t] == k;
        assert(fs[t]@.file_id == k);
        let k2 = choose|k2: Seq<char>| #[trigger] m.contains_key(k2) && m[k2] == fs[t]@;
        assert(k2 == k);
    }
    assert forall|k: Seq<char>| m.dom().contains(k) implies ids.to_set().contains(k) by {
        assert(m.contains_key(k));
        let t = choose|t: int| 0 <= t < fs.len() && fs[t]@ == m[k];
        assert(ids[t] == k);
    }
    assert(ids.to_set() =~= m.dom());
    ids.lemma_no_dup_set_cardinality();
    assert forall|i: int, j: int| 0 <= i < fs.len() && 0 <= j < fs.len() && i != j
        implies (#[trigger] fs[i])@.file_id != (#[trigger] fs[j])@.file_id by {
        assert(ids[i] == fs[i]@.file_id);
        assert(ids[j] == fs[j]@.file_id);
    }
}

/// Hands out the accepted files to receive for download: one task for each (from
/// its saved progress), and each is marked in progress.
pub fn collect_download_tasks(service: &mut HttpTransferService) -> (r: Vec<DownloadTask>)
    requires
        old(service).wf(),
    ensures
        final(service).wf(),
        final(service).config() == old(service).config(),
        final(service).events() == old(service).events(),
        final(service).model() == collect_spec(old(service).model()),
        forall|i: int| #![trigger r@[i]] 0 <= i < r@.len() ==> {
            &&& old(service).model().receive_files.contains_key(r@[i].file_id@)
            &&& old(service).model().receive_files[r@[i].file_id@].status == TransferStatus::Accepted
            &&& task_matches(r@[i], old(service).model().receive_files[r@[i].file_id@])
            &&& r@[i].is_dir == old(service).model().receive_files[r@[i].file_id@].is_dir
            &&& r@[i].file_size == old(service).model().receive_files[r@[i].file_id@].file_size
            &&& r@[i].save_path@ == old(service).model().receive_files[r@[i].file_id@].file_absolute_path
        },
        forall|k: Seq<char>| #[trigger] old(service).model().receive_files.contains_key(k)
            && old(service).model().receive_files[k].status == TransferStatus::Accepted
            ==> exists|i: int| 0 <= i < r@.len() && r@[i].file_id@ == k,
        forall|i: int, j: int| 0 <= i < r@.len() && 0 <= j < r@.len() && i != j
            ==> (#[trigger] r@[i]).file_id@ != (#[trigger] r@[j]).file_id@,
{
    let ghost m0 = service.model();
    let files = match service.get_pending_receive_files() {
        Ok(v) => v,
        Err(_) => Vec::new(),
    };
    let ghost fs = files@;
    proof {
        lemma_handed_out_start(m0.receive_files, fs);
        lemma_listed_ids_distinct(fs, m0.receive_files);
    }
    let mut tasks: Vec<DownloadTask> = Vec::new();
    let mut i: usize = 0;
    while i < files.len()
        invariant
            i <= files@.len(),
            fs == files@,
            m0 == old(service).model(),
            crate::http::service::model_wf(m0),
            crate::http::tables::lists_exactly(fs, m0.receive_files),
            service.wf(),
            service.config() == old(service).config(),
            service.events() == old(service).events(),
            service.model() == (ServiceModel { receive_files: handed_out_so_far(m0.receive_files, fs, i as int), ..m0 }),
            forall|t: int| #![trigger tasks@[t]] 0 <= t < tasks@.len() ==> {
                &&& m0.receive_files.contains_key(tasks@[t].file_id@)
                &&& m0.receive_files[tasks@[t].file_id@].status == TransferStatus::Accepted
                &&& task_matches(tasks@[t], m0.receive_files[tasks@[t].file_id@])
            },
            forall|j: int| 0 <= j < i && (#[trigger] fs[j])@.status == TransferStatus::Accepted ==>
                exists|t: int| 0 <= t < tasks@.len() && tasks@[t].file_id@ == fs[j]@.file_id,
            forall|a: int, b: int| 0 <= a < fs.len() && 0 <= b < fs.len() && a != b
                ==> (#[trigger] fs[a])@.file_id != (#[trigger] fs[b])@.file_id,
            forall|t: int| #![trigger tasks@[t]] 0 <= t < tasks@.len()
                ==> exists|j: int| 0 <= j < i && tasks@[t].file_id@ == (#[trigger] fs[j])@.file_id,
            forall|a: int, b: int| 0 <= a < tasks@.len() && 0 <= b < tasks@.len() && a != b
                ==> (#[trigger] tasks@[a]).file_id@ != (#[trigger] tasks@[b]).file_id@,
        decreases files@.len() - i,
    {
        let f = &files[i];
        let ghost kk = choose|kk: Seq<char>| #[trigger] m0.receive_files.contains_key(kk) && m0.receive_files[kk] == fs[i as int]@;
        assert(m0.receive_files.contains_key(kk) && m0.receive_files[kk] == fs[i as int]@);
        assert(kk == f@.file_id);
        proof {
            lemma_handed_out_step(m0.receive_files, fs, i as int);
        }
        let ghost old_tasks = tasks@;
        if f.status == TransferStatus::Accepted {
            let task = DownloadTask {
                request_id: f.request_id.clone(),
                file_id: f.file_id.clone(),
                device_id: f.device_id.clone(),
                save_path: f.file_absolute_path.clone(),
                file_size: f.file_size,
                is_dir: f.is_dir,
                start_offset: f.progress,
                retry_count: 0,
            };
            tasks.push(task);
            service.set_receive_file_state(f.file_id.as_str(), None, TransferStatus::InProgress);
            assert(tasks@[tasks@.len() - 1].file_id@ == fs[i as int]@.file_id);
            assert forall|t: int| 0 <= t < old_tasks.len() implies
                #[trigger] old_tasks[t].file_id@ != fs[i as int]@.file_id by {
                assert(old_tasks[t] == tasks@[t]);
                let j = choose|j: int| 0 <= j < i && tasks@[t].file_id@ == (#[trigger] fs[j])@.file_id;
            }
            assert forall|a: int, b: int| 0 <= a < tasks@.len() && 0 <= b < tasks@.len() && a != b
                implies (#[trigger] tasks@[a]).file_id@ != (#[trigger] tasks@[b]).file_id@ by {
                if a < old_tasks.len() && b < old_tasks.len() {
                    assert(tasks@[a] == old_tasks[a] && tasks@[b] == old_tasks[b]);
                } else if a < old_tasks.len() {
                    assert(tasks@[a] == old_tasks[a]);
                } else {
                    assert(tasks@[b] == old_tasks[b]);
                }
            }
        }
        assert forall|t: int| #![trigger tasks@[t]] 0 <= t < tasks@.len()
            implies exists|j: int| 0 <= j < i + 1 && tasks@[t].file_id@ == (#[trigger] fs[j])@.file_id by {
            if t < old_tasks.len() {
                assert(tasks@[t] == old_tasks[t]);
                let j = choose|j: int| 0 <= j < i && old_tasks[t].file_id@ == (#[trigger] fs[j])@.file_id;
                assert(0 <= j < i + 1 && tasks@[t].file_id@ == fs[j]@.file_id);
            } else {
                assert(tasks@[t].file_id@ == fs[i as int]@.file_id);
            }
        }
        assert forall|j: int| 0 <= j < i + 1 && (#[trigger] fs[j])@.status == TransferStatus::Accepted
            implies exists|t: int| 0 <= t < tasks@.len() && tasks@[t].file_id@ == fs[j]@.file_id by {
            if j < i {
                let t = choose|t: int| 0 <= t < old_tasks.len() && old_tasks[t].file_id@ == fs[j]@.file_id;
                assert(tasks@[t] == old_tasks[t]);
            } else {
                assert(tasks@[tasks@.len() - 1].file_id@ == fs[i as int]@.file_id);
            }
        }
        i = i + 1;
    }
    proof {
        lemma_handed_out_all(m0.receive_files, fs);
    }
    assert forall|k: Seq<char>| #[trigger] m0.receive_files.contains_key(k)
        && m0.receive_files[k].status == TransferStatus::Accepted
        implies exists|i: int| 0 <= i < tasks@.len() && tasks@[i].file_id@ == k by {
        let j = choose|j: int| 0 <= j < fs.len() && fs[j]@ == m0.receive_files[k];
        assert(fs[j]@.file_id == k);
    }
    tasks
}


/// The sum of a sequence of byte counts.
pub open spec fn seq_sum(s: Seq<u64>) -> nat
    decreases s.len(),
{
    if s.len() == 0 {
        0
    } else {
        seq_sum(s.drop_last()) + (s.last() as nat)
    }
}

proof fn lemma_seq_sum_bound(s: Seq<u64>)
    ensures
        seq_sum(s) <= s.len() * (u64::MAX as nat),
    decreases s.len(),
{
    if s.len() > 0 {
        lemma_seq_sum_bound(s.drop_last());
        assert(seq_sum(s) <= s.len() * (u64::MAX as nat)) by (nonlinear_arith)
            requires
                seq_sum(s) == seq_sum(s.drop_last()) + s.last(),
                seq_sum(s.drop_last()) <= s.drop_last().len() * (u64::MAX as nat),
                s.drop_last().len() + 1 == s.len(),
                s.last() <= u64::MAX;
    }
}

/// The abstract value of a `SpeedStat`.
pub struct SpeedStatView {
    pub file_id: Seq<char>,
    pub bytes_last_second: u64,
    pub bytes_history: Seq<u64>,
}

/// The bytes a download received in the current second and in each of the last
/// few whole seconds (oldest first).
#[derive(Debug)]
pub struct SpeedStat {
    pub file_id: String,
    pub bytes_last_second: u64,
    pub bytes_history: VecDeque<u64>,
}

impl View for SpeedStat {
    type V = SpeedStatView;

    open spec fn view(&self) -> SpeedStatView {
        SpeedStatView { file_id: self.file_id@, bytes_last_second: self.bytes_last_second, bytes_history: self.bytes_history@ }
    }
}

/// The speed of a download, in bytes per second: the average over its history
/// of whole seconds, or the bytes of the current second when there is no history yet.
pub open spec fn speed_spec(v: SpeedStatView) -> nat {
    if v.bytes_history.len() == 0 {
        v.bytes_last_second as nat
    } else {
        seq_sum(v.bytes_history) / v.bytes_history.len()
    }
}

/// A download's statistics one second later: the current second joins the
/// history, which keeps its last five seconds, and a new second starts.
pub open spec fn tick_spec(v: SpeedStatView) -> SpeedStatView {
    let h = v.bytes_history.push(v.bytes_last_second);
    SpeedStatView {
        bytes_history: if h.len() > SPEED_HISTORY_SECONDS { h.drop_first() } else { h },
        bytes_last_second: 0,
        ..v
    }
}

/// The position of the statistics of `file_id`, or -1.
pub open spec fn stat_position(s: Seq<SpeedStatView>, file_id: Seq<char>) -> int
    decreases s.len(),
{
    if s.len() == 0 {
        -1
    } else if s.last().file_id == file_id {
        s.len() - 1
    } else {
        stat_position(s.drop_last(), file_id)
    }
}

proof fn lemma_stat_position(s: Seq<SpeedStatView>, file_id: Seq<char>)
    ensures
        -1 <= stat_position(s, file_id) < s.len(),
        stat_position(s, file_id) >= 0 ==> s[stat_position(s, file_id)].file_id == file_id,
        stat_position(s, file_id) < 0 ==> forall|i: int| 0 <= i < s.len() ==> #[trigger] s[i].file_id != file_id,
    decreases s.len(),
{
    if s.len() > 0 {
        lemma_stat_position(s.drop_last(), file_id);
        if s.last().file_id != file_id {
            assert forall|i: int| 0 <= i < s.len() - 1 implies #[trigger] s[i] == s.drop_last()[i] by {}
        }
    }
}

/// The speed statistics of the running downloads, one per file.
#[derive(Debug)]
pub struct SpeedBook {
    stats: Vec<SpeedStat>,
}

impl SpeedBook {
    /// The statistics, in the order the downloads started.
    pub closed spec fn view_stats(&self) -> Seq<SpeedStatView> {
        self.stats@.map_values(|x: SpeedStat| x@)
    }

    /// At most one statistics per file, each with at most five seconds of history.
    pub open spec fn wf(&self) -> bool {
        &&& forall|i: int, j: int| 0 <= i < j < self.view_stats().len()
            ==> self.view_stats()[i].file_id != self.view_stats()[j].file_id
        &&& forall|i: int| 0 <= i < self.view_stats().len()
            ==> (#[trigger] self.view_stats()[i]).bytes_history.len() <= SPEED_HISTORY_SECONDS
    }

    /// No statistics.
    pub fn new() -> (r: SpeedBook)
        ensures
            r.wf(),
            r.view_stats() == Seq::<SpeedStatView>::empty(),
    {
        let r = SpeedBook { stats: Vec::new() };
        assert(r.view_stats() =~= Seq::<SpeedStatView>::empty());
        r
    }

    fn find(&self, file_id: &str) -> (r: Option<usize>)
        ensures
            r matches Some(i) ==> stat_position(self.view_stats(), file_id@) == i,
            r is None ==> stat_position(self.view_stats(), file_id@) < 0,
    {
        proof {
            lemma_stat_position(self.view_stats(), file_id@);
        }
        let mut i: usize = self.stats.len();
        while i > 0
            invariant
                i <= self.stats@.len(),
                forall|j: int| i <= j < self.view_stats().len() ==> #[trigger] self.view_stats()[j].file_id != file_id@,
            decreases i,
        {
            assert(self.view_stats()[i - 1] == self.stats@[i - 1]@);
            if str_eq(self.stats[i - 1].file_id.as_str(), file_id) {
                proof {
                    lemma_stat_position_from(self.view_stats(), file_id@, i - 1);
                }
                return Some(i - 1);
            }
            i = i - 1;
        }
        None
    }

    /// Starts the statistics of a download of `file_id` from zero, replacing any.
    pub fn begin(&mut self, file_id: &str)
        requires
            old(self).wf(),
        ensures
            final(self).wf(),
            ({
                let s = old(self).view_stats();
                let fresh = SpeedStatView { file_id: file_id@, bytes_last_second: 0, bytes_history: Seq::empty() };
                let p = stat_position(s, file_id@);
                final(self).view_stats() == if p >= 0 { s.update(p, fresh) } else { s.push(fresh) }
            }),
    {
        let fresh = SpeedStat { file_id: file_id.to_owned(), bytes_last_second: 0, bytes_history: VecDeque::with_capacity(SPEED_HISTORY_SECONDS) };
        let ghost s = self.view_stats();
        proof {
            lemma_stat_position(s, file_id@);
        }
        match self.find(file_id) {
            Some(i) => {
                self.stats.set(i, fresh);
                assert(self.view_stats() =~= s.update(i as int, fresh@));
            },
            None => {
                self.stats.push(fresh);
                assert(self.view_stats() =~= s.push(fresh@));
            },
        }
    }

    /// Counts `n` more bytes in the current second of the download of `file_id`,
    /// if it has statistics (counting stops at `u64::MAX`).
    pub fn add_bytes(&mut self, file_id: &str, n: u64)
        requires
            old(self).wf(),
        ensures
            final(self).wf(),
            ({
                let s = old(self).view_stats();
                let p = stat_position(s, file_id@);
                final(self).view_stats() == if p >= 0 {
                    s.update(p, SpeedStatView {
                        bytes_last_second: if s[p].bytes_last_second + n <= u64::MAX { (s[p].bytes_last_second + n) as u64 } else { u64::MAX },
                        ..s[p]
                    })
                } else {
                    s
                }
            }),
    {
        let ghost s = self.view_stats();
        proof {
            lemma_stat_position(s, file_id@);
        }
        match self.find(file_id) {
            Some(i) => {
                let old_stat = &self.stats[i];
                let stat = SpeedStat {
                    file_id: old_stat.file_id.clone(),
                    bytes_last_second: old_stat.bytes_last_second.saturating_add(n),
                    bytes_history: copy_history(&old_stat.bytes_history),
                };
                self.stats.set(i, stat);
                assert(self.view_stats() =~= s.update(i as int, stat@));
            },
            None => {},
        }
    }

    /// Drops the statistics of the download of `file_id`, if any.
    pub fn end(&mut self, file_id: &str)
        requires
            old(self).wf(),
        ensures
            final(self).wf(),
            ({
                let s = old(self).view_stats();
                let p = stat_position(s, file_id@);
                final(self).view_stats() == if p >= 0 { s.remove(p) } else { s }
            }),
    {
        let ghost s = self.view_stats();
        proof {
            lemma_stat_position(s, file_id@);
        }
        match self.find(file_id) {
            Some(i) => {
                self.stats.remove(i);
                assert(self.view_stats() =~= s.remove(i as int));
            },
            None => {},
        }
    }

    /// The speed of the download of `file_id` (0 when it has no statistics).
    pub fn current_speed(&self, file_id: &str) -> (r: u64)
        requires
            self.wf(),
        ensures
            ({
                let s = self.view_stats();
                let p = stat_position(s, file_id@);
                r == if p >= 0 { speed_spec(s[p]) } else { 0 }
            }),
    {
        proof {
            lemma_stat_position(self.view_stats(), file_id@);
        }
        match self.find(file_id) {
            Some(i) => {
                assert(self.view_stats()[i as int] == self.stats@[i as int]@);
                stat_speed(&self.stats[i])
            },
            None => 0,
        }
    }

    /// Ends the current second of every download (see `tick_spec`).
    pub fn tick(&mut self)
        requires
            old(self).wf(),
        ensures
            final(self).wf(),
            final(self).view_stats() == old(self).view_stats().map_values(|v: SpeedStatView| tick_spec(v)),
    {
        let ghost s = self.view_stats();
        let mut i: usize = 0;
        while i < self.stats.len()
            invariant
                i <= self.stats@.len(),
                self.view_stats().len() == s.len(),
                forall|j: int| 0 <= j < i ==> #[trigger] self.view_stats()[j] == tick_spec(s[j]),
                forall|j: int| i <= j < s.len() ==> #[trigger] self.view_stats()[j] == s[j],
                forall|j: int| 0 <= j < s.len() ==> (#[trigger] s[j]).bytes_history.len() <= SPEED_HISTORY_SECONDS,
            decreases s.len() - i,
        {
            assert(self.view_stats()[i as int] == self.stats@[i as int]@);
            let old_stat = &self.stats[i];
            let mut history = copy_history(&old_stat.bytes_history);
            history.push_back(old_stat.bytes_last_second);
            if history.len() > SPEED_HISTORY_SECONDS {
                let _ = history.pop_front();
            }
            let stat = SpeedStat { file_id: old_stat.file_id.clone(), bytes_last_second: 0, bytes_history: history };
            assert(stat@ =~= tick_spec(s[i as int]));
            let ghost before = self.view_stats();
            self.stats.set(i, stat);
            assert(self.view_stats() =~= before.update(i as int, stat@));
            i = i + 1;
        }
        assert(self.view_stats() =~= s.map_values(|v: SpeedStatView| tick_spec(v)));
    }
}

proof fn lemma_stat_position_from(s: Seq<SpeedStatView>, file_id: Seq<char>, i: int)
    requires
        0 <= i < s.len(),
        s[i].file_id == file_id,
        forall|j: int| i < j < s.len() ==> #[trigger] s[j].file_id != file_id,
    ensures
        stat_position(s, file_id) == i,
    decreases s.len(),
{
    if i < s.len() - 1 {
        lemma_stat_position_from(s.drop_last(), file_id, i);
    }
}

fn copy_history(h: &VecDeque<u64>) -> (r: VecDeque<u64>)
    ensures
        r@ == h@,
{
    let mut r: VecDeque<u64> = VecDeque::with_capacity(SPEED_HISTORY_SECONDS);
    let mut i: usize = 0;
    while i < h.len()
        invariant
            i <= h@.len(),
            r@ == h@.take(i as int),
        decreases h@.len() - i,
    {
        r.push_back(h[i]);
        assert(h@.take(i + 1) == h@.take(i as int).push(h@[i as int]));
        i = i + 1;
    }
    assert(h@.take(h@.len() as int) == h@);
    r
}

fn stat_speed(stat: &SpeedStat) -> (r: u64)
    requires
        stat@.bytes_history.len() <= SPEED_HISTORY_SECONDS,
    ensures
        r == speed_spec(stat@),
{
    let n = stat.bytes_history.len();
    if n == 0 {
        return stat.bytes_last_second;
    }
    let ghost h = stat.bytes_history@;
    let mut sum: u128 = 0;
    let mut i: usize = 0;
    while i < n
        invariant
            n == h.len(),
            h == stat.bytes_history@,
            n <= SPEED_HISTORY_SECONDS,
            i <= n,
            sum == seq_sum(h.take(i as int)),
            sum <= i * (u64::MAX as nat),
        decreases n - i,
    {
        assert(h.take(i + 1).drop_last() == h.take(i as int));
        assert(sum + h[i as int] <= (i + 1) * (u64::MAX as nat)) by (nonlinear_arith)
            requires sum <= i * (u64::MAX as nat), h[i as int] <= u64::MAX;
        assert((i + 1) * (u64::MAX as nat) <= 5 * (u64::MAX as nat)) by (nonlinear_arith)
            requires i + 1 <= 5;
        sum = sum + stat.bytes_history[i] as u128;
        i = i + 1;
    }
    assert(h.take(n as int) == h);
    assert(sum / (n as u128) <= u64::MAX) by (nonlinear_arith)
        requires sum <= n * (u64::MAX as nat), n > 0;
    (sum / (n as u128)) as u64
}


/// A progress update of a download, which goes to the subscribers and to the
/// record of the file to receive.
#[derive(Debug)]
pub struct ProgressUpdate {
    pub request_id: String,
    pub file_id: String,
    pub bytes_received: u64,
    pub status: TransferStatus,
    pub error_message: Option<String>,
    /// Bytes per second.
    pub speed: u64,
}

/// The offset a download starts from: the saved progress when there is some and
/// the partial file exists, else the beginning.
pub fn resolve_start_offset(start_offset: u64, file_exists: bool) -> (r: u64)
    ensures
        r == (if start_offset > 0 && file_exists { start_offset } else { 0 }),
{
    if start_offset > 0 && file_exists { start_offset } else { 0 }
}

/// The last byte of the chunk that starts at `start`, for chunks of `chunk`
/// bytes in a file of `len` bytes.
pub open spec fn chunk_end_spec(start: int, chunk: int, len: int) -> int {
    if start + chunk - 1 <= len - 1 { start + chunk - 1 } else { len - 1 }
}

/// The chunks (first and last byte) that a download from `offset` asks for, in
/// order, when every chunk arrives whole.
pub open spec fn chunk_schedule(offset: int, chunk: int, len: int) -> Seq<(int, int)>
    decreases len - offset,
{
    if offset >= len || chunk <= 0 {
        Seq::empty()
    } else {
        let end = chunk_end_spec(offset, chunk, len);
        seq![(offset, end)] + chunk_schedule(end + 1, chunk, len)
    }
}

/// The chunk to ask for next, having received `bytes_received` bytes of a file
/// of `content_length` bytes: `None` once all bytes are there.
pub fn next_chunk(bytes_received: u64, chunk_size: usize, content_length: u64) -> (r: Option<(u64, u64)>)
    requires
        chunk_size > 0,
        bytes_received + chunk_size <= u64::MAX,
    ensures
        bytes_received >= content_length ==> r is None,
        bytes_received < content_length ==> r == Some((bytes_received,
            chunk_end_spec(bytes_received as int, chunk_size as int, content_length as int) as u64)),
        r matches Some(c) ==> chunk_schedule(bytes_received as int, chunk_size as int, content_length as int)[0]
            == (c.0 as int, c.1 as int),
{
    if bytes_received >= content_length {
        return None;
    }
    let start = bytes_received;
    let candidate = start + chunk_size as u64 - 1;
    let last = content_length - 1;
    let end = if candidate <= last { candidate } else { last };
    Some((start, end))
}

/// `is_retryable_spec`: the error's text mentions a connection, a time-out, a
/// failure to decode the reply, or the network.
pub open spec fn is_retryable_spec(e: HiveDropError) -> bool {
    let m = crate::error::error_message(e);
    ||| crate::text::seq_contains(m, "connection"@)
    ||| crate::text::seq_contains(m, "timeout"@)
    ||| crate::text::seq_contains(m, "decoding response body"@)
    ||| crate::text::seq_contains(m, "network"@)
}

/// Whether a failed chunk download is worth retrying (see `is_retryable_spec`).
pub fn is_retryable_chunk_error(e: &HiveDropError) -> (r: bool)
    ensures
        r == is_retryable_spec(*e),
{
    let m = e.to_message();
    crate::text::contains_str(m.as_str(), "connection")
        || crate::text::contains_str(m.as_str(), "timeout")
        || crate::text::contains_str(m.as_str(), "decoding response body")
        || crate::text::contains_str(m.as_str(), "network")
}

/// Milliseconds to wait before attempt `retry_count + 1` at a chunk: one second
/// more for each retry.
pub fn chunk_retry_delay_ms(retry_count: u32) -> (r: u64)
    ensures
        r == 1000 * (retry_count + 1),
{
    1000 * (retry_count as u64 + 1)
}

/// The error when every attempt at a chunk failed without one to report.
pub fn chunk_failure(file_id: &str, start: u64, end: u64) -> (r: HiveDropError)
    ensures
        r matches HiveDropError::NetworkError(m) && m@ == "下载分片最终失败: 文件="@ + file_id@ + ", 范围="@
            + decimal(start as nat) + "-"@ + decimal(end as nat) + ", 已重试"@ + decimal(MAX_CHUNK_RETRIES as nat) + "次"@,
{
    let mut m = String::new();
    push_str(&mut m, "下载分片最终失败: 文件=");
    push_str(&mut m, file_id);
    push_str(&mut m, ", 范围=");
    let a = u64_to_decimal(start);
    push_str(&mut m, a.as_str());
    push_str(&mut m, "-");
    let b = u64_to_decimal(end);
    push_str(&mut m, b.as_str());
    push_str(&mut m, ", 已重试");
    let c = u64_to_decimal(MAX_CHUNK_RETRIES as u64);
    push_str(&mut m, c.as_str());
    push_str(&mut m, "次");
    HiveDropError::NetworkError(m)
}

/// Milliseconds to wait after failed report attempt `attempt` (counted from 1).
pub fn report_retry_delay_ms(attempt: u32) -> (r: u64)
    ensures
        r == 500 * attempt,
{
    500 * (attempt as u64)
}

/// The error when a progress report timed out.
pub fn report_timeout_error() -> (r: HiveDropError)
    ensures
        r matches HiveDropError::NetworkError(m) && m@ == "向发送方报告进度超时"@,
{
    HiveDropError::NetworkError("向发送方报告进度超时".to_owned())
}

/// The state of the download manager's decisions: how often a download is
/// retried, and the speed statistics of the running downloads.
#[derive(Debug)]
pub struct DownloadManager {
    pub max_retries: u32,
    pub speed_stats: SpeedBook,
}

impl DownloadManager {
    /// A manager that retries a download twice, with no statistics yet.
    pub fn new() -> (r: DownloadManager)
        ensures
            r.max_retries == MAX_DOWNLOAD_RETRIES,
            r.speed_stats.wf(),
            r.speed_stats.view_stats() == Seq::<SpeedStatView>::empty(),
    {
        DownloadManager { max_retries: MAX_DOWNLOAD_RETRIES, speed_stats: SpeedBook::new() }
    }

    /// The sender of a download, among the known devices; a not-found error
    /// when it is unknown.
    pub fn sender_device(&self, service: &HttpTransferService, device_id: &str) -> (r: Result<DeviceInfo, HiveDropError>)
        ensures
            service.model().devices.contains_key(device_id@) ==>
                (r matches Ok(d) && d@ == service.model().devices[device_id@]),
            !service.model().devices.contains_key(device_id@) ==>
                (r matches Err(e) && e matches HiveDropError::NotFoundError(m) && m@ == "设备不存在: "@ + device_id@),
    {
        match service.get_device_info(device_id) {
            Some(d) => Ok(d),
            None => Err(HiveDropError::NotFoundError(concat("设备不存在: ", device_id))),
        }
    }

    /// Decides after a failed attempt at `task`: while retries are left, counts
    /// one more and marks the file in progress (the caller waits and retries);
    /// else marks the file failed (the caller reports the failure and gives up).
    /// Returns whether to retry.
    pub fn on_download_failure(&self, service: &mut HttpTransferService, task: &mut DownloadTask) -> (retry: bool)
        requires
            old(service).wf(),
        ensures
            final(service).wf(),
            final(service).config() == old(service).config(),
            final(service).events() == old(service).events(),
            retry == (old(task).retry_count < self.max_retries),
            retry ==> *final(task) == (DownloadTask { retry_count: (old(task).retry_count + 1) as u32, ..*old(task) }),
            !retry ==> *final(task) == *old(task),
            ({
                let m = old(service).model();
                let k = old(task).file_id@;
                let status = if retry { TransferStatus::InProgress } else { TransferStatus::Failed };
                final(service).model() == if m.receive_files.contains_key(k) {
                    ServiceModel {
                        receive_files: m.receive_files.insert(k, ReceiveFileView { status: status, ..m.receive_files[k] }),
                        ..m
                    }
                } else {
                    m
                }
            }),
    {
        if task.retry_count < self.max_retries {
            task.retry_count = task.retry_count + 1;
            service.set_receive_file_state(task.file_id.as_str(), None, TransferStatus::InProgress);
            true
        } else {
            service.set_receive_file_state(task.file_id.as_str(), None, TransferStatus::Failed);
            false
        }
    }

    /// The error text reported to the sender when a download is given up:
    /// `下载失败，已重试{max_retries}次`.
    pub fn failure_report_message(&self) -> (r: String)
        ensures
            r@ == "下载失败，已重试"@ + decimal(self.max_retries as nat) + "次"@,
    {
        let n = u64_to_decimal(self.max_retries as u64);
        crate::text::concat3("下载失败，已重试", n.as_str(), "次")
    }

    /// Publishes a progress update: announces it and records the bytes received
    /// and the state in the file to receive, if it is there.
    pub fn update_progress(&self, service: &mut HttpTransferService, progress: &ProgressUpdate) -> (r: Result<(), HiveDropError>)
        requires
            old(service).wf(),
        ensures
            r is Ok,
            final(service).wf(),
            final(service).config() == old(service).config(),
            announced(old(service).events(), final(service).events(),
                |e: TransferEvent| e matches TransferEvent::ProgressUpdated(p)
                    && p.request_id@ == progress.request_id@ && p.file_id@ == progress.file_id@
                    && p.bytes_received == progress.bytes_received && p.status == progress.status
                    && p.error_message == progress.error_message && p.speed == progress.speed),
            ({
                let m = old(service).model();
                let k = progress.file_id@;
                final(service).model() == if m.receive_files.contains_key(k) {
                    ServiceModel {
                        receive_files: m.receive_files.insert(k, ReceiveFileView {
                            progress: progress.bytes_received,
                            status: progress.status,
                            ..m.receive_files[k]
                        }),
                        ..m
                    }
                } else {
                    m
                }
            }),
    {
        let transfer_progress = TransferProgress {
            request_id: progress.request_id.clone(),
            file_id: progress.file_id.clone(),
            bytes_received: progress.bytes_received,
            status: progress.status,
            error_message: match &progress.error_message {
                Some(m) => Some(m.clone()),
                None => None,
            },
            speed: progress.speed,
        };
        let _ = service.update_transfer_progress(transfer_progress);
        assert(service.events().drop_last() =~= old(service).events());
        service.set_receive_file_state(progress.file_id.as_str(), Some(progress.bytes_received), progress.status);
        Ok(())
    }
}

} // verus!
