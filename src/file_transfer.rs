use vstd::prelude::*;
use crate::device::Device;

verus! {

/// Bytes moved per read or write while a file streams.
pub const CHUNK_SIZE: usize = 8192;

/// Size of the single read that takes in a handshake.
pub const HANDSHAKE_BUFFER: usize = 1024;

/// The TCP port of the data channel.
pub const TRANSFER_PORT: u16 = 8081;

/// Progress is counted in hundredths of a percent; this is 100%.
pub const FULL_PROGRESS: u64 = 10000;

/// Progress of `done` bytes out of `total`, in hundredths of a percent, at most
/// 100%. An empty file is complete from the start.
pub open spec fn progress_of(done: u64, total: u64) -> int {
    if total == 0 || done >= total {
        FULL_PROGRESS as int
    } else {
        (done as int * FULL_PROGRESS as int) / total as int
    }
}

/// The bytes before the first newline, or all of them where there is none.
pub open spec fn first_line_spec(buf: Seq<u8>) -> Seq<u8> {
    if exists|i: int| 0 <= i < buf.len() && buf[i] == 10u8 {
        let i = choose|i: int|
            0 <= i < buf.len() && buf[i] == 10u8 && forall|k: int| 0 <= k < i ==> buf[k] != 10u8;
        buf.subrange(0, i)
    } else {
        buf
    }
}

/// One progress notification for the user interface.
#[derive(Debug, Clone)]
pub struct TransferProgress {
    pub file_name: String,
    /// Hundredths of a percent, from 0 to 10000.
    pub progress: u64,
    pub status: String,
}

/// What the sender announces before the data.
#[derive(Debug, Clone)]
pub struct FileTransferRequest {
    pub file_name: String,
    pub file_size: u64,
    pub sender_device: Device,
}

/// The receiver's answer to a request.
#[derive(Debug, Clone)]
pub struct FileTransferResponse {
    pub accepted: bool,
    pub message: String,
}

/// How a receiver goes on after reading a handshake.
#[derive(Debug)]
pub enum ReceiverStart {
    /// The handshake could not be read: close the connection, create no file and
    /// send no notification.
    Close,
    /// Send the response, create the file and take in the data.
    Accept { response: FileTransferResponse, progress: ReceiveProgress },
}

/// Progress in hundredths of a percent; see `progress_of`.
pub fn progress_hundredths(done: u64, total: u64) -> (r: u64)
    ensures
        r == progress_of(done, total),
        r <= FULL_PROGRESS,
{
    if total == 0 || done >= total {
        FULL_PROGRESS
    } else {
        assert(done as u128 * 10000u128 <= 0xffff_ffff_ffff_ffffu128 * 10000u128)
            by (nonlinear_arith);
        let p: u128 = (done as u128 * FULL_PROGRESS as u128) / total as u128;
        proof {
            lemma_progress_bounded(done, total);
        }
        p as u64
    }
}

proof fn lemma_progress_bounded(done: u64, total: u64)
    ensures
        0 <= progress_of(done, total) <= FULL_PROGRESS,
{
    if !(total == 0 || done >= total) {
        let d = done as int;
        let t = total as int;
        assert(d * 10000 <= t * 10000) by (nonlinear_arith)
            requires
                d < t,
        ;
        vstd::arithmetic::div_mod::lemma_div_is_ordered(d * 10000, t * 10000, t);
        vstd::arithmetic::div_mod::lemma_div_multiples_vanish(10000, t);
        assert(t * 10000 == 10000 * t) by (nonlinear_arith);
        assert(0 <= d * 10000) by (nonlinear_arith)
            requires
                0 <= d,
        ;
        vstd::arithmetic::div_mod::lemma_div_pos_is_pos(d * 10000, t);
    }
}

/// More bytes never mean less progress, and all of the bytes mean 100%.
pub proof fn lemma_progress_monotonic(a: u64, b: u64, total: u64)
    requires
        a <= b,
    ensures
        progress_of(a, total) <= progress_of(b, total),
        progress_of(total, total) == FULL_PROGRESS,
        0 <= progress_of(a, total) <= FULL_PROGRESS,
{
    lemma_progress_bounded(a, total);
    lemma_progress_bounded(b, total);
    if total != 0 && b < total {
        assert(a as int * 10000 <= b as int * 10000) by (nonlinear_arith)
            requires
                a <= b,
        ;
        vstd::arithmetic::div_mod::lemma_div_is_ordered(
            a as int * 10000,
            b as int * 10000,
            total as int,
        );
    }
}

/// The bytes of `buf` before its first newline; the rest of a handshake read
/// is not part of the request.
pub fn first_line(buf: &[u8]) -> (r: Vec<u8>)
    ensures
        r@ == first_line_spec(buf@),
{
    let mut out: Vec<u8> = Vec::new();
    let mut i: usize = 0;
    while i < buf.len()
        invariant
            i <= buf@.len(),
            out@ == buf@.subrange(0, i as int),
            forall|k: int| 0 <= k < i ==> buf@[k] != 10u8,
        decreases buf@.len() - i,
    {
        if buf[i] == 10u8 {
            proof {
                let c = choose|c: int|
                    0 <= c < buf@.len() && buf@[c] == 10u8 && forall|k: int|
                        0 <= k < c ==> buf@[k] != 10u8;
                if c > i {
                    assert(buf@[i as int] != 10u8);
                }
                assert(c == i);
            }
            return out;
        }
        out.push(buf[i]);
        i = i + 1;
        assert(out@ =~= buf@.subrange(0, i as int));
    }
    assert(buf@.subrange(0, i as int) =~= buf@);
    out
}

/// A request as it goes on the wire: its encoding and a newline.
pub fn frame_line(payload: &[u8]) -> (r: Vec<u8>)
    ensures
        r@ == payload@.push(10u8),
{
    let mut out: Vec<u8> = Vec::new();
    let mut i: usize = 0;
    while i < payload.len()
        invariant
            i <= payload@.len(),
            out@ == payload@.subrange(0, i as int),
        decreases payload@.len() - i,
    {
        out.push(payload[i]);
        i = i + 1;
        assert(out@ =~= payload@.subrange(0, i as int));
    }
    out.push(10u8);
    assert(out@ =~= payload@.push(10u8));
    out
}

/// The sender's reading of the receiver's answer: go on when it accepts, fail
/// with its message otherwise.
pub fn check_response(response: &FileTransferResponse) -> (r: Result<(), String>)
    ensures
        response.accepted ==> r is Ok,
        !response.accepted ==> r is Err && r->Err_0@ == "Transfer rejected: "@
            + response.message@,
{
    if response.accepted {
        Ok(())
    } else {
        Err(String::from_str("Transfer rejected: ").concat(response.message.as_str()))
    }
}

/// The receiver's decision once the first line has been parsed, or has failed
/// to parse. Every readable request is accepted.
pub fn answer_handshake(request: Option<FileTransferRequest>) -> (r: ReceiverStart)
    ensures
        request is None ==> r is Close,
        request matches Some(q) ==> r matches ReceiverStart::Accept { response, progress }
            && response.accepted && response.message@ == "Transfer accepted"@
            && progress.file_name() == q.file_name@ && progress.declared() == q.file_size
            && progress.received() == 0,
{
    match request {
        None => ReceiverStart::Close,
        Some(q) => ReceiverStart::Accept {
            response: FileTransferResponse {
                accepted: true,
                message: String::from_str("Transfer accepted"),
            },
            progress: ReceiveProgress::new(q.file_name, q.file_size),
        },
    }
}

/// The sender's count of the bytes of one file that have gone out.
#[derive(Debug)]
pub struct SendProgress {
    file_name: String,
    file_size: u64,
    bytes_sent: u64,
}

impl SendProgress {
    pub closed spec fn file_name(&self) -> Seq<char> {
        self.file_name@
    }

    pub closed spec fn size(&self) -> u64 {
        self.file_size
    }

    pub closed spec fn sent(&self) -> u64 {
        self.bytes_sent
    }

    pub fn new(file_name: String, file_size: u64) -> (r: SendProgress)
        ensures
            r.file_name() == file_name@,
            r.size() == file_size,
            r.sent() == 0,
    {
        SendProgress { file_name, file_size, bytes_sent: 0 }
    }

    pub fn bytes_sent(&self) -> (r: u64)
        ensures
            r == self.sent(),
    {
        self.bytes_sent
    }

    /// Counts a chunk that was written and gives the notification that follows
    /// it; its progress is never below that of the chunk before.
    pub fn record_chunk(&mut self, n: u64) -> (r: TransferProgress)
        ensures
            final(self).file_name() == old(self).file_name(),
            final(self).size() == old(self).size(),
            final(self).sent() == (if old(self).sent() as int + n as int > u64::MAX {
                u64::MAX as int
            } else {
                old(self).sent() as int + n as int
            }),
            r.file_name@ == old(self).file_name(),
            r.progress == progress_of(final(self).sent(), final(self).size()),
            r.progress >= progress_of(old(self).sent(), old(self).size()),
            r.status@ == "sending"@,
    {
        let before = self.bytes_sent;
        self.bytes_sent = self.bytes_sent.saturating_add(n);
        proof {
            lemma_progress_monotonic(before, self.bytes_sent, self.file_size);
        }
        TransferProgress {
            file_name: self.file_name.clone(),
            progress: progress_hundredths(self.bytes_sent, self.file_size),
            status: String::from_str("sending"),
        }
    }

    /// The last notification of a file that was sent to its end.
    pub fn complete(&self) -> (r: TransferProgress)
        ensures
            r.file_name@ == self.file_name(),
            r.progress == FULL_PROGRESS,
            r.status@ == "completed"@,
    {
        TransferProgress {
            file_name: self.file_name.clone(),
            progress: FULL_PROGRESS,
            status: String::from_str("completed"),
        }
    }
}

/// The receiver's count of the bytes of one file that have come in.
#[derive(Debug)]
pub struct ReceiveProgress {
    file_name: String,
    declared_size: u64,
    bytes_received: u64,
}

impl ReceiveProgress {
    pub closed spec fn file_name(&self) -> Seq<char> {
        self.file_name@
    }

    pub closed spec fn declared(&self) -> u64 {
        self.declared_size
    }

    pub closed spec fn received(&self) -> u64 {
        self.bytes_received
    }

    pub fn new(file_name: String, declared_size: u64) -> (r: ReceiveProgress)
        ensures
            r.file_name() == file_name@,
            r.declared() == declared_size,
            r.received() == 0,
    {
        ReceiveProgress { file_name, declared_size, bytes_received: 0 }
    }

    /// The name the sender gave the file.
    pub fn name(&self) -> (r: &String)
        ensures
            r@ == self.file_name(),
    {
        &self.file_name
    }

    pub fn bytes_received(&self) -> (r: u64)
        ensures
            r == self.received(),
    {
        self.bytes_received
    }

    /// Whether the declared size has been reached, after which the receiver
    /// stops reading.
    pub fn is_done(&self) -> (r: bool)
        ensures
            r == (self.received() >= self.declared()),
    {
        self.bytes_received >= self.declared_size
    }

    /// Counts bytes that were written to the file and gives the notification
    /// that follows them, capped at 100%.
    pub fn record_bytes(&mut self, n: u64) -> (r: TransferProgress)
        ensures
            final(self).file_name() == old(self).file_name(),
            final(self).declared() == old(self).declared(),
            final(self).received() == (if old(self).received() as int + n as int > u64::MAX {
                u64::MAX as int
            } else {
                old(self).received() as int + n as int
            }),
            r.file_name@ == old(self).file_name(),
            r.progress == progress_of(final(self).received(), final(self).declared()),
            r.progress >= progress_of(old(self).received(), old(self).declared()),
            r.status@ == "receiving"@,
    {
        let before = self.bytes_received;
        self.bytes_received = self.bytes_received.saturating_add(n);
        proof {
            lemma_progress_monotonic(before, self.bytes_received, self.declared_size);
        }
        TransferProgress {
            file_name: self.file_name.clone(),
            progress: progress_hundredths(self.bytes_received, self.declared_size),
            status: String::from_str("receiving"),
        }
    }

    /// The last notification of a file that was taken in.
    pub fn complete(&self) -> (r: TransferProgress)
        ensures
            r.file_name@ == self.file_name(),
            r.progress == FULL_PROGRESS,
            r.status@ == "completed"@,
    {
        TransferProgress {
            file_name: self.file_name.clone(),
            progress: FULL_PROGRESS,
            status: String::from_str("completed"),
        }
    }
}

/// The data channel's settings.
#[derive(Debug)]
pub struct FileTransferManager {
    transfer_port: u16,
}

impl FileTransferManager {
    pub closed spec fn port(&self) -> u16 {
        self.transfer_port
    }

    pub fn new() -> (r: FileTransferManager)
        ensures
            r.port() == TRANSFER_PORT,
    {
        FileTransferManager { transfer_port: TRANSFER_PORT }
    }

    pub fn transfer_port(&self) -> (r: u16)
        ensures
            r == self.port(),
    {
        self.transfer_port
    }
}

/// Bytes counted after the first `k` chunks.
pub open spec fn sent_after(chunks: Seq<u64>, k: int) -> int
    decreases k,
{
    if k <= 0 || k > chunks.len() {
        0
    } else {
        sent_after(chunks, k - 1) + chunks[k - 1]
    }
}

proof fn lemma_sent_after_grows(chunks: Seq<u64>, j: int, k: int)
    requires
        0 <= j <= k <= chunks.len(),
    ensures
        0 <= sent_after(chunks, j) <= sent_after(chunks, k),
    decreases k - j,
{
    if j < k {
        lemma_sent_after_grows(chunks, j, k - 1);
    } else {
        lemma_sent_after_nonneg(chunks, k);
    }
}

proof fn lemma_sent_after_nonneg(chunks: Seq<u64>, k: int)
    ensures
        0 <= sent_after(chunks, k),
    decreases k,
{
    if k > 0 && k <= chunks.len() {
        lemma_sent_after_nonneg(chunks, k - 1);
    }
}

/// For a file whose chunks add up to its size, the progress reported after
/// each chunk never goes down, and after the last chunk it is 100%.
pub proof fn lemma_progress_sequence(chunks: Seq<u64>, size: u64, j: int, k: int)
    requires
        sent_after(chunks, chunks.len() as int) == size,
        0 <= j <= k <= chunks.len(),
    ensures
        progress_of(sent_after(chunks, j) as u64, size) <= progress_of(
            sent_after(chunks, k) as u64,
            size,
        ),
        progress_of(sent_after(chunks, chunks.len() as int) as u64, size) == FULL_PROGRESS,
{
    lemma_sent_after_grows(chunks, j, k);
    lemma_sent_after_grows(chunks, k, chunks.len() as int);
    lemma_progress_monotonic(sent_after(chunks, j) as u64, sent_after(chunks, k) as u64, size);
}

/// A file of `size` bytes sent in full chunks of `chunk` bytes gives one
/// notification per chunk, with progress that never goes down, and the last
/// one at 100%.
pub proof fn lemma_full_chunks_end_at_full(size: u64, chunk: u64, k: u64)
    requires
        chunk > 0,
        size % chunk == 0,
        1 <= k <= size / chunk,
    ensures
        progress_of(((k - 1) * chunk) as u64, size) <= progress_of((k * chunk) as u64, size),
        k == size / chunk ==> progress_of((k * chunk) as u64, size) == FULL_PROGRESS,
{
    assert((k - 1) * chunk <= k * chunk) by (nonlinear_arith)
        requires
            k >= 1,
            chunk > 0,
    ;
    assert(k * chunk <= size) by (nonlinear_arith)
        requires
            k <= size / chunk,
            chunk > 0,
            size % chunk == 0,
    ;
    lemma_progress_monotonic(((k - 1) * chunk) as u64, (k * chunk) as u64, size);
    if k == size / chunk {
        assert(k * chunk == size) by (nonlinear_arith)
            requires
                k == size / chunk,
                chunk > 0,
                size % chunk == 0,
        ;
    }
}

} // verus!
