//! Object-storage logic: which bucket a name list contains, and the plan of a
//! multipart upload that streams a file in 5 MiB parts.

use vstd::prelude::*;
use crate::text::owned;

verus! {

/// Configuration required to connect to an S3-compatible endpoint.
pub struct S3Config {
    pub region: String,
    pub url: String,
    pub username: String,
    pub password: String,
}

/// Size of every part of a multipart upload but the last (5 MiB).
pub const UPLOAD_CHUNK_SIZE: usize = 5242880;

/// True when `name` is one of `names`.
pub fn contains_name(names: &Vec<String>, name: &String) -> (r: bool)
    ensures
        r == names.deep_view().contains(name@),
{
    let mut i: usize = 0;
    while i < names.len()
        invariant
            i <= names.len(),
            forall|j: int| 0 <= j < i ==> names.deep_view()[j] != name@,
        decreases names.len() - i,
    {
        if names[i] == *name {
            assert(names.deep_view()[i as int] == name@);
            return true;
        }
        i = i + 1;
    }
    proof {
        if names.deep_view().contains(name@) {
            let k = choose|k: int| 0 <= k < names.deep_view().len() && names.deep_view()[k] == name@;
            assert(names.deep_view()[k] == name@);
        }
    }
    false
}

/// Sum of a sequence of sizes.
pub open spec fn seq_sum(s: Seq<nat>) -> nat
    decreases s.len(),
{
    if s.len() == 0 {
        0
    } else {
        seq_sum(s.drop_last()) + s.last()
    }
}

proof fn lemma_seq_sum_push(s: Seq<nat>, x: nat)
    ensures
        seq_sum(s.push(x)) == seq_sum(s) + x,
{
    assert(s.push(x).drop_last() =~= s);
}

/// One finished part of a multipart upload.
pub struct CompletedPart {
    pub e_tag: String,
    pub part_number: i32,
}

/// Where a multipart upload stands.
#[derive(PartialEq, Eq, Structural, Clone, Copy, Debug)]
pub enum UploadPhase {
    /// Nothing asked yet.
    Start,
    /// Waiting for the upload id.
    Creating,
    /// Waiting for the file to open.
    Opening,
    /// Waiting for bytes read into the part buffer.
    Reading,
    /// Waiting for the ETag of an uploaded part.
    Uploading,
    /// Waiting for the upload to be completed.
    Completing,
    /// Finished or failed; nothing more to do.
    Over,
}

/// What the caller reports back to the upload plan.
pub enum UploadEvent {
    /// Start the upload.
    Begin,
    /// The upload id returned when the multipart upload was created, if any.
    UploadId(Option<String>),
    /// The requested step finished.
    Done,
    /// The requested step failed; its error ends the upload.
    Failed,
    /// This many bytes were read into the part buffer (0 at end of file).
    Read(usize),
    /// The ETag returned for the part just uploaded, if any.
    ETag(Option<String>),
}

/// What the upload plan asks the caller to do next.
pub enum UploadAction {
    /// Create a multipart upload for this key and report its upload id.
    CreateUpload(String),
    /// Open the local file at this path.
    OpenFile(String),
    /// Read at most `max_len` bytes into the part buffer at `offset`.
    Read { offset: usize, max_len: usize },
    /// Upload the first `len` bytes of the part buffer as part `part_number`.
    UploadPart { part_number: i32, len: usize },
    /// Complete the upload with this id from these parts.
    Complete { upload_id: String, parts: Vec<CompletedPart> },
    /// The upload is complete.
    Finished,
    /// The upload failed: with the error of the failed step, or with this message.
    Fail(Option<String>),
}

struct UploadState {
    phase: UploadPhase,
    key: String,
    path: String,
    upload_id: String,
    part_number: i32,
    filled: usize,
    parts: Vec<CompletedPart>,
    sizes: Ghost<Seq<nat>>,
    read_total: Ghost<nat>,
}

/// A part as plain values: its ETag and its number.
pub open spec fn part_view(p: CompletedPart) -> (Seq<char>, int) {
    (p.e_tag@, p.part_number as int)
}

pub open spec fn parts_view(parts: Seq<CompletedPart>) -> Seq<(Seq<char>, int)> {
    parts.map_values(|p: CompletedPart| part_view(p))
}

/// A request of the upload plan as plain values.
pub enum UploadActionView {
    CreateUpload(Seq<char>),
    OpenFile(Seq<char>),
    Read(nat, nat),
    UploadPart(int, nat),
    Complete(Seq<char>, Seq<(Seq<char>, int)>),
    Finished,
    Fail(Option<Seq<char>>),
}

impl UploadAction {
    pub open spec fn view(&self) -> UploadActionView {
        match self {
            UploadAction::CreateUpload(k) => UploadActionView::CreateUpload(k@),
            UploadAction::OpenFile(p) => UploadActionView::OpenFile(p@),
            UploadAction::Read { offset, max_len } => UploadActionView::Read(*offset as nat, *max_len as nat),
            UploadAction::UploadPart { part_number, len } => UploadActionView::UploadPart(*part_number as int, *len as nat),
            UploadAction::Complete { upload_id, parts } => UploadActionView::Complete(upload_id@, parts_view(parts@)),
            UploadAction::Finished => UploadActionView::Finished,
            UploadAction::Fail(m) => UploadActionView::Fail(match m { Some(s) => Some(s@), None => None }),
        }
    }
}

/// An event as plain values.
pub enum UploadEventView {
    Begin,
    UploadId(Option<Seq<char>>),
    Done,
    Failed,
    Read(nat),
    ETag(Option<Seq<char>>),
}

impl UploadEvent {
    pub open spec fn view(&self) -> UploadEventView {
        match self {
            UploadEvent::Begin => UploadEventView::Begin,
            UploadEvent::UploadId(o) => UploadEventView::UploadId(match o { Some(s) => Some(s@), None => None }),
            UploadEvent::Done => UploadEventView::Done,
            UploadEvent::Failed => UploadEventView::Failed,
            UploadEvent::Read(n) => UploadEventView::Read(*n as nat),
            UploadEvent::ETag(o) => UploadEventView::ETag(match o { Some(s) => Some(s@), None => None }),
        }
    }
}

/// The state of an upload plan as plain values.
pub struct UploadView {
    pub phase: UploadPhase,
    pub key: Seq<char>,
    pub path: Seq<char>,
    pub upload_id: Seq<char>,
    pub next_part: int,
    pub filled: nat,
    pub parts: Seq<(Seq<char>, int)>,
    /// Bytes in each uploaded part.
    pub sizes: Seq<nat>,
    /// Bytes read from the file so far.
    pub read_total: nat,
}

impl UploadView {
    /// What every reachable state satisfies.
    pub open spec fn wf(self) -> bool {
        &&& self.parts.len() == self.sizes.len()
        &&& self.next_part == self.parts.len() + 1
        &&& forall|i: int| 0 <= i < self.parts.len() ==> #[trigger] self.parts[i].1 == i + 1
        &&& forall|i: int| 0 <= i < self.sizes.len() ==> 0 < #[trigger] self.sizes[i] <= UPLOAD_CHUNK_SIZE
        &&& self.read_total == seq_sum(self.sizes) + self.filled
        &&& self.filled <= UPLOAD_CHUNK_SIZE
        &&& (self.phase == UploadPhase::Uploading ==> self.filled > 0)
        &&& (self.phase == UploadPhase::Start || self.phase == UploadPhase::Creating || self.phase == UploadPhase::Opening || self.phase == UploadPhase::Completing ==> self.filled == 0)
        &&& (self.phase == UploadPhase::Start || self.phase == UploadPhase::Creating ==> self.parts.len() == 0)
    }

    /// The events that the plan can take in this state.
    pub open spec fn accepts(self, e: UploadEventView) -> bool {
        match self.phase {
            UploadPhase::Start => e is Begin,
            UploadPhase::Creating => e is UploadId || e is Failed,
            UploadPhase::Opening => e is Done || e is Failed,
            UploadPhase::Reading => match e {
                UploadEventView::Read(n) => self.filled + n <= UPLOAD_CHUNK_SIZE,
                UploadEventView::Failed => true,
                _ => false,
            },
            UploadPhase::Uploading => match e {
                UploadEventView::ETag(t) => t is Some ==> self.next_part < i32::MAX,
                UploadEventView::Failed => true,
                _ => false,
            },
            UploadPhase::Completing => e is Done || e is Failed,
            UploadPhase::Over => false,
        }
    }

    /// The state after `filled` bytes sit in the buffer: keep reading while it has room.
    pub open spec fn after_fill(self) -> (UploadView, UploadActionView) {
        if self.filled < UPLOAD_CHUNK_SIZE {
            (
                UploadView { phase: UploadPhase::Reading, ..self },
                UploadActionView::Read(self.filled, (UPLOAD_CHUNK_SIZE - self.filled) as nat),
            )
        } else {
            (
                UploadView { phase: UploadPhase::Uploading, ..self },
                UploadActionView::UploadPart(self.next_part, self.filled),
            )
        }
    }

    /// The next state and request after event `e`.
    pub open spec fn next(self, e: UploadEventView) -> (UploadView, UploadActionView) {
        let over = UploadView { phase: UploadPhase::Over, ..self };
        match e {
            UploadEventView::Failed => (over, UploadActionView::Fail(None)),
            UploadEventView::Begin => (
                UploadView { phase: UploadPhase::Creating, ..self },
                UploadActionView::CreateUpload(self.key),
            ),
            UploadEventView::UploadId(None) => (over, UploadActionView::Fail(Some(no_upload_id_message()))),
            UploadEventView::UploadId(Some(id)) => (
                UploadView { phase: UploadPhase::Opening, upload_id: id, ..self },
                UploadActionView::OpenFile(self.path),
            ),
            UploadEventView::Done => if self.phase == UploadPhase::Opening {
                (
                    UploadView { phase: UploadPhase::Reading, filled: 0, ..self },
                    UploadActionView::Read(0, UPLOAD_CHUNK_SIZE as nat),
                )
            } else {
                (over, UploadActionView::Finished)
            },
            UploadEventView::Read(n) => if n == 0 {
                if self.filled == 0 {
                    (
                        UploadView { phase: UploadPhase::Completing, ..self },
                        UploadActionView::Complete(self.upload_id, self.parts),
                    )
                } else {
                    (
                        UploadView { phase: UploadPhase::Uploading, ..self },
                        UploadActionView::UploadPart(self.next_part, self.filled),
                    )
                }
            } else {
                UploadView { filled: self.filled + n, read_total: self.read_total + n, ..self }.after_fill()
            },
            UploadEventView::ETag(None) => (over, UploadActionView::Fail(Some(no_etag_message()))),
            UploadEventView::ETag(Some(t)) => (
                UploadView {
                    phase: UploadPhase::Reading,
                    parts: self.parts.push((t, self.next_part)),
                    sizes: self.sizes.push(self.filled),
                    next_part: self.next_part + 1,
                    filled: 0,
                    ..self
                },
                UploadActionView::Read(0, UPLOAD_CHUNK_SIZE as nat),
            ),
        }
    }
}

pub open spec fn no_upload_id_message() -> Seq<char> {
    "No upload ID returned."@
}

pub open spec fn no_etag_message() -> Seq<char> {
    "No ETag in upload response."@
}

/// Every byte read has been uploaded once the plan asks to complete the upload, and
/// the parts are numbered 1, 2, ... in the order of the file.
pub proof fn lemma_completion_accounts_for_every_byte(v: UploadView)
    requires
        v.wf(),
        v.phase == UploadPhase::Completing,
    ensures
        seq_sum(v.sizes) == v.read_total,
        forall|i: int| 0 <= i < v.parts.len() ==> #[trigger] v.parts[i].1 == i + 1,
        forall|i: int| 0 <= i < v.sizes.len() ==> 0 < #[trigger] v.sizes[i] <= UPLOAD_CHUNK_SIZE,
{
}

/// A part shorter than the buffer is cut only when the reader reported the end of the
/// file; while bytes keep coming, parts are full.
pub proof fn lemma_short_part_only_at_end_of_file(v: UploadView, e: UploadEventView)
    requires
        v.wf(),
        v.accepts(e),
    ensures
        v.next(e).1 matches UploadActionView::UploadPart(_, len) && len < UPLOAD_CHUNK_SIZE ==> e == UploadEventView::Read(0),
{
}

/// Every reachable state stays well formed.
pub proof fn lemma_next_keeps_wf(v: UploadView, e: UploadEventView)
    requires
        v.wf(),
        v.accepts(e),
    ensures
        v.next(e).0.wf(),
{
    match e {
        UploadEventView::ETag(Some(t)) => {
            lemma_seq_sum_push(v.sizes, v.filled);
            let w = v.next(e).0;
            assert(w.read_total == seq_sum(w.sizes) + w.filled);
            assert(w.parts.len() == w.sizes.len());
            assert(w.next_part == w.parts.len() + 1);
            assert forall|i: int| 0 <= i < w.parts.len() implies #[trigger] w.parts[i].1 == i + 1 by {
                if i < v.parts.len() {
                    assert(w.parts[i] == v.parts[i]);
                }
            }
            assert forall|i: int| 0 <= i < w.sizes.len() implies 0 < #[trigger] w.sizes[i] <= UPLOAD_CHUNK_SIZE by {
                if i < v.sizes.len() {
                    assert(w.sizes[i] == v.sizes[i]);
                }
            }
        },
        _ => {},
    }
}

/// The state of a fresh plan for uploading the file at `path` under `key`.
pub open spec fn upload_start(key: Seq<char>, path: Seq<char>) -> UploadView {
    UploadView {
        phase: UploadPhase::Start,
        key,
        path,
        upload_id: Seq::empty(),
        next_part: 1,
        filled: 0,
        parts: Seq::empty(),
        sizes: Seq::empty(),
        read_total: 0,
    }
}

/// The state after the plan has taken the events `es` in turn, from `v`.
pub open spec fn upload_after(v: UploadView, es: Seq<UploadEventView>) -> UploadView
    decreases es.len(),
{
    if es.len() == 0 {
        v
    } else {
        upload_after(v, es.drop_last()).next(es.last()).0
    }
}

/// A report that a caller gives when every request succeeds and the file holds
/// `file_len` bytes: an upload id and ETags come back, and a read returns nothing only
/// at the end of the file, never more than is left.
pub open spec fn faithful_event(v: UploadView, e: UploadEventView, file_len: nat) -> bool {
    match e {
        UploadEventView::Failed => false,
        UploadEventView::UploadId(id) => id is Some,
        UploadEventView::ETag(t) => t is Some,
        UploadEventView::Read(n) => (n == 0 <==> v.read_total == file_len) && v.read_total + n <= file_len,
        _ => true,
    }
}

/// Every event of `es` is one the plan accepts, and a faithful report, in the state it
/// reaches from `v`.
pub open spec fn faithful_upload(v: UploadView, es: Seq<UploadEventView>, file_len: nat) -> bool {
    forall|i: int| 0 <= i < es.len() ==> {
        let w = #[trigger] upload_after(v, es.take(i));
        w.accepts(es[i]) && faithful_event(w, es[i], file_len)
    }
}

/// The number of parts a file of `file_len` bytes is cut into.
pub open spec fn chunk_count(file_len: nat) -> nat {
    ((file_len + UPLOAD_CHUNK_SIZE - 1) / (UPLOAD_CHUNK_SIZE as int)) as nat
}

/// The size of each part of a file of `file_len` bytes: full parts, then what is left.
pub open spec fn chunk_sizes(file_len: nat) -> Seq<nat> {
    Seq::new(
        chunk_count(file_len),
        |i: int|
            if file_len - i * UPLOAD_CHUNK_SIZE < UPLOAD_CHUNK_SIZE {
                (file_len - i * UPLOAD_CHUNK_SIZE) as nat
            } else {
                UPLOAD_CHUNK_SIZE as nat
            },
    )
}

/// What a faithful run keeps: every part but the last is full, a short part is cut only
/// at the end of the file, and nothing beyond the file is read.
spec fn chunk_invariant(v: UploadView, file_len: nat) -> bool {
    &&& v.wf()
    &&& v.read_total <= file_len
    &&& forall|i: int| 0 <= i < v.sizes.len() - 1 ==> #[trigger] v.sizes[i] == UPLOAD_CHUNK_SIZE
    &&& (v.sizes.len() > 0 && v.sizes.last() < UPLOAD_CHUNK_SIZE ==> seq_sum(v.sizes) == file_len)
    &&& (v.phase == UploadPhase::Uploading && v.filled < UPLOAD_CHUNK_SIZE ==> v.read_total == file_len)
    &&& (v.phase == UploadPhase::Completing ==> v.read_total == file_len)
}

proof fn lemma_chunk_invariant_step(v: UploadView, e: UploadEventView, file_len: nat)
    requires
        chunk_invariant(v, file_len),
        v.accepts(e),
        faithful_event(v, e, file_len),
    ensures
        chunk_invariant(v.next(e).0, file_len),
{
    lemma_next_keeps_wf(v, e);
    let w = v.next(e).0;
    match e {
        UploadEventView::ETag(Some(t)) => {
            lemma_seq_sum_push(v.sizes, v.filled);
            if v.sizes.len() > 0 && v.sizes.last() < UPLOAD_CHUNK_SIZE {
                assert(v.read_total == file_len + v.filled);
            }
            assert forall|i: int| 0 <= i < w.sizes.len() - 1 implies #[trigger] w.sizes[i] == UPLOAD_CHUNK_SIZE by {
                assert(w.sizes[i] == v.sizes[i]);
                if i == v.sizes.len() - 1 {
                    assert(v.sizes[i] == v.sizes.last());
                }
            }
        },
        _ => {
            assert(w.sizes == v.sizes);
        },
    }
}

proof fn lemma_faithful_run_keeps_invariant(v: UploadView, es: Seq<UploadEventView>, file_len: nat)
    requires
        chunk_invariant(v, file_len),
        faithful_upload(v, es, file_len),
    ensures
        chunk_invariant(upload_after(v, es), file_len),
    decreases es.len(),
{
    if es.len() > 0 {
        let front = es.drop_last();
        assert forall|i: int| 0 <= i < front.len() implies {
            let w = #[trigger] upload_after(v, front.take(i));
            w.accepts(front[i]) && faithful_event(w, front[i], file_len)
        } by {
            assert(front.take(i) =~= es.take(i));
            assert(front[i] == es[i]);
            assert(upload_after(v, es.take(i)) == upload_after(v, front.take(i)));
        }
        lemma_faithful_run_keeps_invariant(v, front, file_len);
        let k = es.len() - 1;
        assert(es.take(k) =~= front);
        assert(upload_after(v, es.take(k)) == upload_after(v, front));
        lemma_chunk_invariant_step(upload_after(v, front), es.last(), file_len);
    }
}

proof fn lemma_full_parts_sum(s: Seq<nat>)
    requires
        forall|i: int| 0 <= i < s.len() ==> #[trigger] s[i] == UPLOAD_CHUNK_SIZE,
    ensures
        seq_sum(s) == s.len() * UPLOAD_CHUNK_SIZE,
    decreases s.len(),
{
    if s.len() > 0 {
        lemma_full_parts_sum(s.drop_last());
    }
}

/// The law of a whole upload: when every request succeeds and the reader hands over a
/// file of `file_len` bytes, the plan completes the upload with ceil(`file_len` / 5 MiB)
/// parts, numbered 1, 2, ..., the i-th holding the bytes from i * 5 MiB up to the next
/// 5 MiB or the end of the file.
pub proof fn lemma_upload_cuts_file_into_chunks(
    key: Seq<char>,
    path: Seq<char>,
    es: Seq<UploadEventView>,
    file_len: nat,
)
    requires
        faithful_upload(upload_start(key, path), es, file_len),
        upload_after(upload_start(key, path), es).phase == UploadPhase::Completing,
    ensures
        upload_after(upload_start(key, path), es).sizes == chunk_sizes(file_len),
        upload_after(upload_start(key, path), es).parts.len() == chunk_count(file_len),
        forall|i: int| 0 <= i < chunk_count(file_len) ==> #[trigger] upload_after(upload_start(key, path), es).parts[i].1 == i + 1,
        seq_sum(upload_after(upload_start(key, path), es).sizes) == file_len,
        forall|i: int| 0 <= i < chunk_count(file_len) ==> #[trigger] seq_sum(upload_after(upload_start(key, path), es).sizes.take(i)) == i * UPLOAD_CHUNK_SIZE,
{
    let v0 = upload_start(key, path);
    assert(seq_sum(v0.sizes) == 0);
    lemma_faithful_run_keeps_invariant(v0, es, file_len);
    let v = upload_after(v0, es);
    let s = v.sizes;
    let c = UPLOAD_CHUNK_SIZE as int;
    assert(seq_sum(s) == file_len);
    let k = s.len() as int;
    if k == 0 {
        assert(file_len == 0);
        assert(chunk_count(file_len) == 0);
        assert(s =~= chunk_sizes(file_len));
    } else {
        let front = s.drop_last();
        assert forall|i: int| 0 <= i < front.len() implies #[trigger] front[i] == UPLOAD_CHUNK_SIZE by {
            assert(front[i] == s[i]);
        }
        lemma_full_parts_sum(front);
        let last = s.last() as int;
        assert(s[k - 1] == s.last());
        assert(0 < last <= c);
        assert(file_len == (k - 1) * c + last);
        assert((file_len + c - 1) / c == k) by (nonlinear_arith)
            requires
                file_len == (k - 1) * c + last,
                0 < last <= c,
                c == 5242880,
                k >= 1,
        ;
        assert forall|i: int| 0 <= i < k implies #[trigger] s[i] == chunk_sizes(file_len)[i] by {
            if i < k - 1 {
                assert(s[i] == front[i]);
                assert(file_len - i * c >= c) by (nonlinear_arith)
                    requires
                        file_len == (k - 1) * c + last,
                        0 < last,
                        0 <= i < k - 1,
                        c > 0,
                ;
            } else {
                assert(file_len - i * c == last);
            }
        }
        assert(s =~= chunk_sizes(file_len));
        assert forall|i: int| 0 <= i < k implies #[trigger] seq_sum(s.take(i)) == i * UPLOAD_CHUNK_SIZE by {
            let t = s.take(i);
            assert forall|j: int| 0 <= j < t.len() implies #[trigger] t[j] == UPLOAD_CHUNK_SIZE by {
                assert(t[j] == s[j]);
                assert(s[j] == front[j]);
            }
            lemma_full_parts_sum(t);
        }
    }
}

impl UploadState {
    closed spec fn view(&self) -> UploadView {
        UploadView {
            phase: self.phase,
            key: self.key@,
            path: self.path@,
            upload_id: self.upload_id@,
            next_part: self.part_number as int,
            filled: self.filled as nat,
            parts: parts_view(self.parts@),
            sizes: self.sizes@,
            read_total: self.read_total@,
        }
    }

    fn new(path: &str, key: &str) -> (r: UploadState)
        ensures
            r@ == upload_start(key@, path@),
            r@.wf(),
            r@.phase == UploadPhase::Start,
            r@.key == key@,
            r@.path == path@,
            r@.parts.len() == 0,
            r@.read_total == 0,
    {
        let r = UploadState {
            phase: UploadPhase::Start,
            key: owned(key),
            path: owned(path),
            upload_id: String::new(),
            part_number: 1,
            filled: 0,
            parts: Vec::new(),
            sizes: Ghost(Seq::empty()),
            read_total: Ghost(0),
        };
        proof {
            assert(parts_view(r.parts@) =~= Seq::empty());
        }
        r
    }

    fn read_more(&mut self) -> (a: UploadAction)
        requires
            old(self)@.filled <= UPLOAD_CHUNK_SIZE,
        ensures
            (final(self)@, a.view()) == old(self)@.after_fill(),
    {
        if self.filled < UPLOAD_CHUNK_SIZE {
            self.phase = UploadPhase::Reading;
            UploadAction::Read { offset: self.filled, max_len: UPLOAD_CHUNK_SIZE - self.filled }
        } else {
            self.phase = UploadPhase::Uploading;
            UploadAction::UploadPart { part_number: self.part_number, len: self.filled }
        }
    }

    fn step(&mut self, event: UploadEvent) -> (a: UploadAction)
        requires
            old(self)@.wf(),
            old(self)@.accepts(event.view()),
        ensures
            final(self)@.wf(),
            (final(self)@, a.view()) == old(self)@.next(event.view()),
    {
        proof {
            lemma_next_keeps_wf(self@, event.view());
        }
        match event {
            UploadEvent::Failed => {
                self.phase = UploadPhase::Over;
                UploadAction::Fail(None)
            },
            UploadEvent::Begin => {
                self.phase = UploadPhase::Creating;
                UploadAction::CreateUpload(self.key.clone())
            },
            UploadEvent::UploadId(None) => {
                self.phase = UploadPhase::Over;
                let m = owned("No upload ID returned.");
                UploadAction::Fail(Some(m))
            },
            UploadEvent::UploadId(Some(id)) => {
                self.phase = UploadPhase::Opening;
                self.upload_id = id;
                UploadAction::OpenFile(self.path.clone())
            },
            UploadEvent::Done => {
                if self.phase == UploadPhase::Opening {
                    self.phase = UploadPhase::Reading;
                    self.filled = 0;
                    UploadAction::Read { offset: 0, max_len: UPLOAD_CHUNK_SIZE }
                } else {
                    self.phase = UploadPhase::Over;
                    UploadAction::Finished
                }
            },
            UploadEvent::Read(n) => {
                if n == 0 {
                    if self.filled == 0 {
                        self.phase = UploadPhase::Completing;
                        let parts = self.take_parts_copy();
                        UploadAction::Complete { upload_id: self.upload_id.clone(), parts }
                    } else {
                        self.phase = UploadPhase::Uploading;
                        UploadAction::UploadPart { part_number: self.part_number, len: self.filled }
                    }
                } else {
                    self.filled = self.filled + n;
                    proof {
                        self.read_total = Ghost((self.read_total@ + n) as nat);
                    }
                    self.read_more()
                }
            },
            UploadEvent::ETag(None) => {
                self.phase = UploadPhase::Over;
                let m = owned("No ETag in upload response.");
                UploadAction::Fail(Some(m))
            },
            UploadEvent::ETag(Some(t)) => {
                let ghost old_parts = self.parts@;
                self.parts.push(CompletedPart { e_tag: t, part_number: self.part_number });
                proof {
                    self.sizes = Ghost(self.sizes@.push(self.filled as nat));
                    assert(parts_view(self.parts@) =~= parts_view(old_parts).push(
                        (self.parts@.last().e_tag@, self.parts@.last().part_number as int),
                    ));
                }
                self.part_number = self.part_number + 1;
                self.filled = 0;
                self.phase = UploadPhase::Reading;
                UploadAction::Read { offset: 0, max_len: UPLOAD_CHUNK_SIZE }
            },
        }
    }

    fn take_parts_copy(&self) -> (r: Vec<CompletedPart>)
        ensures
            parts_view(r@) == parts_view(self.parts@),
    {
        let mut r: Vec<CompletedPart> = Vec::new();
        let mut i: usize = 0;
        while i < self.parts.len()
            invariant
                i <= self.parts.len(),
                parts_view(r@) =~= parts_view(self.parts@).subrange(0, i as int),
            decreases self.parts.len() - i,
        {
            let p = &self.parts[i];
            let ghost before = r@;
            r.push(CompletedPart { e_tag: p.e_tag.clone(), part_number: p.part_number });
            proof {
                assert(parts_view(r@) =~= parts_view(before).push(part_view(self.parts@[i as int])));
                assert(parts_view(self.parts@).subrange(0, i + 1) =~= parts_view(self.parts@).subrange(0, i as int).push(part_view(self.parts@[i as int])));
            }
            i = i + 1;
        }
        assert(parts_view(self.parts@).subrange(0, i as int) =~= parts_view(self.parts@));
        r
    }
}


/// The plan of one multipart upload: parts are numbered from 1, each holds the bytes
/// read since the previous part, and a part is cut when the buffer is full or the file
/// ends.
pub struct MultipartUpload {
    state: UploadState,
}

impl MultipartUpload {
    #[verifier::type_invariant]
    spec fn inv(&self) -> bool {
        self.state.view().wf()
    }

    pub closed spec fn view(&self) -> UploadView {
        self.state.view()
    }

    /// A plan to upload the file at `path` under `key`.
    pub fn new(path: &str, key: &str) -> (r: MultipartUpload)
        ensures
            r@ == upload_start(key@, path@),
            r@.wf(),
            r@.phase == UploadPhase::Start,
            r@.key == key@,
            r@.path == path@,
            r@.parts.len() == 0,
            r@.read_total == 0,
    {
        MultipartUpload { state: UploadState::new(path, key) }
    }

    /// Whether the plan can take `e` now.
    pub fn accepts(&self, e: &UploadEvent) -> (r: bool)
        ensures
            r == self@.accepts(e.view()),
    {
        match self.state.phase {
            UploadPhase::Start => matches!(e, UploadEvent::Begin),
            UploadPhase::Creating => matches!(e, UploadEvent::UploadId(_) | UploadEvent::Failed),
            UploadPhase::Opening => matches!(e, UploadEvent::Done | UploadEvent::Failed),
            UploadPhase::Reading => match e {
                UploadEvent::Read(n) => self.state.filled <= UPLOAD_CHUNK_SIZE && *n <= UPLOAD_CHUNK_SIZE - self.state.filled,
                UploadEvent::Failed => true,
                _ => false,
            },
            UploadPhase::Uploading => match e {
                UploadEvent::ETag(Some(_)) => self.state.part_number < i32::MAX,
                UploadEvent::ETag(None) => true,
                UploadEvent::Failed => true,
                _ => false,
            },
            UploadPhase::Completing => matches!(e, UploadEvent::Done | UploadEvent::Failed),
            UploadPhase::Over => false,
        }
    }

    /// True once the upload finished or failed.
    pub fn is_over(&self) -> (r: bool)
        ensures
            r == (self@.phase == UploadPhase::Over),
    {
        self.state.phase == UploadPhase::Over
    }

    /// Takes the caller's report and says what to do next.
    pub fn step(&mut self, event: UploadEvent) -> (a: UploadAction)
        requires
            old(self)@.accepts(event.view()),
        ensures
            final(self)@.wf(),
            (final(self)@, a.view()) == old(self)@.next(event.view()),
    {
        proof {
            use_type_invariant(&*self);
        }
        let mut st = UploadState::new("", "");
        st.phase = UploadPhase::Over;
        std::mem::swap(&mut st, &mut self.state);
        let a = st.step(event);
        self.state = st;
        a
    }
}

/// Where the deletion of a bucket stands.
#[derive(PartialEq, Eq, Structural, Clone, Copy, Debug)]
pub enum DeletionPhase {
    /// Nothing asked yet.
    Start,
    /// Waiting for a page of the keys of the bucket's objects.
    Listing,
    /// Waiting for the deletion of an object.
    Deleting,
    /// Waiting for the deletion of the bucket itself.
    DeletingBucket,
    /// Finished or failed; nothing more to do.
    Over,
}

/// What the caller reports back to the deletion plan.
pub enum DeletionEvent {
    /// Start the deletion.
    Begin,
    /// One page of the listing: the keys of its objects in the order listed (an object
    /// may come without a key), and the token of the next page when there is one.
    Listed(Vec<Option<String>>, Option<String>),
    /// The requested deletion finished.
    Done,
    /// The requested step failed; its error ends the deletion.
    Failed,
}

pub enum DeletionEventView {
    Begin,
    Listed(Seq<Option<Seq<char>>>, Option<Seq<char>>),
    Done,
    Failed,
}

impl DeletionEvent {
    pub open spec fn view(&self) -> DeletionEventView {
        match self {
            DeletionEvent::Begin => DeletionEventView::Begin,
            DeletionEvent::Listed(ks, t) => DeletionEventView::Listed(ks.deep_view(), t.deep_view()),
            DeletionEvent::Done => DeletionEventView::Done,
            DeletionEvent::Failed => DeletionEventView::Failed,
        }
    }
}

/// What the deletion plan asks the caller to do next.
pub enum DeletionAction {
    /// List a page of the objects of this bucket, from the start or from this token, and
    /// report their keys.
    ListObjects(String, Option<String>),
    /// Delete the object with this key from this bucket.
    DeleteObject(String, String),
    /// Delete this bucket.
    DeleteBucket(String),
    /// The bucket is deleted.
    Finished,
    /// The deletion failed with the error of the failed step.
    Fail,
}

pub enum DeletionActionView {
    ListObjects(Seq<char>, Option<Seq<char>>),
    DeleteObject(Seq<char>, Seq<char>),
    DeleteBucket(Seq<char>),
    Finished,
    Fail,
}

impl DeletionAction {
    pub open spec fn view(&self) -> DeletionActionView {
        match self {
            DeletionAction::ListObjects(b, t) => DeletionActionView::ListObjects(b@, t.deep_view()),
            DeletionAction::DeleteObject(b, k) => DeletionActionView::DeleteObject(b@, k@),
            DeletionAction::DeleteBucket(b) => DeletionActionView::DeleteBucket(b@),
            DeletionAction::Finished => DeletionActionView::Finished,
            DeletionAction::Fail => DeletionActionView::Fail,
        }
    }
}

/// The keys that were listed, in order, leaving out the objects that came without one.
pub open spec fn present_keys(ks: Seq<Option<Seq<char>>>) -> Seq<Seq<char>>
    decreases ks.len(),
{
    if ks.len() == 0 {
        Seq::empty()
    } else {
        match ks.last() {
            Some(k) => present_keys(ks.drop_last()).push(k),
            None => present_keys(ks.drop_last()),
        }
    }
}

/// The keys of all the pages, page after page.
pub open spec fn listed_keys(pages: Seq<Seq<Option<Seq<char>>>>) -> Seq<Seq<char>>
    decreases pages.len(),
{
    if pages.len() == 0 {
        Seq::empty()
    } else {
        listed_keys(pages.drop_last()) + present_keys(pages.last())
    }
}

/// The state of a deletion plan as plain values.
pub struct DeletionView {
    pub phase: DeletionPhase,
    pub bucket: Seq<char>,
    /// The keys listed so far, to delete.
    pub keys: Seq<Seq<char>>,
    /// The key being deleted.
    pub next: int,
}

impl DeletionView {
    pub open spec fn wf(self) -> bool {
        self.phase == DeletionPhase::Deleting ==> 0 <= self.next < self.keys.len()
    }

    /// The events the plan can take in this state.
    pub open spec fn accepts(self, e: DeletionEventView) -> bool {
        match self.phase {
            DeletionPhase::Start => e is Begin,
            DeletionPhase::Listing => e is Listed || e is Failed,
            DeletionPhase::Deleting | DeletionPhase::DeletingBucket => e is Done || e is Failed,
            DeletionPhase::Over => false,
        }
    }

    /// Delete the key at `i`, or the bucket once every key is deleted.
    pub open spec fn delete_from(self, i: int) -> (DeletionView, DeletionActionView) {
        if i < self.keys.len() {
            (
                DeletionView { phase: DeletionPhase::Deleting, next: i, ..self },
                DeletionActionView::DeleteObject(self.bucket, self.keys[i]),
            )
        } else {
            (
                DeletionView { phase: DeletionPhase::DeletingBucket, next: i, ..self },
                DeletionActionView::DeleteBucket(self.bucket),
            )
        }
    }

    /// The next state and request after event `e`: every page is listed before the
    /// first deletion.
    pub open spec fn next(self, e: DeletionEventView) -> (DeletionView, DeletionActionView) {
        match e {
            DeletionEventView::Failed => (DeletionView { phase: DeletionPhase::Over, ..self }, DeletionActionView::Fail),
            DeletionEventView::Begin => (
                DeletionView { phase: DeletionPhase::Listing, ..self },
                DeletionActionView::ListObjects(self.bucket, None),
            ),
            DeletionEventView::Listed(ks, Some(t)) => (
                DeletionView { keys: self.keys + present_keys(ks), ..self },
                DeletionActionView::ListObjects(self.bucket, Some(t)),
            ),
            DeletionEventView::Listed(ks, None) => DeletionView { keys: self.keys + present_keys(ks), ..self }.delete_from(0),
            DeletionEventView::Done => if self.phase == DeletionPhase::Deleting {
                self.delete_from(self.next + 1)
            } else {
                (DeletionView { phase: DeletionPhase::Over, ..self }, DeletionActionView::Finished)
            },
        }
    }
}

/// The state of a fresh plan for deleting `bucket`.
pub open spec fn deletion_start(bucket: Seq<char>) -> DeletionView {
    DeletionView { phase: DeletionPhase::Start, bucket, keys: Seq::empty(), next: 0 }
}

/// The state after the events `es`, and the requests answered to them, in order.
pub open spec fn deletion_trace(v: DeletionView, es: Seq<DeletionEventView>) -> (DeletionView, Seq<DeletionActionView>)
    decreases es.len(),
{
    if es.len() == 0 {
        (v, Seq::empty())
    } else {
        let before = deletion_trace(v, es.drop_last());
        let r = before.0.next(es.last());
        (r.0, before.1.push(r.1))
    }
}

/// `n` reports that a deletion finished.
pub open spec fn dones(n: nat) -> Seq<DeletionEventView> {
    Seq::new(n, |i: int| DeletionEventView::Done)
}

/// The reports of a listing of `pages`, each but the last handing over the token of the
/// next one.
pub open spec fn listing_events(pages: Seq<Seq<Option<Seq<char>>>>, tokens: Seq<Seq<char>>) -> Seq<DeletionEventView> {
    Seq::new(
        pages.len(),
        |i: int| DeletionEventView::Listed(pages[i], if i < tokens.len() { Some(tokens[i]) } else { None }),
    )
}

/// The requests of a deletion in which every step succeeds: list the first page and
/// then each next one, delete each listed key in the order listed, delete the bucket,
/// finish.
pub open spec fn deletion_requests(
    bucket: Seq<char>,
    pages: Seq<Seq<Option<Seq<char>>>>,
    tokens: Seq<Seq<char>>,
) -> Seq<DeletionActionView> {
    seq![DeletionActionView::ListObjects(bucket, None)]
        + tokens.map_values(|t: Seq<char>| DeletionActionView::ListObjects(bucket, Some(t)))
        + listed_keys(pages).map_values(|k: Seq<char>| DeletionActionView::DeleteObject(bucket, k))
        + seq![DeletionActionView::DeleteBucket(bucket), DeletionActionView::Finished]
}

/// The request a deletion makes after the `i`-th key: delete the next key, or the bucket
/// once none is left.
pub open spec fn deletion_request_at(bucket: Seq<char>, keys: Seq<Seq<char>>, i: int) -> DeletionActionView {
    if i < keys.len() {
        DeletionActionView::DeleteObject(bucket, keys[i])
    } else {
        DeletionActionView::DeleteBucket(bucket)
    }
}

proof fn lemma_trace_push(v: DeletionView, es: Seq<DeletionEventView>, e: DeletionEventView)
    ensures
        deletion_trace(v, es.push(e)).0 == deletion_trace(v, es).0.next(e).0,
        deletion_trace(v, es.push(e)).1 == deletion_trace(v, es).1.push(deletion_trace(v, es).0.next(e).1),
{
    assert(es.push(e).drop_last() =~= es);
}

proof fn lemma_listing_pages(bucket: Seq<char>, pages: Seq<Seq<Option<Seq<char>>>>, tokens: Seq<Seq<char>>, j: nat)
    requires
        tokens.len() + 1 == pages.len(),
        j < pages.len(),
    ensures
        ({
            let t = deletion_trace(deletion_start(bucket), seq![DeletionEventView::Begin] + listing_events(pages, tokens).take(j as int));
            &&& t.0.phase == DeletionPhase::Listing
            &&& t.0.bucket == bucket
            &&& t.0.keys == listed_keys(pages.take(j as int))
            &&& t.1 == seq![DeletionActionView::ListObjects(bucket, None)]
                + tokens.take(j as int).map_values(|t: Seq<char>| DeletionActionView::ListObjects(bucket, Some(t)))
        }),
    decreases j,
{
    let begin = seq![DeletionEventView::Begin];
    if j == 0 {
        assert(begin + listing_events(pages, tokens).take(0) =~= Seq::<DeletionEventView>::empty().push(DeletionEventView::Begin));
        lemma_trace_push(deletion_start(bucket), Seq::empty(), DeletionEventView::Begin);
        assert(pages.take(0) =~= Seq::<Seq<Option<Seq<char>>>>::empty());
        let t = deletion_trace(deletion_start(bucket), begin + listing_events(pages, tokens).take(0));
        assert(t.1 =~= seq![DeletionActionView::ListObjects(bucket, None)]
            + tokens.take(0).map_values(|t: Seq<char>| DeletionActionView::ListObjects(bucket, Some(t))));
    } else {
        lemma_listing_pages(bucket, pages, tokens, (j - 1) as nat);
        let prev = begin + listing_events(pages, tokens).take(j - 1);
        let e = listing_events(pages, tokens)[j - 1];
        assert(begin + listing_events(pages, tokens).take(j as int) =~= prev.push(e));
        lemma_trace_push(deletion_start(bucket), prev, e);
        assert(pages.take(j as int).drop_last() =~= pages.take(j - 1));
        assert(pages.take(j as int).last() == pages[j - 1]);
        assert(tokens.take(j as int).map_values(|t: Seq<char>| DeletionActionView::ListObjects(bucket, Some(t)))
            =~= tokens.take(j - 1).map_values(|t: Seq<char>| DeletionActionView::ListObjects(bucket, Some(t))).push(
            DeletionActionView::ListObjects(bucket, Some(tokens[j - 1]))));
        let t = deletion_trace(deletion_start(bucket), begin + listing_events(pages, tokens).take(j as int));
        assert(t.1 =~= seq![DeletionActionView::ListObjects(bucket, None)]
            + tokens.take(j as int).map_values(|t: Seq<char>| DeletionActionView::ListObjects(bucket, Some(t))));
    }
}

proof fn lemma_deleting_keys(v: DeletionView, prefix: Seq<DeletionEventView>, i: nat)
    requires
        deletion_trace(v, prefix).0.next == 0,
        deletion_trace(v, prefix).0.phase == (if 0 < deletion_trace(v, prefix).0.keys.len() { DeletionPhase::Deleting } else { DeletionPhase::DeletingBucket }),
        deletion_trace(v, prefix).1.len() > 0,
        deletion_trace(v, prefix).1.last() == deletion_request_at(deletion_trace(v, prefix).0.bucket, deletion_trace(v, prefix).0.keys, 0),
        i <= deletion_trace(v, prefix).0.keys.len(),
    ensures
        ({
            let t0 = deletion_trace(v, prefix);
            let t = deletion_trace(v, prefix + dones(i));
            let keys = t0.0.keys;
            &&& t.0.keys == keys
            &&& t.0.bucket == t0.0.bucket
            &&& t.0.next == i
            &&& t.0.phase == (if i < keys.len() { DeletionPhase::Deleting } else { DeletionPhase::DeletingBucket })
            &&& t.1 == t0.1.drop_last()
                + keys.take(i as int).map_values(|k: Seq<char>| DeletionActionView::DeleteObject(t0.0.bucket, k))
                + seq![deletion_request_at(t0.0.bucket, keys, i as int)]
        }),
    decreases i,
{
    let t0 = deletion_trace(v, prefix);
    let keys = t0.0.keys;
    let bucket = t0.0.bucket;
    if i == 0 {
        assert(prefix + dones(0) =~= prefix);
        assert(t0.1 =~= t0.1.drop_last() + keys.take(0).map_values(|k: Seq<char>| DeletionActionView::DeleteObject(bucket, k))
            + seq![deletion_request_at(bucket, keys, 0)]);
    } else {
        lemma_deleting_keys(v, prefix, (i - 1) as nat);
        let prev = prefix + dones((i - 1) as nat);
        assert(prefix + dones(i) =~= prev.push(DeletionEventView::Done));
        lemma_trace_push(v, prev, DeletionEventView::Done);
        assert(keys.take(i as int).map_values(|k: Seq<char>| DeletionActionView::DeleteObject(bucket, k))
            =~= keys.take(i - 1).map_values(|k: Seq<char>| DeletionActionView::DeleteObject(bucket, k)).push(
            DeletionActionView::DeleteObject(bucket, keys[i - 1])));
        let t = deletion_trace(v, prefix + dones(i));
        assert(t.1 =~= t0.1.drop_last() + keys.take(i as int).map_values(|k: Seq<char>| DeletionActionView::DeleteObject(bucket, k))
            + seq![deletion_request_at(bucket, keys, i as int)]);
    }
}

/// The law of a bucket deletion: when every step succeeds, the plan lists every page of
/// the bucket's objects, following the tokens, then deletes each listed key once, in
/// the order listed (objects listed without a key are passed over), then deletes the
/// bucket and finishes.
pub proof fn lemma_deletion_removes_listed_keys_then_bucket(
    bucket: Seq<char>,
    pages: Seq<Seq<Option<Seq<char>>>>,
    tokens: Seq<Seq<char>>,
)
    requires
        tokens.len() + 1 == pages.len(),
    ensures
        ({
            let es = seq![DeletionEventView::Begin] + listing_events(pages, tokens) + dones(listed_keys(pages).len() + 1);
            &&& deletion_trace(deletion_start(bucket), es).1 == deletion_requests(bucket, pages, tokens)
            &&& deletion_trace(deletion_start(bucket), es).0.phase == DeletionPhase::Over
        }),
{
    let begin = seq![DeletionEventView::Begin];
    let n = pages.len() - 1;
    lemma_listing_pages(bucket, pages, tokens, n as nat);
    let before = begin + listing_events(pages, tokens).take(n);
    let last = listing_events(pages, tokens)[n];
    let listed = begin + listing_events(pages, tokens);
    assert(listed =~= before.push(last));
    lemma_trace_push(deletion_start(bucket), before, last);
    assert(pages.drop_last() =~= pages.take(n));
    assert(pages.last() == pages[n]);
    assert(tokens.take(n) =~= tokens);
    let keys = listed_keys(pages);
    let t1 = deletion_trace(deletion_start(bucket), listed);
    assert(t1.0.keys == keys);
    lemma_deleting_keys(deletion_start(bucket), listed, keys.len());
    let m = keys.len();
    let es = listed + dones(m + 1);
    assert(es =~= (listed + dones(m)).push(DeletionEventView::Done));
    lemma_trace_push(deletion_start(bucket), listed + dones(m), DeletionEventView::Done);
    assert(keys.take(m as int) =~= keys);
    assert(t1.1.drop_last() =~= seq![DeletionActionView::ListObjects(bucket, None)]
        + tokens.map_values(|t: Seq<char>| DeletionActionView::ListObjects(bucket, Some(t))));
    assert(begin + listing_events(pages, tokens) + dones(m + 1) =~= es);
    assert(deletion_trace(deletion_start(bucket), es).1 =~= deletion_requests(bucket, pages, tokens));
}

/// A failure ends a deletion at once: the plan answers it with `Fail` and takes nothing
/// more; no other report is answered with `Fail`.
pub proof fn lemma_deletion_stops_at_first_failure(v: DeletionView, e: DeletionEventView, e2: DeletionEventView)
    requires
        v.accepts(e),
    ensures
        (v.next(e).1 is Fail) <==> (e is Failed),
        e is Failed ==> !v.next(e).0.accepts(e2),
{
}

/// The plan of deleting a bucket: first its objects, one by one, then the bucket.
pub struct BucketDeletion {
    bucket: String,
    keys: Vec<String>,
    next: usize,
    phase: DeletionPhase,
}

impl BucketDeletion {
    #[verifier::type_invariant]
    spec fn inv(&self) -> bool {
        self.phase == DeletionPhase::Deleting ==> self.next < self.keys.len()
    }

    pub closed spec fn view(&self) -> DeletionView {
        DeletionView { phase: self.phase, bucket: self.bucket@, keys: self.keys.deep_view(), next: self.next as int }
    }

    /// A plan to delete `bucket`.
    pub fn new(bucket: &str) -> (r: BucketDeletion)
        ensures
            r@ == deletion_start(bucket@),
    {
        let r = BucketDeletion { bucket: owned(bucket), keys: Vec::new(), next: 0, phase: DeletionPhase::Start };
        assert(r.keys.deep_view() =~= Seq::<Seq<char>>::empty());
        r
    }

    /// Whether the plan can take `e` now.
    pub fn accepts(&self, e: &DeletionEvent) -> (r: bool)
        ensures
            r == self@.accepts(e.view()),
    {
        match self.phase {
            DeletionPhase::Start => matches!(e, DeletionEvent::Begin),
            DeletionPhase::Listing => matches!(e, DeletionEvent::Listed(_, _) | DeletionEvent::Failed),
            DeletionPhase::Deleting | DeletionPhase::DeletingBucket => matches!(e, DeletionEvent::Done | DeletionEvent::Failed),
            DeletionPhase::Over => false,
        }
    }

    /// True once the deletion finished or failed.
    pub fn is_over(&self) -> (r: bool)
        ensures
            r == (self@.phase == DeletionPhase::Over),
    {
        self.phase == DeletionPhase::Over
    }

    fn keys_present(ks: &Vec<Option<String>>) -> (r: Vec<String>)
        ensures
            r.deep_view() == present_keys(ks.deep_view()),
    {
        let mut r: Vec<String> = Vec::new();
        let mut i: usize = 0;
        while i < ks.len()
            invariant
                i <= ks.len(),
                r.deep_view() == present_keys(ks.deep_view().take(i as int)),
            decreases ks.len() - i,
        {
            let ghost before = r.deep_view();
            assert(ks.deep_view().take(i + 1).drop_last() =~= ks.deep_view().take(i as int));
            match &ks[i] {
                Some(k) => {
                    r.push(k.clone());
                    assert(r.deep_view() =~= before.push(k@));
                },
                None => {},
            }
            i = i + 1;
        }
        assert(ks.deep_view().take(i as int) =~= ks.deep_view());
        r
    }

    fn delete_from(&mut self, i: usize) -> (a: DeletionAction)
        requires
            i <= old(self).keys.len(),
        ensures
            (final(self)@, a.view()) == old(self)@.delete_from(i as int),
    {
        proof {
            use_type_invariant(&*self);
        }
        if i < self.keys.len() {
            let key = self.keys[i].clone();
            let bucket = self.bucket.clone();
            self.next = i;
            self.phase = DeletionPhase::Deleting;
            DeletionAction::DeleteObject(bucket, key)
        } else {
            self.phase = DeletionPhase::DeletingBucket;
            self.next = i;
            DeletionAction::DeleteBucket(self.bucket.clone())
        }
    }

    /// Takes the caller's report and says what to do next.
    pub fn step(&mut self, event: DeletionEvent) -> (a: DeletionAction)
        requires
            old(self)@.accepts(event.view()),
        ensures
            (final(self)@, a.view()) == old(self)@.next(event.view()),
    {
        proof {
            use_type_invariant(&*self);
        }
        match event {
            DeletionEvent::Failed => {
                self.phase = DeletionPhase::Over;
                DeletionAction::Fail
            },
            DeletionEvent::Begin => {
                self.phase = DeletionPhase::Listing;
                DeletionAction::ListObjects(self.bucket.clone(), None)
            },
            DeletionEvent::Listed(ks, token) => {
                let page = Self::keys_present(&ks);
                self.phase = DeletionPhase::Listing;
                let mut keys: Vec<String> = Vec::new();
                std::mem::swap(&mut keys, &mut self.keys);
                let ghost before = keys.deep_view();
                let mut i: usize = 0;
                while i < page.len()
                    invariant
                        i <= page.len(),
                        keys.deep_view() == before + page.deep_view().take(i as int),
                    decreases page.len() - i,
                {
                    let ghost b = keys.deep_view();
                    keys.push(page[i].clone());
                    assert(keys.deep_view() =~= b.push(page.deep_view()[i as int]));
                    assert(page.deep_view().take(i + 1) =~= page.deep_view().take(i as int).push(page.deep_view()[i as int]));
                    i = i + 1;
                }
                assert(page.deep_view().take(i as int) =~= page.deep_view());
                self.keys = keys;
                match token {
                    Some(t) => DeletionAction::ListObjects(self.bucket.clone(), Some(t)),
                    None => {
                        self.next = 0;
                        self.delete_from(0)
                    },
                }
            },
            DeletionEvent::Done => {
                if self.phase == DeletionPhase::Deleting {
                    let n = self.next + 1;
                    self.delete_from(n)
                } else {
                    self.phase = DeletionPhase::Over;
                    DeletionAction::Finished
                }
            },
        }
    }
}

} // verus!
