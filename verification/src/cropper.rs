//! The bridge to the external image-cropping worker: the line-delimited
//! JSON protocol spoken over its standard input and output, the half-duplex
//! batching state machine, and the transactional application of batch
//! results to the store.
//!
//! The worker process itself is spawned and its pipes are read by the
//! surrounding application; every request line is produced here by
//! [`encode_request`], and every decoded response is applied here.

use vstd::pervasive::VecAdditionalExecFns;
use vstd::prelude::*;
use vstd::string::StringExecFns;

use crate::config::Storage;
use crate::db::{Media, Store};
use crate::text::{
    chars_to_string, dec_int, digit_char, i64_to_dec_chars, push_str_chars, str_chars,
};
use crate::Error;

verus! {

// ---------------------------------------------------------------------------
// Protocol types
// ---------------------------------------------------------------------------

/// A message that can be sent to the cropping worker.
pub enum Request {
    /// Add a file to the current batch.
    AddFile(AddFileRequest),
    /// Ask to run the current batch.
    Run,
    /// Terminates the cropper.
    End,
}

/// The different elements needed to ask the worker to crop a file.
pub struct AddFileRequest {
    /// The id of the media in the store.
    pub id: i32,
    /// Path to the file.
    pub path: String,
}

impl Request {
    /// Returns true if we should expect results from the worker.
    ///
    /// True for Run and End.
    pub fn should_wait_python(&self) -> (r: bool)
        ensures
            r == !(*self matches Request::AddFile(_)),
    {
        match self {
            Request::AddFile(_) => false,
            _ => true,
        }
    }
}

/// A message from the cropping worker.
pub enum Response {
    /// The worker is ready to receive requests.
    Ready,
    /// The worker sent a batch that was finished.
    Batch(Batch),
}

/// A batch from the cropping worker.
pub struct Batch {
    /// The id of the batch.
    pub id: i32,
    /// The files that were treated by the worker.
    pub files: Vec<ResponseItem>,
}

/// A file that was treated by the cropping worker.
pub enum ResponseItem {
    /// A file was cropped.
    FileCropSuccess(FileCropSuccessResponse),
    /// A file cropping has failed.
    FileCropFailure(FileCropFailureResponse),
}

/// A file was cropped. The bounding-box numbers are kept as the decimal
/// tokens of the response line.
pub struct FileCropSuccessResponse {
    /// The id of the media.
    pub id: i32,
    /// The path to the file.
    pub path: String,
    /// The path to the cropped file, in the worker's scratch directory.
    pub cropped_path: String,
    /// The x coordinate of the center of the bounding box.
    pub x: String,
    /// The y coordinate of the center of the bounding box.
    pub y: String,
    /// The width of the bounding box.
    pub width: String,
    /// The height of the bounding box.
    pub height: String,
    /// The confidence given by the network.
    pub confidence: String,
}

/// A file couldn't be cropped.
pub struct FileCropFailureResponse {
    /// The id of the media.
    pub id: i32,
    /// The path to the file.
    pub path: String,
}

// ---------------------------------------------------------------------------
// Request encoding
// ---------------------------------------------------------------------------

/// A lowercase hexadecimal digit.
pub open spec fn hex_digit(d: int) -> char
    recommends
        0 <= d < 16,
{
    if d < 10 {
        digit_char(d)
    } else if d == 10 {
        'a'
    } else if d == 11 {
        'b'
    } else if d == 12 {
        'c'
    } else if d == 13 {
        'd'
    } else if d == 14 {
        'e'
    } else {
        'f'
    }
}

/// How one character is written inside a JSON string: quotes, backslashes
/// and control characters are escaped, everything else stands as it is.
pub open spec fn json_escape_char(c: char) -> Seq<char> {
    if c == '"' {
        seq!['\\', '"']
    } else if c == '\\' {
        seq!['\\', '\\']
    } else if c == '\u{8}' {
        seq!['\\', 'b']
    } else if c == '\t' {
        seq!['\\', 't']
    } else if c == '\n' {
        seq!['\\', 'n']
    } else if c == '\u{c}' {
        seq!['\\', 'f']
    } else if c == '\r' {
        seq!['\\', 'r']
    } else if (c as u32) < 0x20 {
        seq!['\\', 'u', '0', '0', hex_digit(((c as u32) / 16) as int), hex_digit(((c as u32) % 16) as int)]
    } else {
        seq![c]
    }
}

/// How a whole string is written inside a JSON string.
pub open spec fn json_escape(s: Seq<char>) -> Seq<char>
    decreases s.len(),
{
    if s.len() == 0 {
        Seq::empty()
    } else {
        json_escape(s.drop_last()) + json_escape_char(s.last())
    }
}

/// Escapes one character into the output buffer.
fn push_escaped_char(out: &mut Vec<char>, c: char)
    ensures
        final(out)@ == old(out)@ + json_escape_char(c),
{
    let ghost prev = out@;
    if c == '"' {
        out.push('\\');
        out.push('"');
    } else if c == '\\' {
        out.push('\\');
        out.push('\\');
    } else if c == '\u{8}' {
        out.push('\\');
        out.push('b');
    } else if c == '\t' {
        out.push('\\');
        out.push('t');
    } else if c == '\n' {
        out.push('\\');
        out.push('n');
    } else if c == '\u{c}' {
        out.push('\\');
        out.push('f');
    } else if c == '\r' {
        out.push('\\');
        out.push('r');
    } else if (c as u32) < 0x20 {
        let v = c as u32;
        out.push('\\');
        out.push('u');
        out.push('0');
        out.push('0');
        out.push(hex_digit_exec(v / 16));
        out.push(hex_digit_exec(v % 16));
    } else {
        out.push(c);
    }
    proof {
        assert(final(out)@ =~= prev + json_escape_char(c));
    }
}

/// A lowercase hexadecimal digit.
fn hex_digit_exec(d: u32) -> (c: char)
    requires
        d < 16,
    ensures
        c == hex_digit(d as int),
{
    if d == 0 {
        '0'
    } else if d == 1 {
        '1'
    } else if d == 2 {
        '2'
    } else if d == 3 {
        '3'
    } else if d == 4 {
        '4'
    } else if d == 5 {
        '5'
    } else if d == 6 {
        '6'
    } else if d == 7 {
        '7'
    } else if d == 8 {
        '8'
    } else if d == 9 {
        '9'
    } else if d == 10 {
        'a'
    } else if d == 11 {
        'b'
    } else if d == 12 {
        'c'
    } else if d == 13 {
        'd'
    } else if d == 14 {
        'e'
    } else {
        'f'
    }
}

/// Escapes a whole string into the output buffer.
fn push_escaped(out: &mut Vec<char>, s: &str)
    ensures
        final(out)@ == old(out)@ + json_escape(s@),
{
    let chars = str_chars(s);
    let mut i: usize = 0;
    while i < chars.len()
        invariant
            i <= chars@.len(),
            chars@ == s@,
            out@ == old(out)@ + json_escape(s@.take(i as int)),
        decreases chars@.len() - i,
    {
        proof {
            assert(s@.take(i + 1 as int).drop_last() =~= s@.take(i as int));
            assert(s@.take(i + 1 as int).last() == s@[i as int]);
        }
        push_escaped_char(out, chars[i]);
        proof {
            assert(old(out)@ + json_escape(s@.take(i + 1 as int)) =~= (old(out)@ + json_escape(
                s@.take(i as int),
            )) + json_escape_char(s@[i as int]));
        }
        i += 1;
    }
    proof {
        assert(s@.take(s@.len() as int) =~= s@);
    }
}

/// The JSON line (without the trailing newline) that carries a request:
/// one object per line, tagged by its kind, fields in declaration order.
pub open spec fn encode_request_of(req: Request) -> Seq<char> {
    match req {
        Request::AddFile(a) => "{\"type\":\"add_file\",\"id\":"@ + dec_int(a.id as int)
            + ",\"path\":\""@ + json_escape(a.path@) + "\"}"@,
        Request::Run => "{\"type\":\"run\"}"@,
        Request::End => "{\"type\":\"end\"}"@,
    }
}

/// Writes a request as its JSON line (without the trailing newline).
pub fn encode_request(req: &Request) -> (r: String)
    ensures
        r@ == encode_request_of(*req),
{
    match req {
        Request::AddFile(a) => {
            let mut out: Vec<char> = Vec::new();
            push_str_chars(&mut out, "{\"type\":\"add_file\",\"id\":");
            let mut id_chars = i64_to_dec_chars(a.id as i64);
            out.append(&mut id_chars);
            push_str_chars(&mut out, ",\"path\":\"");
            push_escaped(&mut out, a.path.as_str());
            push_str_chars(&mut out, "\"}");
            let r = chars_to_string(&out);
            proof {
                assert(r@ =~= encode_request_of(*req));
            }
            r
        },
        Request::Run => "{\"type\":\"run\"}".to_owned(),
        Request::End => "{\"type\":\"end\"}".to_owned(),
    }
}

// ---------------------------------------------------------------------------
// Applying a batch to the store
// ---------------------------------------------------------------------------

/// The media identifier a response item speaks about.
pub open spec fn item_id(item: ResponseItem) -> i32 {
    match item {
        ResponseItem::FileCropSuccess(s) => s.id,
        ResponseItem::FileCropFailure(f) => f.id,
    }
}

/// Whether a response item can be applied to this media table: its id
/// names a row, and a success needs the row's downloaded path.
pub open spec fn item_valid(ms: Seq<Media>, item: ResponseItem) -> bool {
    match item {
        ResponseItem::FileCropSuccess(s) => 1 <= s.id <= ms.len() && ms[s.id - 1].path is Some,
        ResponseItem::FileCropFailure(f) => 1 <= f.id <= ms.len(),
    }
}

/// Whether every item of a batch can be applied.
pub open spec fn items_valid(ms: Seq<Media>, items: Seq<ResponseItem>) -> bool {
    forall|j: int| 0 <= j < items.len() ==> item_valid(ms, #[trigger] items[j])
}

/// One media row after a response item that names it: a success records
/// the bounding box and the confidence, a failure records only that a crop
/// was attempted.
pub open spec fn apply_item_to_row(row: Media, item: ResponseItem) -> Media {
    match item {
        ResponseItem::FileCropSuccess(s) => Media {
            cropped: true,
            x: Some(s.x),
            y: Some(s.y),
            width: Some(s.width),
            height: Some(s.height),
            confidence: Some(s.confidence),
            ..row
        },
        ResponseItem::FileCropFailure(_) => Media { cropped: true, ..row },
    }
}

/// The media table after one response item: only the row the item names
/// changes.
pub open spec fn apply_item(ms: Seq<Media>, item: ResponseItem) -> Seq<Media>
    recommends
        item_valid(ms, item),
{
    ms.update(item_id(item) - 1, apply_item_to_row(ms[item_id(item) - 1], item))
}

/// The media table after a whole batch, item by item.
pub open spec fn apply_items(ms: Seq<Media>, items: Seq<ResponseItem>) -> Seq<Media>
    decreases items.len(),
{
    if items.len() == 0 {
        ms
    } else {
        apply_item(apply_items(ms, items.drop_last()), items.last())
    }
}

/// A batch leaves every media row alone whose id none of its items
/// carries: applying it touches only the rows it names.
pub proof fn lemma_apply_items_leaves_unnamed_rows(
    ms: Seq<Media>,
    items: Seq<ResponseItem>,
    a: int,
)
    requires
        items_valid(ms, items),
        0 <= a < ms.len(),
        forall|k: int| 0 <= k < items.len() ==> item_id(#[trigger] items[k]) - 1 != a,
    ensures
        apply_items(ms, items).len() == ms.len(),
        apply_items(ms, items)[a] == ms[a],
    decreases items.len(),
{
    if items.len() > 0 {
        assert(forall|k: int|
            0 <= k < items.drop_last().len() ==> #[trigger] items.drop_last()[k] == items[k]);
        lemma_apply_items_leaves_unnamed_rows(ms, items.drop_last(), a);
        assert(item_valid(ms, items.last()));
    }
}

/// A media row named by exactly one item of a batch carries exactly that
/// item's update afterwards: together with the previous lemma, a batch of
/// distinct ids updates exactly the rows it names, each as its item says.
pub proof fn lemma_apply_items_updates_named_row_once(
    ms: Seq<Media>,
    items: Seq<ResponseItem>,
    j: int,
)
    requires
        items_valid(ms, items),
        0 <= j < items.len(),
        forall|k: int|
            0 <= k < items.len() && k != j ==> item_id(#[trigger] items[k]) != item_id(items[j]),
    ensures
        apply_items(ms, items).len() == ms.len(),
        apply_items(ms, items)[item_id(items[j]) - 1] == apply_item_to_row(
            ms[item_id(items[j]) - 1],
            items[j],
        ),
    decreases items.len(),
{
    let a = item_id(items[j]) - 1;
    assert(forall|k: int|
        0 <= k < items.drop_last().len() ==> #[trigger] items.drop_last()[k] == items[k]);
    assert(item_valid(ms, items[j]));
    if j == items.len() - 1 {
        if items.len() == 1 {
            assert(apply_items(ms, items.drop_last()) == ms);
        } else {
            lemma_apply_items_leaves_unnamed_rows(ms, items.drop_last(), a);
        }
        assert(item_valid(ms, items.last()));
    } else {
        lemma_apply_items_updates_named_row_once(ms, items.drop_last(), j);
        assert(item_valid(ms, items.last()));
        assert(item_id(items.last()) != item_id(items[j]));
    }
}

/// One move of a cropped artifact from the worker's scratch directory to
/// its final place.
pub struct RenameOp {
    /// Where the worker left the cropped file.
    pub from: String,
    /// Where the cropped file belongs, under the cropped-media root.
    pub to: String,
}

/// The moves a batch asks for: one per success, from the worker's scratch
/// path to the media's path under the cropped-media root.
pub open spec fn renames_of(ms: Seq<Media>, items: Seq<ResponseItem>, root: Seq<char>) -> Seq<
    (Seq<char>, Seq<char>),
>
    decreases items.len(),
{
    if items.len() == 0 {
        Seq::empty()
    } else {
        let rest = renames_of(ms, items.drop_last(), root);
        match items.last() {
            ResponseItem::FileCropSuccess(s) => rest.push(
                (s.cropped_path@, root + "/"@ + ms[s.id - 1].path->0@),
            ),
            ResponseItem::FileCropFailure(_) => rest,
        }
    }
}

impl Store {
    /// Applies one batch response in a single transaction: either every
    /// item of the batch is applied and the artifact moves are returned, or
    /// the store is left exactly as it was.
    ///
    /// An item naming an unknown media row, or a success naming a media
    /// without a downloaded path, refuses the whole batch.
    pub fn apply_batch(&mut self, batch: Batch, cropped_root: &str) -> (r: Result<
        Vec<RenameOp>,
        Error,
    >)
        requires
            old(self).wf(),
        ensures
            final(self).wf(),
            final(self).species == old(self).species,
            final(self).ignored == old(self).ignored,
            final(self).occurrences == old(self).occurrences,
            match r {
                Ok(renames) => {
                    &&& items_valid(old(self).medias@, batch.files@)
                    &&& final(self).medias@ == apply_items(old(self).medias@, batch.files@)
                    &&& renames@.map_values(|op: RenameOp| (op.from@, op.to@)) == renames_of(
                        old(self).medias@,
                        batch.files@,
                        cropped_root@,
                    )
                },
                Err(e) => {
                    &&& *final(self) == *old(self)
                    &&& e is DbError
                    &&& !items_valid(old(self).medias@, batch.files@)
                },
            },
    {
        let ghost pre = old(self).medias@;
        let ghost items = batch.files@;
        // first pass: validate every item against the untouched store
        let n = batch.files.len();
        let mut j: usize = 0;
        while j < n
            invariant
                *self == *old(self),
                old(self).wf(),
                pre == old(self).medias@,
                items == batch.files@,
                j <= n,
                n == items.len(),
                forall|a: int| 0 <= a < j ==> item_valid(pre, #[trigger] items[a]),
            decreases n - j,
        {
            match &batch.files[j] {
                ResponseItem::FileCropSuccess(s) => {
                    if s.id < 1 || (s.id as usize) > self.medias.len() {
                        proof {
                            assert(!item_valid(pre, items[j as int]));
                        }
                        return Err(Error::DbError);
                    }
                    let idx = (s.id as usize) - 1;
                    if self.medias[idx].path.is_none() {
                        proof {
                            assert(!item_valid(pre, items[j as int]));
                        }
                        return Err(Error::DbError);
                    }
                },
                ResponseItem::FileCropFailure(f) => {
                    if f.id < 1 || (f.id as usize) > self.medias.len() {
                        proof {
                            assert(!item_valid(pre, items[j as int]));
                        }
                        return Err(Error::DbError);
                    }
                },
            }
            j += 1;
        }
        // second pass: apply every item and collect the artifact moves
        let mut files = batch.files;
        let mut renames: Vec<RenameOp> = Vec::new();
        let mut k: usize = 0;
        while k < n
            invariant
                self.wf(),
                self.species == old(self).species,
                self.ignored == old(self).ignored,
                self.occurrences == old(self).occurrences,
                pre == old(self).medias@,
                items == batch.files@,
                k <= n,
                n == items.len(),
                files@.len() == items.len(),
                forall|a: int| k <= a < items.len() ==> files@[a] == items[a],
                items_valid(pre, items),
                self.medias@ == apply_items(pre, items.take(k as int)),
                self.medias@.len() == pre.len(),
                forall|a: int|
                    0 <= a < pre.len() ==> (#[trigger] self.medias@[a]).id == pre[a].id
                        && self.medias@[a].url == pre[a].url && self.medias@[a].path == pre[a].path
                        && self.medias@[a].status_code == pre[a].status_code
                        && self.medias@[a].to_download == pre[a].to_download
                        && self.medias@[a].occurrence == pre[a].occurrence,
                renames@.map_values(|op: RenameOp| (op.from@, op.to@)) == renames_of(
                    pre,
                    items.take(k as int),
                    cropped_root@,
                ),
            decreases n - k,
        {
            proof {
                assert(items.take(k + 1 as int).drop_last() =~= items.take(k as int));
                assert(items.take(k + 1 as int).last() == items[k as int]);
            }
            let ghost med_before = self.medias@;
            let ghost ren_before = renames@.map_values(|op: RenameOp| (op.from@, op.to@));
            let mut item = ResponseItem::FileCropFailure(
                FileCropFailureResponse { id: 0, path: String::new() },
            );
            files.set_and_swap(k, &mut item);
            proof {
                assert(item == items[k as int]);
            }
            match item {
                ResponseItem::FileCropSuccess(s) => {
                    let FileCropSuccessResponse {
                        id,
                        path: _worker_path,
                        cropped_path,
                        x,
                        y,
                        width,
                        height,
                        confidence,
                    } = s;
                    let idx = (id as usize) - 1;
                    // destination of the cropped artifact
                    let mut to = cropped_root.to_owned();
                    to.append("/");
                    match &self.medias[idx].path {
                        Some(p) => to.append(p.as_str()),
                        None => (),
                    }
                    renames.push(RenameOp { from: cropped_path, to });
                    let m = &mut self.medias[idx];
                    m.cropped = true;
                    m.x = Some(x);
                    m.y = Some(y);
                    m.width = Some(width);
                    m.height = Some(height);
                    m.confidence = Some(confidence);
                    proof {
                        assert(self.medias@ =~= apply_items(pre, items.take(k + 1 as int)));
                        assert(renames@.map_values(|op: RenameOp| (op.from@, op.to@)) =~= renames_of(
                            pre,
                            items.take(k + 1 as int),
                            cropped_root@,
                        ));
                    }
                },
                ResponseItem::FileCropFailure(f) => {
                    let idx = (f.id as usize) - 1;
                    let m = &mut self.medias[idx];
                    m.cropped = true;
                    proof {
                        assert(self.medias@ =~= apply_items(pre, items.take(k + 1 as int)));
                        assert(renames@.map_values(|op: RenameOp| (op.from@, op.to@)) =~= renames_of(
                            pre,
                            items.take(k + 1 as int),
                            cropped_root@,
                        ));
                    }
                },
            }
            proof {
                assert(self.wf()) by {
                    assert(forall|a: int|
                        0 <= a < self.medias@.len() && a != (item_id(items[k as int]) - 1)
                            ==> self.medias@[a] == med_before[a]);
                }
            }
            k += 1;
        }
        proof {
            assert(items.take(n as int) =~= items);
        }
        Ok(renames)
    }
}

/// A crop batch that fails to apply is all-or-nothing: with the store left
/// exactly as it was, no media of the batch shows `cropped = true` unless
/// it already did before the batch.
pub proof fn lemma_failed_batch_leaves_no_crops(pre: Store, post: Store, items: Seq<ResponseItem>)
    requires
        post == pre,
        forall|j: int|
            0 <= j < items.len() && 1 <= item_id(#[trigger] items[j]) <= pre.medias@.len()
                ==> !pre.medias@[item_id(items[j]) - 1].cropped,
    ensures
        forall|j: int|
            0 <= j < items.len() && 1 <= item_id(#[trigger] items[j]) <= post.medias@.len()
                ==> !post.medias@[item_id(items[j]) - 1].cropped,
{
}

// ---------------------------------------------------------------------------
// The bridge state machine
// ---------------------------------------------------------------------------

/// Where the half-duplex conversation with the worker stands.
#[derive(Copy, Clone, PartialEq, Eq, Structural, Debug)]
pub enum CropperPhase {
    /// The worker was started; its one `Ready` line has not been read yet.
    AwaitingReady,
    /// The worker is idle; files may be added.
    Idle,
    /// A `Run` was sent; the matching `Batch` response is awaited.
    AwaitingBatch,
    /// An `End` was sent; the final `Batch` response is awaited.
    AwaitingFinal,
    /// The final batch was applied; the session is over.
    Terminated,
}

/// This structure tracks the conversation with the cropping worker.
pub struct Cropper {
    /// The number of files in the current batch.
    pub batch_size: usize,
    /// The number of files to put in each batch.
    pub batch_capacity: usize,
    /// Where the conversation stands.
    pub phase: CropperPhase,
}

impl Cropper {
    /// The current batch never exceeds its capacity.
    pub open spec fn inv(self) -> bool {
        self.batch_size <= self.batch_capacity
    }

    /// Creates a new cropper bridge; the worker's `Ready` line must be
    /// consumed before any request is sent.
    pub fn new(batch_capacity: usize) -> (r: Cropper)
        ensures
            r.inv(),
            r.batch_size == 0,
            r.batch_capacity == batch_capacity,
            r.phase == CropperPhase::AwaitingReady,
    {
        Cropper { batch_size: 0, batch_capacity, phase: CropperPhase::AwaitingReady }
    }

    /// Consumes the worker's `Ready` handshake.
    ///
    /// The handshake must be the first response read; a `Ready` in any
    /// other phase is a protocol violation and fails the run's
    /// initialization.
    pub fn handle_ready(&mut self) -> (r: Result<(), Error>)
        ensures
            match r {
                Ok(_) => old(self).phase == CropperPhase::AwaitingReady && *final(self) == (Cropper {
                    phase: CropperPhase::Idle,
                    ..*old(self)
                }),
                Err(e) => old(self).phase != CropperPhase::AwaitingReady && *final(self) == *old(
                    self,
                ) && e is InitializeCropperFailed,
            },
    {
        match self.phase {
            CropperPhase::AwaitingReady => {
                self.phase = CropperPhase::Idle;
                Ok(())
            },
            _ => Err(Error::InitializeCropperFailed),
        }
    }

    /// Adds one file to the current batch, returning the requests to send:
    /// the `AddFile` itself and, when this fills the batch, the `Run` that
    /// flushes it — after which the matching `Batch` response must be
    /// consumed before any further file.
    pub fn add_file(&mut self, id: i32, path: String) -> (r: Vec<Request>)
        requires
            old(self).inv(),
            old(self).phase == CropperPhase::Idle,
        ensures
            final(self).inv(),
            final(self).batch_capacity == old(self).batch_capacity,
            if old(self).batch_size + 1 >= old(self).batch_capacity {
                &&& final(self).batch_size == 0
                &&& final(self).phase == CropperPhase::AwaitingBatch
                &&& r@ == seq![
                    Request::AddFile(AddFileRequest { id, path }),
                    Request::Run,
                ]
            } else {
                &&& final(self).batch_size == old(self).batch_size + 1
                &&& final(self).phase == CropperPhase::Idle
                &&& r@ == seq![Request::AddFile(AddFileRequest { id, path })]
            },
    {
        let mut r: Vec<Request> = Vec::new();
        r.push(Request::AddFile(AddFileRequest { id, path }));
        if self.batch_capacity == 0 || self.batch_size >= self.batch_capacity - 1 {
            r.push(Request::Run);
            self.batch_size = 0;
            self.phase = CropperPhase::AwaitingBatch;
        } else {
            self.batch_size = self.batch_size + 1;
        }
        r
    }

    /// Asks the worker to drain and finalize: the returned `End` request is
    /// sent, then the final `Batch` response must be consumed.
    pub fn end(&mut self) -> (r: Request)
        requires
            old(self).phase == CropperPhase::Idle,
        ensures
            *final(self) == (Cropper { phase: CropperPhase::AwaitingFinal, ..*old(self) }),
            r == Request::End,
    {
        self.phase = CropperPhase::AwaitingFinal;
        Request::End
    }

    /// Applies the `Batch` response matching the outstanding `Run` or
    /// `End`: the whole batch is applied to the store in one transaction,
    /// and the artifact moves are returned. After the final batch the
    /// session is over.
    pub fn on_batch(&mut self, store: &mut Store, batch: Batch, cropped_root: &str) -> (r: Result<
        Vec<RenameOp>,
        Error,
    >)
        requires
            old(self).inv(),
            old(self).phase == CropperPhase::AwaitingBatch || old(self).phase
                == CropperPhase::AwaitingFinal,
            old(store).wf(),
        ensures
            final(self).inv(),
            final(store).wf(),
            final(store).species == old(store).species,
            final(store).ignored == old(store).ignored,
            final(store).occurrences == old(store).occurrences,
            match r {
                Ok(renames) => {
                    &&& items_valid(old(store).medias@, batch.files@)
                    &&& final(store).medias@ == apply_items(old(store).medias@, batch.files@)
                    &&& renames@.map_values(|op: RenameOp| (op.from@, op.to@)) == renames_of(
                        old(store).medias@,
                        batch.files@,
                        cropped_root@,
                    )
                    &&& *final(self) == (Cropper {
                        phase: if old(self).phase == CropperPhase::AwaitingBatch {
                            CropperPhase::Idle
                        } else {
                            CropperPhase::Terminated
                        },
                        ..*old(self)
                    })
                },
                Err(e) => {
                    &&& *final(store) == *old(store)
                    &&& *final(self) == *old(self)
                    &&& e is DbError
                    &&& !items_valid(old(store).medias@, batch.files@)
                },
            },
    {
        match store.apply_batch(batch, cropped_root) {
            Ok(renames) => {
                match self.phase {
                    CropperPhase::AwaitingBatch => {
                        self.phase = CropperPhase::Idle;
                    },
                    _ => {
                        self.phase = CropperPhase::Terminated;
                    },
                }
                Ok(renames)
            },
            Err(e) => Err(e),
        }
    }
}

/// The scratch directory of one batch, removed after the batch's results
/// are committed.
pub fn batch_scratch_dir(storage: &Storage, batch_id: i32) -> (r: String)
    ensures
        r@ == storage.data_path@ + "/tmp/"@ + dec_int(batch_id as int),
{
    let mut s = storage.data_path.clone();
    s.append("/tmp/");
    let id_chars = i64_to_dec_chars(batch_id as i64);
    let id_str = chars_to_string(&id_chars);
    s.append(id_str.as_str());
    proof {
        assert(s@ =~= storage.data_path@ + "/tmp/"@ + dec_int(batch_id as int));
    }
    s
}


impl Cropper {
    /// Handles one message of the consumer loop's channel: a media
    /// identifier is looked up and, when the media exists and was
    /// downloaded, added to the batch; a message without an identifier is
    /// the stop sentinel, answered by `End`.
    ///
    /// A media that cannot be found, or was never downloaded, produces no
    /// request at all.
    pub fn handle_message(&mut self, store: &Store, data_path: &str, msg: Option<i32>) -> (r: Vec<
        Request,
    >)
        requires
            old(self).inv(),
            old(self).phase == CropperPhase::Idle,
            store.wf(),
        ensures
            final(self).inv(),
            final(self).batch_capacity == old(self).batch_capacity,
            match msg {
                None => *final(self) == (Cropper {
                    phase: CropperPhase::AwaitingFinal,
                    ..*old(self)
                }) && r@ =~= seq![Request::End],
                Some(id) => {
                    if 1 <= id <= store.medias@.len() && store.medias@[id - 1].path is Some {
                        &&& (r@[0] matches Request::AddFile(a) && a.id == id && a.path@
                            == data_path@ + "/medias/"@ + store.medias@[id - 1].path->0@)
                        &&& if old(self).batch_size + 1 >= old(self).batch_capacity {
                            &&& final(self).batch_size == 0
                            &&& final(self).phase == CropperPhase::AwaitingBatch
                            &&& r@.len() == 2
                            &&& r@[1] == Request::Run
                        } else {
                            &&& final(self).batch_size == old(self).batch_size + 1
                            &&& final(self).phase == CropperPhase::Idle
                            &&& r@.len() == 1
                        }
                    } else {
                        *final(self) == *old(self) && r@ =~= Seq::<Request>::empty()
                    }
                },
            },
    {
        match msg {
            None => {
                let req = self.end();
                let mut r: Vec<Request> = Vec::new();
                r.push(req);
                r
            },
            Some(id) => {
                match store.get_media_by_id(id) {
                    Some(idx) => {
                        match &store.medias[idx].path {
                            Some(p) => {
                                let mut full = data_path.to_owned();
                                full.append("/medias/");
                                full.append(p.as_str());
                                self.add_file(id, full)
                            },
                            None => Vec::new(),
                        }
                    },
                    None => Vec::new(),
                }
            },
        }
    }
}


} // verus!
