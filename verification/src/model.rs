//! The ingestion pipeline and the interaction state around it, as an explicit
//! event reducer.
//!
//! [`Model::update`] applies one [`Msg`] (an event from the platform: a file
//! was selected, its bytes arrived, the image decoder resolved, a timer fired)
//! and returns the [`Action`]s the runtime must perform (read a file, hand a
//! data-URI to the image decoder, write the clipboard, start a timer), whose
//! outcomes come back as further events. Each upload attempt carries a fresh
//! identifier, so a completion that no longer matches the current selection is
//! discarded instead of overwriting newer state; a failed read or decode lands
//! in a terminal error state, never an indefinite pending one.

use vstd::prelude::*;
use vstd::string::{StringExecFns, StrSliceExecFns};
use crate::detect::{get_file_format, spec_format_label};
use crate::digits::{spec_dec, u64_to_dec};
use crate::encode::{base64_of, data_uri, encode_base64};
use crate::ratio::{calculate_aspect_ratio, spec_reduced};
use crate::size::{format_size, spec_format_size};

verus! {

/// What the platform reports of a selected file.
#[derive(Debug, Clone, PartialEq, Eq)]
pub struct FileMeta {
    pub name: String,
    pub size: u64,
    pub mime_type: String,
}

/// How far the dimension probe of an upload has come. `Failed` is terminal:
/// bytes that do not decode as an image never stay `Pending`.
#[derive(Debug, Clone, Copy, PartialEq, Eq)]
pub enum DimStatus {
    Pending,
    Resolved(u32, u32),
    Failed,
}

/// One upload attempt. The base64 payload is absent until the byte read
/// completes, and once computed is only ever replaced by a new upload's.
#[derive(Debug, Clone, PartialEq, Eq)]
pub struct Upload {
    pub id: u64,
    pub name: String,
    pub byte_len: u64,
    pub mime_type: String,
    pub payload: Option<String>,
    pub dims: DimStatus,
}

/// The current selection: at most one upload is held at a time, and a failed
/// read leaves no stale metadata behind.
#[derive(Debug, Clone, PartialEq, Eq)]
pub enum Selection {
    Empty,
    ReadError,
    Active(Upload),
}

/// The copy button's label: its default, or a transient confirmation carrying
/// the copied payload's formatted size.
#[derive(Debug, Clone, PartialEq, Eq)]
pub enum CopyLabel {
    Idle,
    Copied(String),
}

/// A clipboard write that was requested and has not resolved yet.
#[derive(Debug, Clone, PartialEq, Eq)]
pub struct PendingCopy {
    pub request: u64,
    pub size: String,
}

/// The derived metadata record: a pure projection of an [`Upload`].
#[derive(Debug, Clone, PartialEq, Eq)]
pub struct ImageInfo {
    pub format: String,
    pub size: String,
    pub dimensions: String,
    pub mime_type: String,
    pub aspect_ratio: String,
}

/// An event handed to [`Model::update`].
#[derive(Debug, Clone, PartialEq, Eq)]
pub enum Msg {
    /// A file was selected; its platform-reported name, byte count and MIME type.
    FileSelected(FileMeta),
    /// Several files were selected at once; each starts its own pipeline.
    Files(Vec<FileMeta>),
    /// The asynchronous byte read of the identified upload completed with these bytes.
    Loaded(u64, Vec<u8>),
    /// The asynchronous byte read of the identified upload failed.
    ReadFailed(u64),
    /// The platform image decoder resolved the identified upload to its natural width and height.
    DecodeResolved(u64, u32, u32),
    /// The platform image decoder could not decode the identified upload.
    DecodeFailed(u64),
    /// The full-size preview modal was toggled.
    ToggleModal,
    /// The user asked to copy the base64 payload.
    CopyBase64,
    /// The clipboard write of the identified copy request resolved, successfully or not.
    ClipboardDone(u64, bool),
    /// The reversion timer of the identified copy request fired.
    ResetCopyButton(u64),
}

/// I/O the runtime performs on the reducer's behalf.
#[derive(Debug, Clone, PartialEq, Eq)]
pub enum Action {
    /// Read the raw bytes of the identified upload, then send `Loaded` or `ReadFailed`.
    ReadFile(u64),
    /// Hand the data-URI to the image decoder for the identified upload, then send
    /// `DecodeResolved` or `DecodeFailed`.
    ProbeImage(u64, String),
    /// Write the text to the clipboard for the identified copy request, then send
    /// `ClipboardDone`.
    WriteClipboard(u64, String),
    /// Start the two-second reversion timer for the identified copy request, then send
    /// `ResetCopyButton`.
    StartRevertTimer(u64),
}

/// The whole application state.
#[derive(Debug, Clone, PartialEq, Eq)]
pub struct Model {
    /// The identifier the next upload attempt will get: unique per attempt,
    /// never reused, so stale completions are told apart from current ones.
    pub next_upload: u64,
    pub selection: Selection,
    pub modal_open: bool,
    /// The identifier the latest copy request got.
    pub copy_requests: u64,
    pub pending_copy: Option<PendingCopy>,
    pub copy_label: CopyLabel,
}

/// The dimensions line of the metadata record.
pub open spec fn spec_dim_text(d: DimStatus) -> Seq<char> {
    match d {
        DimStatus::Pending => "loading"@,
        DimStatus::Resolved(w, h) => spec_dec(w as nat) + "×"@ + spec_dec(h as nat) + " px"@,
        DimStatus::Failed => "unable to determine dimensions"@,
    }
}

/// The aspect-ratio line of the metadata record.
pub open spec fn spec_ratio_text(d: DimStatus) -> Seq<char> {
    match d {
        DimStatus::Pending => "loading"@,
        DimStatus::Resolved(w, h) => spec_dec(spec_reduced(w as nat, h as nat).0) + ":"@
            + spec_dec(spec_reduced(w as nat, h as nat).1),
        DimStatus::Failed => "unable to determine dimensions"@,
    }
}

/// `info` is the metadata record derived from `u`.
pub open spec fn spec_info_ok(u: Upload, info: ImageInfo) -> bool {
    &&& info.format@ == spec_format_label(u.name@)
    &&& info.size@ == spec_format_size(u.byte_len as nat)
    &&& info.dimensions@ == spec_dim_text(u.dims)
    &&& info.mime_type@ == u.mime_type@
    &&& info.aspect_ratio@ == spec_ratio_text(u.dims)
}

/// `post`'s copy state (request counter, pending write, label) is `pre`'s.
pub open spec fn same_copy_state(pre: Model, post: Model) -> bool {
    &&& post.copy_requests == pre.copy_requests
    &&& post.pending_copy == pre.pending_copy
    &&& post.copy_label == pre.copy_label
}

/// `post`'s selection state (upload counter and current selection) is `pre`'s.
pub open spec fn same_selection_state(pre: Model, post: Model) -> bool {
    &&& post.next_upload == pre.next_upload
    &&& post.selection == pre.selection
}

/// `v` is `u` with its payload set to `payload`.
pub open spec fn upload_with_payload(u: Upload, v: Upload, payload: Seq<char>) -> bool {
    &&& v.id == u.id
    &&& v.name == u.name
    &&& v.byte_len == u.byte_len
    &&& v.mime_type == u.mime_type
    &&& v.dims == u.dims
    &&& match v.payload {
        Some(p) => p@ == payload,
        None => false,
    }
}

/// `v` is `u` with its dimension status set to `d`.
pub open spec fn upload_with_dims(u: Upload, v: Upload, d: DimStatus) -> bool {
    &&& v.id == u.id
    &&& v.name == u.name
    &&& v.byte_len == u.byte_len
    &&& v.mime_type == u.mime_type
    &&& v.payload == u.payload
    &&& v.dims == d
}

/// Selecting one file: a fresh upload becomes current with empty payload and
/// pending dimensions, and its byte read is requested.
pub open spec fn spec_select(pre: Model, post: Model, meta: FileMeta, acts: Seq<Action>) -> bool {
    &&& post.next_upload == pre.next_upload + 1
    &&& post.selection == Selection::Active(
        Upload {
            id: pre.next_upload,
            name: meta.name,
            byte_len: meta.size,
            mime_type: meta.mime_type,
            payload: None,
            dims: DimStatus::Pending,
        },
    )
    &&& post.modal_open == pre.modal_open
    &&& same_copy_state(pre, post)
    &&& acts =~= seq![Action::ReadFile(pre.next_upload)]
}

/// Selecting a batch: one independent pipeline per file, in order; the last
/// file's upload ends up current (last writer wins).
pub open spec fn spec_files(pre: Model, post: Model, files: Seq<FileMeta>, acts: Seq<
    Action,
>) -> bool {
    &&& post.next_upload == pre.next_upload + files.len()
    &&& if files.len() == 0 {
        post.selection == pre.selection
    } else {
        post.selection == Selection::Active(
            Upload {
                id: (pre.next_upload + files.len() - 1) as u64,
                name: files.last().name,
                byte_len: files.last().size,
                mime_type: files.last().mime_type,
                payload: None,
                dims: DimStatus::Pending,
            },
        )
    }
    &&& post.modal_open == pre.modal_open
    &&& same_copy_state(pre, post)
    &&& acts.len() == files.len()
    &&& forall|k: int|
        0 <= k < files.len() ==> acts[k] == Action::ReadFile((pre.next_upload + k) as u64)
}

/// The byte read of the current upload completed: the payload becomes its
/// base64 rendering, and the dimension probe is requested with the data-URI.
/// A completion for a stale upload changes nothing, nor does a duplicate
/// completion for an upload already loaded: the payload is written once.
pub open spec fn spec_loaded(pre: Model, post: Model, id: u64, bytes: Seq<u8>, acts: Seq<
    Action,
>) -> bool {
    match pre.selection {
        Selection::Active(u) => if u.id == id && u.payload is None {
            &&& post.next_upload == pre.next_upload
            &&& match post.selection {
                Selection::Active(v) => upload_with_payload(u, v, base64_of(bytes)),
                _ => false,
            }
            &&& post.modal_open == pre.modal_open
            &&& same_copy_state(pre, post)
            &&& acts.len() == 1
            &&& match acts[0] {
                Action::ProbeImage(pid, uri) => pid == id && uri@ == "data:image/png;base64,"@
                    + base64_of(bytes),
                _ => false,
            }
        } else {
            post == pre && acts.len() == 0
        },
        _ => post == pre && acts.len() == 0,
    }
}

/// The byte read of the current upload failed: the selection becomes the
/// terminal read-error state, leaving no stale metadata. A stale failure
/// changes nothing.
pub open spec fn spec_read_failed(pre: Model, post: Model, id: u64, acts: Seq<Action>) -> bool {
    match pre.selection {
        Selection::Active(u) => if u.id == id {
            &&& post.next_upload == pre.next_upload
            &&& post.selection == Selection::ReadError
            &&& post.modal_open == pre.modal_open
            &&& same_copy_state(pre, post)
            &&& acts.len() == 0
        } else {
            post == pre && acts.len() == 0
        },
        _ => post == pre && acts.len() == 0,
    }
}

/// The dimension probe of the current upload settled to status `d` (resolved
/// or terminally failed). A stale completion changes nothing, and a settled
/// status is never overwritten: `Failed` and `Resolved` are terminal.
pub open spec fn spec_set_dims(pre: Model, post: Model, id: u64, d: DimStatus, acts: Seq<
    Action,
>) -> bool {
    match pre.selection {
        Selection::Active(u) => if u.id == id && u.dims is Pending {
            &&& post.next_upload == pre.next_upload
            &&& match post.selection {
                Selection::Active(v) => upload_with_dims(u, v, d),
                _ => false,
            }
            &&& post.modal_open == pre.modal_open
            &&& same_copy_state(pre, post)
            &&& acts.len() == 0
        } else {
            post == pre && acts.len() == 0
        },
        _ => post == pre && acts.len() == 0,
    }
}

/// The modal flag flips; nothing else moves.
pub open spec fn spec_toggle(pre: Model, post: Model, acts: Seq<Action>) -> bool {
    &&& same_selection_state(pre, post)
    &&& post.modal_open == !pre.modal_open
    &&& same_copy_state(pre, post)
    &&& acts.len() == 0
}

/// A copy request: with a payload at hand, a fresh request id is drawn, the
/// clipboard write is requested, and the payload's formatted size is kept for
/// the later confirmation; the label does not change until the write resolves,
/// so no false confirmation is ever shown. Without a payload nothing happens.
pub open spec fn spec_copy(pre: Model, post: Model, acts: Seq<Action>) -> bool {
    match pre.selection {
        Selection::Active(u) => match u.payload {
            Some(p) => {
                &&& same_selection_state(pre, post)
                &&& post.modal_open == pre.modal_open
                &&& post.copy_requests == pre.copy_requests + 1
                &&& match post.pending_copy {
                    Some(pc) => pc.request == pre.copy_requests + 1 && pc.size@
                        == spec_format_size(p@.len()),
                    None => false,
                }
                &&& post.copy_label == pre.copy_label
                &&& acts.len() == 1
                &&& match acts[0] {
                    Action::WriteClipboard(req, text) => req == pre.copy_requests + 1 && text@
                        == p@,
                    _ => false,
                }
            },
            None => post == pre && acts.len() == 0,
        },
        _ => post == pre && acts.len() == 0,
    }
}

/// The clipboard write resolved. On success of the latest request the
/// confirmation label is shown and its reversion timer started; on failure the
/// label is (re)set to its default. A stale resolution changes nothing.
pub open spec fn spec_clipboard_done(
    pre: Model,
    post: Model,
    request: u64,
    ok: bool,
    acts: Seq<Action>,
) -> bool {
    match pre.pending_copy {
        Some(pc) => if pc.request == request {
            &&& same_selection_state(pre, post)
            &&& post.modal_open == pre.modal_open
            &&& post.copy_requests == pre.copy_requests
            &&& post.pending_copy is None
            &&& if ok {
                post.copy_label == CopyLabel::Copied(pc.size) && acts =~= seq![
                    Action::StartRevertTimer(request),
                ]
            } else {
                post.copy_label == CopyLabel::Idle && acts.len() == 0
            }
        } else {
            post == pre && acts.len() == 0
        },
        None => post == pre && acts.len() == 0,
    }
}

/// A reversion timer fired. Only the timer of the latest copy request reverts
/// the label (last timer wins); an older one changes nothing.
pub open spec fn spec_reset(pre: Model, post: Model, request: u64, acts: Seq<Action>) -> bool {
    if request == pre.copy_requests {
        &&& same_selection_state(pre, post)
        &&& post.modal_open == pre.modal_open
        &&& post.copy_requests == pre.copy_requests
        &&& post.pending_copy == pre.pending_copy
        &&& post.copy_label == CopyLabel::Idle
        &&& acts.len() == 0
    } else {
        post == pre && acts.len() == 0
    }
}

/// Law (last timer wins): when copy requests overlap, the two reversion
/// timers fire in some order, and exactly one of the two events changes the
/// state: the stale request's timer is a no-op, the latest request's timer
/// reverts the label to its default. So the label eventually reverts exactly
/// once, whichever timer fires first.
pub proof fn lemma_last_timer_wins(
    s: Model,
    mid: Model,
    t: Model,
    first: u64,
    second: u64,
    a1: Seq<Action>,
    a2: Seq<Action>,
)
    requires
        first != second,
        first == s.copy_requests || second == s.copy_requests,
        spec_reset(s, mid, first, a1),
        spec_reset(mid, t, second, a2),
    ensures
        t.copy_label is Idle,
        mid == s || t == mid,
        same_selection_state(s, t),
        t.copy_requests == s.copy_requests,
        t.pending_copy == s.pending_copy,
{
}

/// What `update` guarantees, by message.
pub open spec fn update_post(pre: Model, post: Model, msg: Msg, acts: Seq<Action>) -> bool {
    match msg {
        Msg::FileSelected(meta) => spec_select(pre, post, meta, acts),
        Msg::Files(files) => spec_files(pre, post, files@, acts),
        Msg::Loaded(id, bytes) => spec_loaded(pre, post, id, bytes@, acts),
        Msg::ReadFailed(id) => spec_read_failed(pre, post, id, acts),
        Msg::DecodeResolved(id, w, h) => spec_set_dims(
            pre,
            post,
            id,
            DimStatus::Resolved(w, h),
            acts,
        ),
        Msg::DecodeFailed(id) => spec_set_dims(pre, post, id, DimStatus::Failed, acts),
        Msg::ToggleModal => spec_toggle(pre, post, acts),
        Msg::CopyBase64 => spec_copy(pre, post, acts),
        Msg::ClipboardDone(request, ok) => spec_clipboard_done(pre, post, request, ok, acts),
        Msg::ResetCopyButton(request) => spec_reset(pre, post, request, acts),
    }
}

/// What `update` asks of its caller: only what machine limits force (counters
/// and the encoded length must fit their integer types).
pub open spec fn update_allowed(pre: Model, msg: Msg) -> bool {
    match msg {
        Msg::FileSelected(_) => pre.next_upload < u64::MAX,
        Msg::Files(files) => pre.next_upload + files@.len() <= u64::MAX,
        Msg::Loaded(_, bytes) => bytes@.len() / 3 * 4 + 4 <= usize::MAX,
        Msg::CopyBase64 => pre.copy_requests < u64::MAX,
        _ => true,
    }
}

fn dimension_text(w: u32, h: u32) -> (r: String)
    ensures
        r@ == spec_dec(w as nat) + "×"@ + spec_dec(h as nat) + " px"@,
{
    u64_to_dec(w as u64).concat("×").concat(u64_to_dec(h as u64).as_str()).concat(" px")
}

fn ratio_text(w: u32, h: u32) -> (r: String)
    ensures
        r@ == spec_dec(spec_reduced(w as nat, h as nat).0) + ":"@ + spec_dec(
            spec_reduced(w as nat, h as nat).1,
        ),
{
    let reduced = calculate_aspect_ratio(w, h);
    u64_to_dec(reduced.0 as u64).concat(":").concat(u64_to_dec(reduced.1 as u64).as_str())
}

impl Upload {
    /// The metadata record derived from this upload: a pure projection,
    /// recomputed whenever the upload's fields change.
    pub fn metadata(&self) -> (info: ImageInfo)
        ensures
            spec_info_ok(*self, info),
    {
        let (dimensions, aspect_ratio) = match self.dims {
            DimStatus::Pending => (String::from_str("loading"), String::from_str("loading")),
            DimStatus::Resolved(w, h) => (dimension_text(w, h), ratio_text(w, h)),
            DimStatus::Failed => (
                String::from_str("unable to determine dimensions"),
                String::from_str("unable to determine dimensions"),
            ),
        };
        ImageInfo {
            format: get_file_format(self.name.as_str()),
            size: format_size(self.byte_len),
            dimensions,
            mime_type: self.mime_type.clone(),
            aspect_ratio,
        }
    }
}

impl Model {
    /// Well-formedness: the current upload's id was drawn from the counter,
    /// and a pending clipboard write belongs to the latest copy request.
    pub open spec fn wf(self) -> bool {
        &&& match self.selection {
            Selection::Active(u) => u.id < self.next_upload,
            _ => true,
        }
        &&& match self.pending_copy {
            Some(pc) => pc.request == self.copy_requests,
            None => true,
        }
    }

    /// The initial state: nothing selected, modal closed, label at its default.
    pub fn create() -> (m: Model)
        ensures
            m.wf(),
            m.next_upload == 0,
            m.selection is Empty,
            m.modal_open == false,
            m.copy_requests == 0,
            m.pending_copy is None,
            m.copy_label is Idle,
    {
        Model {
            next_upload: 0,
            selection: Selection::Empty,
            modal_open: false,
            copy_requests: 0,
            pending_copy: None,
            copy_label: CopyLabel::Idle,
        }
    }

    fn select_file(&mut self, meta: FileMeta) -> (a: Action)
        requires
            old(self).next_upload < u64::MAX,
        ensures
            spec_select(*old(self), *final(self), meta, seq![a]),
    {
        let id = self.next_upload;
        self.next_upload = id + 1;
        self.selection = Selection::Active(
            Upload {
                id,
                name: meta.name,
                byte_len: meta.size,
                mime_type: meta.mime_type,
                payload: None,
                dims: DimStatus::Pending,
            },
        );
        Action::ReadFile(id)
    }

    fn select_files(&mut self, files: Vec<FileMeta>) -> (acts: Vec<Action>)
        requires
            old(self).next_upload + files@.len() <= u64::MAX,
        ensures
            spec_files(*old(self), *final(self), files@, acts@),
    {
        let ghost pre = *old(self);
        let ghost orig = files@;
        let mut rest = files;
        let mut acts: Vec<Action> = Vec::new();
        while rest.len() > 0
            invariant
                acts@.len() + rest@.len() == orig.len(),
                rest@ == orig.subrange(acts@.len() as int, orig.len() as int),
                pre.next_upload + orig.len() <= u64::MAX,
                self.next_upload == pre.next_upload + acts@.len(),
                forall|k: int|
                    0 <= k < acts@.len() ==> acts@[k] == Action::ReadFile(
                        (pre.next_upload + k) as u64,
                    ),
                if acts@.len() == 0 {
                    self.selection == pre.selection
                } else {
                    self.selection == Selection::Active(
                        Upload {
                            id: (pre.next_upload + acts@.len() - 1) as u64,
                            name: orig[acts@.len() - 1].name,
                            byte_len: orig[acts@.len() - 1].size,
                            mime_type: orig[acts@.len() - 1].mime_type,
                            payload: None,
                            dims: DimStatus::Pending,
                        },
                    )
                },
                self.modal_open == pre.modal_open,
                same_copy_state(pre, *self),
            decreases rest@.len(),
        {
            let meta = rest.remove(0);
            let ghost before = *self;
            let a = self.select_file(meta);
            acts.push(a);
            proof {
                assert(seq![a][0] == a);
                assert(a == Action::ReadFile(before.next_upload));
                assert(rest@ =~= orig.subrange(acts@.len() as int, orig.len() as int));
            }
        }
        acts
    }

    fn loaded(&mut self, id: u64, bytes: Vec<u8>) -> (acts: Vec<Action>)
        requires
            bytes@.len() / 3 * 4 + 4 <= usize::MAX,
        ensures
            spec_loaded(*old(self), *final(self), id, bytes@, acts@),
    {
        let applies = match &self.selection {
            Selection::Active(u) => u.id == id && u.payload.is_none(),
            _ => false,
        };
        if !applies {
            return Vec::new();
        }
        let mut sel = Selection::Empty;
        core::mem::swap(&mut sel, &mut self.selection);
        match sel {
            Selection::Active(u) => {
                let payload = encode_base64(&bytes);
                let uri = data_uri(payload.as_str());
                self.selection = Selection::Active(
                    Upload {
                        id: u.id,
                        name: u.name,
                        byte_len: u.byte_len,
                        mime_type: u.mime_type,
                        payload: Some(payload),
                        dims: u.dims,
                    },
                );
                let mut acts: Vec<Action> = Vec::new();
                acts.push(Action::ProbeImage(id, uri));
                acts
            },
            other => {
                self.selection = other;
                Vec::new()
            },
        }
    }

    fn read_failed(&mut self, id: u64) -> (acts: Vec<Action>)
        ensures
            spec_read_failed(*old(self), *final(self), id, acts@),
    {
        let is_current = match &self.selection {
            Selection::Active(u) => u.id == id,
            _ => false,
        };
        if is_current {
            self.selection = Selection::ReadError;
        }
        Vec::new()
    }

    fn set_dims(&mut self, id: u64, d: DimStatus) -> (acts: Vec<Action>)
        ensures
            spec_set_dims(*old(self), *final(self), id, d, acts@),
    {
        let applies = match &self.selection {
            Selection::Active(u) => u.id == id && matches!(u.dims, DimStatus::Pending),
            _ => false,
        };
        if !applies {
            return Vec::new();
        }
        let mut sel = Selection::Empty;
        core::mem::swap(&mut sel, &mut self.selection);
        match sel {
            Selection::Active(u) => {
                self.selection = Selection::Active(
                    Upload {
                        id: u.id,
                        name: u.name,
                        byte_len: u.byte_len,
                        mime_type: u.mime_type,
                        payload: u.payload,
                        dims: d,
                    },
                );
            },
            other => {
                self.selection = other;
            },
        }
        Vec::new()
    }

    fn copy_base64(&mut self) -> (acts: Vec<Action>)
        requires
            old(self).copy_requests < u64::MAX,
        ensures
            spec_copy(*old(self), *final(self), acts@),
    {
        let request_data: Option<(String, usize)> = match &self.selection {
            Selection::Active(u) => match &u.payload {
                Some(p) => Some((p.clone(), p.as_str().unicode_len())),
                None => None,
            },
            _ => None,
        };
        match request_data {
            Some((text, chars)) => {
                let request = self.copy_requests + 1;
                self.copy_requests = request;
                let size = format_size(chars as u64);
                self.pending_copy = Some(PendingCopy { request, size });
                let mut acts: Vec<Action> = Vec::new();
                acts.push(Action::WriteClipboard(request, text));
                acts
            },
            None => Vec::new(),
        }
    }

    fn clipboard_done(&mut self, request: u64, ok: bool) -> (acts: Vec<Action>)
        ensures
            spec_clipboard_done(*old(self), *final(self), request, ok, acts@),
    {
        let matched = match &self.pending_copy {
            Some(pc) => pc.request == request,
            None => false,
        };
        if !matched {
            return Vec::new();
        }
        let mut pending: Option<PendingCopy> = None;
        core::mem::swap(&mut pending, &mut self.pending_copy);
        match pending {
            Some(pc) => {
                if ok {
                    self.copy_label = CopyLabel::Copied(pc.size);
                    let mut acts: Vec<Action> = Vec::new();
                    acts.push(Action::StartRevertTimer(request));
                    proof {
                        assert(acts@ =~= seq![Action::StartRevertTimer(request)]);
                    }
                    acts
                } else {
                    self.copy_label = CopyLabel::Idle;
                    Vec::new()
                }
            },
            None => Vec::new(),
        }
    }

    fn reset_copy_button(&mut self, request: u64) -> (acts: Vec<Action>)
        ensures
            spec_reset(*old(self), *final(self), request, acts@),
    {
        if request == self.copy_requests {
            self.copy_label = CopyLabel::Idle;
        }
        Vec::new()
    }

    /// Apply one event; the returned actions are the I/O the runtime must
    /// perform, whose outcomes come back as further events.
    pub fn update(&mut self, msg: Msg) -> (actions: Vec<Action>)
        requires
            old(self).wf(),
            update_allowed(*old(self), msg),
        ensures
            final(self).wf(),
            update_post(*old(self), *final(self), msg, actions@),
    {
        match msg {
            Msg::FileSelected(meta) => {
                let a = self.select_file(meta);
                let mut acts: Vec<Action> = Vec::new();
                acts.push(a);
                proof {
                    assert(acts@ =~= seq![a]);
                }
                acts
            },
            Msg::Files(files) => self.select_files(files),
            Msg::Loaded(id, bytes) => self.loaded(id, bytes),
            Msg::ReadFailed(id) => self.read_failed(id),
            Msg::DecodeResolved(id, w, h) => self.set_dims(id, DimStatus::Resolved(w, h)),
            Msg::DecodeFailed(id) => self.set_dims(id, DimStatus::Failed),
            Msg::ToggleModal => {
                self.modal_open = !self.modal_open;
                Vec::new()
            },
            Msg::CopyBase64 => self.copy_base64(),
            Msg::ClipboardDone(request, ok) => self.clipboard_done(request, ok),
            Msg::ResetCopyButton(request) => self.reset_copy_button(request),
        }
    }

    /// The metadata projection for the current upload, when one is active.
    pub fn image_info(&self) -> (r: Option<ImageInfo>)
        ensures
            match self.selection {
                Selection::Active(u) => match r {
                    Some(info) => spec_info_ok(u, info),
                    None => false,
                },
                _ => r is None,
            },
    {
        match &self.selection {
            Selection::Active(u) => Some(u.metadata()),
            _ => None,
        }
    }

    /// The base64 payload of the current upload, once its byte read completed.
    pub fn base64_data(&self) -> (r: Option<&String>)
        ensures
            match self.selection {
                Selection::Active(u) => match u.payload {
                    Some(p) => match r {
                        Some(q) => q == p,
                        None => false,
                    },
                    None => r is None,
                },
                _ => r is None,
            },
    {
        match &self.selection {
            Selection::Active(u) => match &u.payload {
                Some(p) => Some(p),
                None => None,
            },
            _ => None,
        }
    }
}

} // verus!
