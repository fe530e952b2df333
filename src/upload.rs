//! The upload coordinator: a multipart stream is read field by field.
//! A text field adds a folder to the destination path; a file field is put
//! into the object store under the path built so far, and the outcome of that
//! put becomes one message of the reply. A failed put never stops the batch.
use vstd::prelude::*;
use vstd::string::StringExecFns;
use crate::paths::{joined, views, ObjectTarget};

verus! {

/// The status of every upload reply, whatever became of the single files.
pub const STATUS_CREATED: u16 = 201;

/// What the object store answered to one put.
#[derive(Debug, Clone, PartialEq, Eq)]
pub enum PutOutcome {
    /// Stored; the store's integrity tag, if it gave one.
    Stored { e_tag: Option<String> },
    /// Not stored; the error's text.
    Failed { error: String },
}

/// One field of the stream together with what became of it.
pub enum UploadEvent {
    /// A text field: one more folder.
    Folder(Seq<char>),
    /// A file field with its file name, and the outcome of its put.
    File(Seq<char>, PutOutcome),
}

/// The state of an upload: the destination path so far and the messages so far.
pub struct UploadState {
    pub prefix: Seq<char>,
    pub messages: Seq<Seq<char>>,
}

pub open spec fn stored_message(tag: Seq<char>) -> Seq<char> {
    tag + " file was successfully uploaded!"@
}

pub open spec fn failed_message(file_name: Seq<char>, error: Seq<char>) -> Seq<char> {
    file_name + " error uploading file | Error: "@ + error
}

/// The message that reports one put.
pub open spec fn outcome_message(file_name: Seq<char>, outcome: PutOutcome) -> Seq<char> {
    match outcome {
        PutOutcome::Stored { e_tag } => stored_message(
            match e_tag {
                Some(t) => t@,
                None => Seq::<char>::empty(),
            },
        ),
        PutOutcome::Failed { error } => failed_message(file_name, error@),
    }
}

/// The state before the first field.
pub open spec fn start_state(root: Seq<char>) -> UploadState {
    UploadState { prefix: root, messages: Seq::empty() }
}

/// The state after one more field.
pub open spec fn step(s: UploadState, e: UploadEvent) -> UploadState {
    match e {
        UploadEvent::Folder(text) => UploadState { prefix: joined(s.prefix, text), messages: s.messages },
        UploadEvent::File(name, outcome) => UploadState {
            prefix: s.prefix,
            messages: s.messages.push(outcome_message(name, outcome)),
        },
    }
}

/// The state after a sequence of fields.
pub open spec fn replay(s: UploadState, events: Seq<UploadEvent>) -> UploadState
    decreases events.len(),
{
    if events.len() == 0 {
        s
    } else {
        step(replay(s, events.drop_last()), events.last())
    }
}

/// The file fields of a sequence of fields, in their order, with their outcomes.
pub open spec fn file_events(events: Seq<UploadEvent>) -> Seq<(Seq<char>, PutOutcome)>
    decreases events.len(),
{
    if events.len() == 0 {
        Seq::empty()
    } else {
        match events.last() {
            UploadEvent::File(name, outcome) => file_events(events.drop_last()).push((name, outcome)),
            UploadEvent::Folder(_) => file_events(events.drop_last()),
        }
    }
}

/// A sequence of text fields, one per folder.
pub open spec fn folder_events(segments: Seq<Seq<char>>) -> Seq<UploadEvent> {
    segments.map_values(|s: Seq<char>| UploadEvent::Folder(s))
}

/// The folders joined by `/`.
pub open spec fn join_all(segments: Seq<Seq<char>>) -> Seq<char>
    decreases segments.len(),
{
    if segments.len() == 0 {
        Seq::empty()
    } else if segments.len() == 1 {
        segments[0]
    } else {
        joined(join_all(segments.drop_last()), segments.last())
    }
}

/// Each file field is reported by exactly one message, in the order of the file
/// fields, whatever became of its put; text fields add no message.
pub proof fn one_message_per_file(root: Seq<char>, events: Seq<UploadEvent>)
    ensures
        replay(start_state(root), events).messages == file_events(events).map_values(
            |f: (Seq<char>, PutOutcome)| outcome_message(f.0, f.1),
        ),
    decreases events.len(),
{
    if events.len() > 0 {
        one_message_per_file(root, events.drop_last());
        assert(replay(start_state(root), events).messages =~= file_events(events).map_values(
            |f: (Seq<char>, PutOutcome)| outcome_message(f.0, f.1),
        ));
    }
}

/// After the text fields `segments`, the destination path is the root and the
/// folders, joined by `/`.
pub proof fn prefix_after_folders(root: Seq<char>, segments: Seq<Seq<char>>)
    requires
        segments.len() >= 1,
    ensures
        replay(start_state(root), folder_events(segments)).prefix == joined(root, join_all(segments)),
    decreases segments.len(),
{
    let events = folder_events(segments);
    assert(events.last() == UploadEvent::Folder(segments.last()));
    if segments.len() > 1 {
        assert(events.drop_last() =~= folder_events(segments.drop_last()));
        prefix_after_folders(root, segments.drop_last());
        assert(joined(joined(root, join_all(segments.drop_last())), segments.last()) =~= joined(
            root,
            joined(join_all(segments.drop_last()), segments.last()),
        ));
    } else {
        assert(events.drop_last() =~= Seq::<UploadEvent>::empty());
        assert(replay(start_state(root), events.drop_last()) == start_state(root));
    }
}

/// A file put after the text fields `segments` lands where a deletion of the
/// same file name in the folder `join_all(segments)` points: the full path of
/// the upload is the root, the folders and the file name joined by `/`.
pub proof fn upload_and_delete_paths_agree(
    root: Seq<char>,
    segments: Seq<Seq<char>>,
    file_name: Seq<char>,
)
    requires
        segments.len() >= 1,
    ensures
        joined(replay(start_state(root), folder_events(segments)).prefix, file_name) == joined(
            joined(root, join_all(segments)),
            file_name,
        ),
{
    prefix_after_folders(root, segments);
}

/// The reply to an upload request.
#[derive(Debug, Clone, PartialEq, Eq)]
pub struct UploadReply {
    pub status: u16,
    pub messages: Vec<String>,
}

/// An upload in progress.
pub struct UploadSession {
    prefix: String,
    messages: Vec<String>,
}

impl View for UploadSession {
    type V = UploadState;

    closed spec fn view(&self) -> UploadState {
        UploadState { prefix: self.prefix@, messages: views(self.messages@) }
    }
}

impl UploadSession {
    /// An upload whose files go under `root` until a text field adds a folder.
    pub fn new(root: &str) -> (r: Self)
        ensures
            r@ == start_state(root@),
    {
        let r = UploadSession { prefix: String::from_str(root), messages: Vec::new() };
        assert(r@.messages =~= Seq::<Seq<char>>::empty());
        r
    }

    /// The destination path so far.
    pub fn prefix(&self) -> (r: &str)
        ensures
            r@ == self@.prefix,
    {
        self.prefix.as_str()
    }

    /// A text field: its text becomes one more folder of the destination path.
    pub fn add_folder(&mut self, text: &str)
        ensures
            final(self)@ == step(old(self)@, UploadEvent::Folder(text@)),
    {
        proof {
            reveal_strlit("/");
        }
        self.prefix.append("/");
        self.prefix.append(text);
        assert(self@.prefix =~= joined(old(self)@.prefix, text@));
        assert(self@.messages =~= old(self)@.messages);
    }

    /// Where a file field named `file_name` is to be put.
    pub fn target(&self, file_name: &str) -> (r: ObjectTarget)
        ensures
            r.namespace@ == self@.prefix,
            r.key@ == file_name@,
    {
        ObjectTarget { namespace: self.prefix.clone(), key: String::from_str(file_name) }
    }

    /// Records what the object store answered to the put of `file_name`.
    pub fn record(&mut self, file_name: &str, outcome: &PutOutcome)
        ensures
            final(self)@ == step(old(self)@, UploadEvent::File(file_name@, *outcome)),
    {
        let message = match outcome {
            PutOutcome::Stored { e_tag } => {
                let mut m = match e_tag {
                    Some(t) => t.clone(),
                    None => String::new(),
                };
                m.append(" file was successfully uploaded!");
                m
            },
            PutOutcome::Failed { error } => {
                let mut m = String::from_str(file_name);
                m.append(" error uploading file | Error: ");
                m.append(error.as_str());
                m
            },
        };
        self.messages.push(message);
        assert(self@.messages =~= old(self)@.messages.push(outcome_message(file_name@, *outcome)));
    }

    /// The reply: created, with one message per file field in the order of the fields.
    pub fn finish(self) -> (r: UploadReply)
        ensures
            r.status == STATUS_CREATED,
            views(r.messages@) == self@.messages,
            r.messages@.len() == self@.messages.len(),
    {
        UploadReply { status: STATUS_CREATED, messages: self.messages }
    }
}

} // verus!
