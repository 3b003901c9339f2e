//! Upload of a large file in chunks: a session is created on the server, the
//! data is appended to it chunk by chunk in stream order, and the session is
//! finalized by a move or an import.
//!
//! `BigFile` holds the decisions of that sequence; whoever performs the
//! requests feeds each outcome back as an `Event` and carries out the
//! `Action` it gets. A failed request ends the upload, and the session left on
//! the server is not cleaned up.
use vstd::prelude::*;

use crate::request::{
    auth_get, bare_post, form_post, multipart_post, Part, PartView, Request, RequestView,
};
use crate::{Authenticated, Client};

verus! {

/// How a finished upload session is finalized.
pub enum AfterUpload {
    /// The server imports the uploaded data in place (an archive is expanded).
    Import,
    /// The server moves the uploaded file to `pathname`, taken as given.
    Move { pathname: String },
}

pub enum AfterView {
    Import,
    Move(Seq<char>),
}

impl View for AfterUpload {
    type V = AfterView;

    open spec fn view(&self) -> AfterView {
        match self {
            AfterUpload::Import => AfterView::Import,
            AfterUpload::Move { pathname } => AfterView::Move(pathname@),
        }
    }
}

#[derive(PartialEq, Eq, Structural, Clone, Copy, Debug)]
pub enum Phase {
    /// Waiting for the server to assign a session.
    Creating,
    /// Appending chunks to the session.
    Streaming,
    /// The finalizing request has been handed out.
    Done,
}

/// An upload session and where it stands.
pub struct BigFile {
    phase: Phase,
    /// The identifier the server assigned; empty until then.
    id: String,
    after: AfterUpload,
}

pub struct BigFileView {
    pub phase: Phase,
    pub id: Seq<char>,
    pub after: AfterView,
}

impl View for BigFile {
    type V = BigFileView;

    closed spec fn view(&self) -> BigFileView {
        BigFileView { phase: self.phase, id: self.id@, after: self.after@ }
    }
}

/// What happened since the last step.
pub enum Event {
    /// The server created session `0`.
    Created(String),
    /// The next chunk of the source.
    Chunk(Vec<u8>),
    /// The source has no more data.
    End,
}

pub enum EventView {
    Created(Seq<char>),
    Chunk(Seq<u8>),
    End,
}

impl View for Event {
    type V = EventView;

    open spec fn view(&self) -> EventView {
        match self {
            Event::Created(id) => EventView::Created(id@),
            Event::Chunk(c) => EventView::Chunk(c@),
            Event::End => EventView::End,
        }
    }
}

/// What to do next.
pub enum Action {
    /// Read the next chunk of the source.
    Read,
    /// Send this append request, then read the next chunk.
    Append(Request),
    /// Send this finalizing request; its answer ends the upload.
    Finish(Request),
    /// The event does not fit the phase; nothing changed.
    Rejected,
}

pub enum ActionView {
    Read,
    Append(RequestView),
    Finish(RequestView),
    Rejected,
}

impl View for Action {
    type V = ActionView;

    open spec fn view(&self) -> ActionView {
        match self {
            Action::Read => ActionView::Read,
            Action::Append(r) => ActionView::Append(r@),
            Action::Finish(r) => ActionView::Finish(r@),
            Action::Rejected => ActionView::Rejected,
        }
    }
}

/// The request that opens a session.
pub open spec fn create_view(base: Seq<char>, token: Seq<char>) -> RequestView {
    auth_get(base, token, "/files/big/create"@)
}

/// The request that appends `chunk` to session `id`.
pub open spec fn append_view(
    base: Seq<char>,
    token: Seq<char>,
    id: Seq<char>,
    chunk: Seq<u8>,
) -> RequestView {
    multipart_post(
        base,
        token,
        "/files/big/append"@,
        seq![
            PartView::Text { name: "id"@, value: id },
            PartView::Bytes {
                name: "file"@,
                data: chunk,
                file_name: None,
                mime: Some("application/octet-stream"@),
            },
        ],
    )
}

/// The request that finalizes session `id` as `after` says.
pub open spec fn finish_view(
    base: Seq<char>,
    token: Seq<char>,
    id: Seq<char>,
    after: AfterView,
) -> RequestView {
    match after {
        AfterView::Move(pathname) => form_post(
            base,
            token,
            "/files/big/move"@,
            seq![("id"@, id), ("pathname"@, pathname)],
        ),
        AfterView::Import => bare_post(base, token, "/files/import/"@ + id),
    }
}

/// A session not yet created, to be finalized as `after` says.
pub open spec fn initial(after: AfterView) -> BigFileView {
    BigFileView { phase: Phase::Creating, id: Seq::empty(), after }
}

/// One step of an upload: the state and the action after event `e` in state
/// `s`.
pub open spec fn next(s: BigFileView, base: Seq<char>, token: Seq<char>, e: EventView) -> (
    BigFileView,
    ActionView,
) {
    match e {
        EventView::Created(id) => if s.phase == Phase::Creating {
            (BigFileView { phase: Phase::Streaming, id, after: s.after }, ActionView::Read)
        } else {
            (s, ActionView::Rejected)
        },
        EventView::Chunk(c) => if s.phase == Phase::Streaming {
            (s, ActionView::Append(append_view(base, token, s.id, c)))
        } else {
            (s, ActionView::Rejected)
        },
        EventView::End => if s.phase == Phase::Streaming {
            (
                BigFileView { phase: Phase::Done, id: s.id, after: s.after },
                ActionView::Finish(finish_view(base, token, s.id, s.after)),
            )
        } else {
            (s, ActionView::Rejected)
        },
    }
}

/// The state after events `evs` from `s`, and the actions handed out, in
/// order.
pub open spec fn run(s: BigFileView, base: Seq<char>, token: Seq<char>, evs: Seq<EventView>) -> (
    BigFileView,
    Seq<ActionView>,
)
    decreases evs.len(),
{
    if evs.len() == 0 {
        (s, Seq::empty())
    } else {
        let (s1, acts) = run(s, base, token, evs.drop_last());
        let (s2, a) = next(s1, base, token, evs.last());
        (s2, acts.push(a))
    }
}

pub open spec fn chunk_events(chunks: Seq<Seq<u8>>) -> Seq<EventView> {
    chunks.map_values(|c: Seq<u8>| EventView::Chunk(c))
}

pub open spec fn append_actions(
    base: Seq<char>,
    token: Seq<char>,
    id: Seq<char>,
    chunks: Seq<Seq<u8>>,
) -> Seq<ActionView> {
    chunks.map_values(|c: Seq<u8>| ActionView::Append(append_view(base, token, id, c)))
}

/// The events of a whole upload: the session `id` is created, `chunks` are
/// read in order, and the source ends.
pub open spec fn upload_events(id: Seq<char>, chunks: Seq<Seq<u8>>) -> Seq<EventView> {
    seq![EventView::Created(id)] + chunk_events(chunks) + seq![EventView::End]
}

proof fn lemma_streaming(
    after: AfterView,
    base: Seq<char>,
    token: Seq<char>,
    id: Seq<char>,
    chunks: Seq<Seq<u8>>,
)
    ensures
        run(initial(after), base, token, seq![EventView::Created(id)] + chunk_events(chunks)) == (
            BigFileView { phase: Phase::Streaming, id, after },
            seq![ActionView::Read] + append_actions(base, token, id, chunks),
        ),
    decreases chunks.len(),
{
    let evs = seq![EventView::Created(id)] + chunk_events(chunks);
    if chunks.len() == 0 {
        assert(evs =~= seq![EventView::Created(id)]);
        assert(evs.drop_last() =~= Seq::<EventView>::empty());
        assert(run(initial(after), base, token, evs.drop_last()) == (
            initial(after),
            Seq::<ActionView>::empty(),
        ));
        assert(Seq::<ActionView>::empty().push(ActionView::Read) =~= seq![ActionView::Read]);
        assert(seq![ActionView::Read] + append_actions(base, token, id, chunks) =~= seq![
            ActionView::Read,
        ]);
    } else {
        let rest = chunks.drop_last();
        lemma_streaming(after, base, token, id, rest);
        assert(evs.drop_last() =~= seq![EventView::Created(id)] + chunk_events(rest));
        assert(evs.last() == EventView::Chunk(chunks.last()));
        assert(seq![ActionView::Read] + append_actions(base, token, id, chunks) =~= (seq![
            ActionView::Read,
        ] + append_actions(base, token, id, rest)).push(
            ActionView::Append(append_view(base, token, id, chunks.last())),
        ));
    }
}

/// A whole upload hands out, in order: a read of the source, one append per
/// chunk in stream order, each carrying its chunk unchanged, and the
/// finalizing request; it then stands done.
pub proof fn lemma_upload_sequence(
    after: AfterView,
    base: Seq<char>,
    token: Seq<char>,
    id: Seq<char>,
    chunks: Seq<Seq<u8>>,
)
    ensures
        run(initial(after), base, token, upload_events(id, chunks)) == (
            BigFileView { phase: Phase::Done, id, after },
            seq![ActionView::Read] + append_actions(base, token, id, chunks) + seq![
                ActionView::Finish(finish_view(base, token, id, after)),
            ],
        ),
{
    lemma_streaming(after, base, token, id, chunks);
    let evs = upload_events(id, chunks);
    assert(evs.drop_last() =~= seq![EventView::Created(id)] + chunk_events(chunks));
    assert(evs.last() == EventView::End);
}

/// An empty source still gets its session finalized: after the session is
/// created and the source ends at once, the only request handed out is the
/// finalizing one, with no append before it.
pub proof fn lemma_empty_source(after: AfterView, base: Seq<char>, token: Seq<char>, id: Seq<char>)
    ensures
        run(initial(after), base, token, upload_events(id, Seq::empty())).1 == seq![
            ActionView::Read,
            ActionView::Finish(finish_view(base, token, id, after)),
        ],
{
    lemma_upload_sequence(after, base, token, id, Seq::empty());
    assert(seq![ActionView::Read] + append_actions(base, token, id, Seq::empty()) + seq![
        ActionView::Finish(finish_view(base, token, id, after)),
    ] =~= seq![ActionView::Read, ActionView::Finish(finish_view(base, token, id, after))]);
}

/// An upload finalized by a move sends the destination path exactly as given,
/// whatever its leading separators or `.` and `..` pieces.
pub proof fn lemma_move_path_verbatim(
    pathname: Seq<char>,
    base: Seq<char>,
    token: Seq<char>,
    id: Seq<char>,
    chunks: Seq<Seq<u8>>,
)
    ensures
        run(initial(AfterView::Move(pathname)), base, token, upload_events(id, chunks)).1.last()
            == ActionView::Finish(
            form_post(base, token, "/files/big/move"@, seq![("id"@, id), ("pathname"@, pathname)]),
        ),
{
    lemma_upload_sequence(AfterView::Move(pathname), base, token, id, chunks);
}

impl BigFile {
    /// A session not yet created, to be finalized as `after` says.
    pub fn new(after: AfterUpload) -> (r: BigFile)
        ensures
            r@ == initial(after@),
    {
        BigFile { phase: Phase::Creating, id: String::new(), after }
    }

    /// The request that appends `chunk` to this session.
    pub fn append(&self, client: &Client<Authenticated>, chunk: Vec<u8>) -> (r: Request)
        ensures
            r@ == append_view(client.base(), client.token(), self@.id, chunk@),
    {
        let ghost c = chunk@;
        let mut parts: Vec<Part> = Vec::new();
        parts.push(Part::Text { name: String::from_str("id"), value: self.id.clone() });
        parts.push(
            Part::Bytes {
                name: String::from_str("file"),
                data: chunk,
                file_name: None,
                mime: Some(String::from_str("application/octet-stream")),
            },
        );
        proof {
            assert(crate::request::parts_view(parts@) =~= seq![
                PartView::Text { name: "id"@, value: self.id@ },
                PartView::Bytes {
                    name: "file"@,
                    data: c,
                    file_name: None,
                    mime: Some("application/octet-stream"@),
                },
            ]);
        }
        client.multipart("/files/big/append", parts)
    }

    /// The request that finalizes this session.
    pub fn finish(&self, client: &Client<Authenticated>) -> (r: Request)
        ensures
            r@ == finish_view(client.base(), client.token(), self@.id, self@.after),
    {
        match &self.after {
            AfterUpload::Move { pathname } => {
                let mut fields: Vec<(String, String)> = Vec::new();
                fields.push((String::from_str("id"), self.id.clone()));
                fields.push((String::from_str("pathname"), pathname.clone()));
                proof {
                    assert(fields.deep_view() =~= seq![("id"@, self.id@), ("pathname"@, pathname@)]);
                }
                client.post("/files/big/move", fields)
            },
            AfterUpload::Import => {
                let path = String::from_str("/files/import/").concat(self.id.as_str());
                client.post_bare(path.as_str())
            },
        }
    }

    /// Takes `event` and says what to do next; an event that does not fit the
    /// phase is rejected and changes nothing.
    pub fn upload(&mut self, client: &Client<Authenticated>, event: Event) -> (r: Action)
        ensures
            (final(self)@, r@) == next(old(self)@, client.base(), client.token(), event@),
    {
        match event {
            Event::Created(id) => {
                if self.phase == Phase::Creating {
                    self.phase = Phase::Streaming;
                    self.id = id;
                    Action::Read
                } else {
                    Action::Rejected
                }
            },
            Event::Chunk(chunk) => {
                if self.phase == Phase::Streaming {
                    Action::Append(self.append(client, chunk))
                } else {
                    Action::Rejected
                }
            },
            Event::End => {
                if self.phase == Phase::Streaming {
                    let r = self.finish(client);
                    self.phase = Phase::Done;
                    Action::Finish(r)
                } else {
                    Action::Rejected
                }
            },
        }
    }

    /// Where the upload stands.
    pub fn phase(&self) -> (r: Phase)
        ensures
            r == self@.phase,
    {
        self.phase
    }

    /// The session identifier the server assigned; empty before that.
    pub fn id(&self) -> (r: &str)
        ensures
            r@ == self@.id,
    {
        self.id.as_str()
    }

    /// Whether the finalizing request has been handed out.
    pub fn is_done(&self) -> (r: bool)
        ensures
            r == (self@.phase == Phase::Done),
    {
        self.phase == Phase::Done
    }
}

impl Client<Authenticated> {
    /// The request that opens an upload session.
    pub fn create_big_file(&self) -> (r: Request)
        ensures
            r@ == create_view(self.base(), self.token()),
    {
        self.get_auth("/files/big/create")
    }

    /// Starts an upload whose file is moved to `pathname`: the session and the
    /// request that opens it on the server.
    pub fn upload_stream(&self, pathname: &str) -> (r: (BigFile, Request))
        ensures
            r.0@ == initial(AfterView::Move(pathname@)),
            r.1@ == create_view(self.base(), self.token()),
    {
        (BigFile::new(AfterUpload::Move { pathname: String::from_str(pathname) }), self.create_big_file())
    }

    /// Starts an upload that the server imports in place: the session and the
    /// request that opens it on the server.
    pub fn import_stream(&self) -> (r: (BigFile, Request))
        ensures
            r.0@ == initial(AfterView::Import),
            r.1@ == create_view(self.base(), self.token()),
    {
        (BigFile::new(AfterUpload::Import), self.create_big_file())
    }
}

} // verus!
