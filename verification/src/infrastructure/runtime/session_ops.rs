//! Session persistence: what a flush writes, how sessions are listed and reopened, and what moving on to another
//! workspace or a fresh session resets.
use vstd::prelude::*;
use crate::application::effect::EffectView;
use crate::application::keymap::pickers::chosen;
use crate::conversation::{message_views, Conversation, Message, MessageView, Role};
use crate::domain::model::{Model, Status};
use crate::domain::picker::{Picker, PickerKind, PickerKindView};
use crate::domain::scroll::Scroll;
use crate::domain::transcript::{ItemView, NoticeLevel, Transcript, TranscriptItem};
use crate::infrastructure::runtime::turn::{error, info};
use crate::text::{bytes_of, cat2, cat3, cat5, char_bytes, chars_of, decimal, decimal_of, trim, trimmed, views};

verus! {

/// How many recent sessions the `/sessions` picker lists.
pub const SESSION_LIST_LIMIT: usize = 20;

/// Length of an RFC3339 timestamp cut to minute precision: `YYYY-MM-DD HH:MM` is 16 bytes.
pub const MINUTE_PRECISION_LEN: usize = 16;

/// Session persistence cursor: the id of the row backing the current conversation (created on the first flush, so
/// that an empty session never reaches the store) and how many non-system messages have already been written, so
/// that each flush appends only the new tail.
#[derive(Debug, PartialEq, Eq)]
pub struct SessionCursor {
    pub session_id: Option<String>,
    pub persisted_len: usize,
}

/// A stored session as the list shows it.
#[derive(Debug, Clone, PartialEq, Eq)]
pub struct SessionSummary {
    pub id: String,
    pub title: String,
    pub updated_at: String,
    pub message_count: u64,
}

/// A stored session. Its messages exclude the system prompt.
#[derive(Debug, Clone, PartialEq, Eq)]
pub struct StoredSession {
    pub id: String,
    pub title: String,
    pub messages: Vec<Message>,
    /// How many stored messages could not be read.
    pub skipped_messages: u64,
}

/// The beginning of a text that takes exactly `n` bytes; none where the text is shorter, or where a character
/// straddles the cut.
pub open spec fn leading(s: Seq<char>, n: nat) -> Option<Seq<char>>
    decreases s.len(),
{
    if n == 0 {
        Some(Seq::empty())
    } else if s.len() == 0 || char_bytes(s[0]) > n {
        None
    } else {
        match leading(s.drop_first(), (n - char_bytes(s[0])) as nat) {
            Some(t) => Some(seq![s[0]] + t),
            None => None,
        }
    }
}

/// A timestamp to the minute, with the date and the time set apart by a space.
pub open spec fn to_the_minute(raw: Seq<char>) -> Seq<char> {
    let kept = match leading(raw, MINUTE_PRECISION_LEN as nat) {
        Some(t) => t,
        None => raw,
    };
    Seq::new(
        kept.len(),
        |i: int|
            if kept[i] == 'T' {
                ' '
            } else {
                kept[i]
            },
    )
}

/// How many characters make up the beginning of `n` bytes.
fn leading_len(chars: &Vec<char>, n: usize) -> (r: Option<usize>)
    ensures
        match r {
            Some(k) => k <= chars@.len() && leading(chars@, n as nat) == Some(chars@.take(k as int)),
            None => leading(chars@, n as nat) is None,
        },
{
    let mut at: usize = 0;
    let mut left: usize = n;
    assert(chars@.skip(0) =~= chars@);
    assert(match leading(chars@, n as nat) {
        Some(t) => Some(chars@.take(0) + t),
        None => None,
    } == leading(chars@, n as nat)) by {
        match leading(chars@, n as nat) {
            Some(t) => {
                assert(chars@.take(0) + t =~= t);
            },
            None => {},
        }
    }
    while left > 0
        invariant
            at <= chars@.len(),
            leading(chars@, n as nat) == match leading(chars@.skip(at as int), left as nat) {
                Some(t) => Some(chars@.take(at as int) + t),
                None => None,
            },
        decreases left,
    {
        if at >= chars.len() {
            return None;
        }
        let width: usize = bytes_of(chars[at]);
        assert(chars@.skip(at as int)[0] == chars@[at as int]);
        if width > left {
            return None;
        }
        proof {
            let rest = chars@.skip(at as int);
            assert(rest.drop_first() =~= chars@.skip(at + 1));
            match leading(rest.drop_first(), (left - width) as nat) {
                Some(t) => {
                    assert(chars@.take(at as int) + (seq![rest[0]] + t) =~= chars@.take(at + 1) + t);
                },
                None => {},
            }
        }
        at = at + 1;
        left = left - width;
    }
    assert(chars@.take(at as int) + Seq::<char>::empty() =~= chars@.take(at as int));
    Some(at)
}

/// Trim an RFC3339 timestamp to `YYYY-MM-DD HH:MM` for the compact session-list label.
pub fn short_timestamp(raw: &str) -> (r: String)
    ensures
        r@ == to_the_minute(raw@),
{
    let chars: Vec<char> = chars_of(raw);
    let len: usize = match leading_len(&chars, MINUTE_PRECISION_LEN) {
        Some(k) => k,
        None => chars.len(),
    };
    assert(chars@.take(chars@.len() as int) =~= chars@);
    let mut r: String = String::new();
    let ghost want = to_the_minute(raw@);
    for i in 0..len
        invariant
            len <= chars@.len(),
            want.len() == len,
            forall|j: int|
                0 <= j < len ==> want[j] == (if chars@[j] == 'T' {
                    ' '
                } else {
                    chars@[j]
                }),
            r@ =~= want.take(i as int),
    {
        if chars[i] == 'T' {
            r.push(' ');
        } else {
            r.push(chars[i]);
        }
    }
    assert(want.take(len as int) =~= want);
    r
}

/// The item that a stored message is shown as; most tool traffic is not.
pub open spec fn replay_of(m: MessageView) -> Option<ItemView> {
    match m.role {
        Role::User => if m.speaks() {
            Some(ItemView::User(m.content->0))
        } else {
            None
        },
        Role::Assistant => if m.speaks() {
            Some(ItemView::Assistant(m.content->0))
        } else if m.tool_calls.len() > 0 {
            Some(info("· "@ + decimal(m.tool_calls.len() as int) + " ferramenta(s) executada(s)"@))
        } else {
            None
        },
        Role::Tool | Role::System => None,
    }
}

/// The transcript of stored messages.
pub open spec fn replayed(messages: Seq<MessageView>) -> Seq<ItemView>
    decreases messages.len(),
{
    if messages.len() == 0 {
        Seq::empty()
    } else {
        let before = replayed(messages.drop_last());
        match replay_of(messages.last()) {
            Some(item) => before.push(item),
            None => before,
        }
    }
}

fn replay(message: &Message) -> (r: Option<TranscriptItem>)
    ensures
        match r {
            Some(item) => replay_of(message@) == Some(item@),
            None => replay_of(message@) is None,
        },
{
    match message.role {
        Role::User => {
            if message.speaks() {
                match &message.content {
                    Some(content) => Some(TranscriptItem::User(content.clone())),
                    None => None,
                }
            } else {
                None
            }
        },
        Role::Assistant => {
            if message.speaks() {
                match &message.content {
                    Some(content) => Some(TranscriptItem::Assistant(content.clone())),
                    None => None,
                }
            } else if message.tool_calls.len() > 0 {
                Some(
                    TranscriptItem::Notice(
                        NoticeLevel::Info,
                        cat3(
                            "· ",
                            decimal_of(message.tool_calls.len() as u64).as_str(),
                            " ferramenta(s) executada(s)",
                        ),
                    ),
                )
            } else {
                None
            }
        },
        Role::Tool => None,
        Role::System => None,
    }
}

/// Project a loaded conversation back into a display transcript: user and assistant text become their items; an
/// assistant turn that only called tools becomes a compact notice; tool results and the system prompt are left
/// out. The conversation stays the source of truth.
pub fn rebuild_transcript(messages: &Vec<Message>) -> (r: Transcript)
    ensures
        r@ == replayed(message_views(messages@)),
{
    let mut transcript: Transcript = Transcript::default();
    let ghost all = message_views(messages@);
    assert(transcript@ =~= replayed(all.take(0)));
    for i in 0..messages.len()
        invariant
            all == message_views(messages@),
            transcript@ == replayed(all.take(i as int)),
    {
        let ghost next = all.take(i + 1);
        assert(next.drop_last() =~= all.take(i as int));
        assert(next.last() == messages@[i as int]@);
        if let Some(item) = replay(&messages[i]) {
            transcript.push(item);
        }
    }
    assert(all.take(messages@.len() as int) =~= all);
    transcript
}

/// The messages that a session stores: all but the system prompt, which is composed anew on each run.
pub open spec fn body(conversation: Seq<MessageView>) -> Seq<MessageView> {
    conversation.skip(1)
}

/// What the next flush has to write.
pub open spec fn unwritten(conversation: Seq<MessageView>, cursor: SessionCursor) -> Seq<MessageView> {
    if cursor.persisted_len < body(conversation).len() {
        body(conversation).skip(cursor.persisted_len as int)
    } else {
        Seq::empty()
    }
}

/// The next step of a flush.
#[derive(Debug, PartialEq, Eq)]
pub enum FlushStep {
    /// There is nothing to write, or nowhere to write it.
    Idle,
    /// The session has no row yet.
    Create,
    /// Append the messages of the conversation from the given one on.
    Append { id: String, from: usize },
}

/// Decide how to persist the conversation's new tail. An unavailable store is a silent no-op. The cursor may stand
/// past the end, since a rollback can shrink the conversation.
pub fn flush_step(available: bool, conversation: &Conversation, cursor: &SessionCursor) -> (r: FlushStep)
    requires
        conversation.wf(),
    ensures
        match r {
            FlushStep::Idle => !available || unwritten(conversation@, *cursor).len() == 0,
            FlushStep::Create => available && unwritten(conversation@, *cursor).len() > 0
                && cursor.session_id is None,
            FlushStep::Append { id, from } => {
                &&& available && unwritten(conversation@, *cursor).len() > 0
                &&& cursor.session_id matches Some(session) && session@ == id@
                &&& from < conversation@.len()
                &&& conversation@.skip(from as int) == unwritten(conversation@, *cursor)
            },
        },
{
    if !available {
        return FlushStep::Idle;
    }
    let messages: &Vec<Message> = conversation.messages();
    assert(messages@.len() == conversation@.len());
    let len: usize = messages.len() - 1;
    if len <= cursor.persisted_len {
        return FlushStep::Idle;
    }
    match &cursor.session_id {
        None => FlushStep::Create,
        Some(id) => {
            let from: usize = cursor.persisted_len + 1;
            assert(conversation@.skip(from as int) =~= unwritten(conversation@, *cursor));
            FlushStep::Append { id: id.clone(), from }
        },
    }
}

/// The text of a failed flush.
pub open spec fn flush_failure(error: Seq<char>) -> Seq<char> {
    "não persistiu a sessão: "@ + error
}

/// Take note of the session row made for the first flush. Says whether the flush goes on.
pub fn session_created(cursor: &mut SessionCursor, model: &mut Model, result: Result<String, String>) -> (r: bool)
    requires
        old(model).wf(),
    ensures
        match result {
            Ok(id) => {
                &&& r
                &&& *final(cursor) == (SessionCursor { session_id: Some(id), ..*old(cursor) })
                &&& *final(model) == *old(model)
            },
            Err(e) => {
                &&& !r
                &&& *final(cursor) == *old(cursor)
                &&& old(model).posted(*final(model), NoticeLevel::Error, flush_failure(e@))
            },
        },
        // What was to be written still is.
        forall|said: Seq<MessageView>| #[trigger] unwritten(said, *final(cursor)) == unwritten(said, *old(cursor)),
        r ==> final(cursor).session_id is Some,
        final(model).wf(),
{
    match result {
        Ok(id) => {
            cursor.session_id = Some(id);
            true
        },
        Err(failure) => {
            model.notify_error(cat2("não persistiu a sessão: ", failure.as_str()));
            false
        },
    }
}

/// The text that names a session: what the user said first.
pub open spec fn title_source(messages: Seq<MessageView>) -> Option<Seq<char>>
    decreases messages.len(),
{
    if messages.len() == 0 {
        None
    } else if messages[0].role == Role::User {
        messages[0].content
    } else {
        title_source(messages.drop_first())
    }
}

/// The text that names the session of a conversation: the content of its first user message.
pub fn find_title_source(conversation: &Conversation) -> (r: Option<String>)
    requires
        conversation.wf(),
    ensures
        match r {
            Some(t) => title_source(body(conversation@)) == Some(t@),
            None => title_source(body(conversation@)) is None,
        },
{
    let messages: &Vec<Message> = conversation.messages();
    assert(messages@.len() == conversation@.len());
    let mut i: usize = 1;
    while i < messages.len()
        invariant
            1 <= i <= messages@.len(),
            message_views(messages@) == conversation@,
            title_source(conversation@.skip(i as int)) == title_source(body(conversation@)),
        decreases messages@.len() - i,
    {
        let message: &Message = &messages[i];
        assert(conversation@.skip(i as int)[0] == message@);
        assert(conversation@.skip(i as int).drop_first() =~= conversation@.skip(i + 1));
        if message.role == Role::User {
            return match &message.content {
                Some(content) => Some(content.clone()),
                None => None,
            };
        }
        i = i + 1;
    }
    None
}

/// Take note of an append. On the first flush the session gets its title: the text to derive it from is returned.
/// A failed append leaves the cursor where it stands, so that the next flush writes the same tail.
pub fn session_appended(
    cursor: &mut SessionCursor,
    model: &mut Model,
    conversation: &Conversation,
    result: Result<(), String>,
) -> (r: Option<String>)
    requires
        old(model).wf(),
        conversation.wf(),
    ensures
        match result {
            Ok(_) => {
                &&& *final(model) == *old(model)
                &&& *final(cursor) == (SessionCursor {
                    persisted_len: body(conversation@).len() as usize,
                    ..*old(cursor)
                })
                &&& match r {
                    Some(t) => old(cursor).persisted_len == 0 && title_source(body(conversation@)) == Some(
                        t@,
                    ),
                    None => old(cursor).persisted_len > 0 || title_source(body(conversation@)) is None,
                }
            },
            Err(e) => {
                &&& r is None
                &&& *final(cursor) == *old(cursor)
                &&& old(model).posted(*final(model), NoticeLevel::Error, flush_failure(e@))
            },
        },
        // Written once, nothing of it is written again; what failed to be written still is to be.
        result is Ok ==> unwritten(conversation@, *final(cursor)).len() == 0,
        result is Err ==> unwritten(conversation@, *final(cursor)) == unwritten(conversation@, *old(cursor)),
        result is Ok ==> forall|news: Seq<MessageView>|
            #[trigger] unwritten(conversation@ + news, *final(cursor)) == news,
        final(model).wf(),
{
    match result {
        Err(failure) => {
            model.notify_error(cat2("não persistiu a sessão: ", failure.as_str()));
            None
        },
        Ok(_) => {
            let first: bool = cursor.persisted_len == 0;
            let messages: &Vec<Message> = conversation.messages();
            assert(messages@.len() == conversation@.len());
            cursor.persisted_len = messages.len() - 1;
            assert forall|news: Seq<MessageView>| #[trigger] unwritten(conversation@ + news, *cursor) == news by {
                assert(unwritten(conversation@ + news, *cursor) =~= news);
            }
            if first {
                find_title_source(conversation)
            } else {
                None
            }
        },
    }
}

/// Whether the session commands can work; an inert store is announced.
pub fn sessions_ready(model: &mut Model, available: bool) -> (r: bool)
    requires
        old(model).wf(),
    ensures
        r == available,
        if available {
            *final(model) == *old(model)
        } else {
            old(model).posted(
                *final(model),
                NoticeLevel::Info,
                "persistência de sessão indisponível"@,
            )
        },
        final(model).wf(),
{
    if !available {
        model.notify_info("persistência de sessão indisponível".to_owned());
    }
    available
}

/// A session's row in the list; `untitled` stands for a blank title.
pub open spec fn session_label(s: SessionSummary, untitled: Seq<char>) -> Seq<char> {
    (if trim(s.title@).len() == 0 {
        untitled
    } else {
        trim(s.title@)
    }) + " · "@ + to_the_minute(s.updated_at@) + " · "@ + decimal(s.message_count as int) + " msgs"@
}

/// The rows of a list of sessions.
pub open spec fn session_labels(sessions: Seq<SessionSummary>, untitled: Seq<char>) -> Seq<Seq<char>> {
    Seq::new(sessions.len(), |i: int| session_label(sessions[i], untitled))
}

/// The ids of a list of sessions.
pub open spec fn session_ids_of(sessions: Seq<SessionSummary>) -> Seq<Seq<char>> {
    Seq::new(sessions.len(), |i: int| sessions[i].id@)
}

fn label_session(session: &SessionSummary, untitled: &str) -> (r: String)
    ensures
        r@ == session_label(*session, untitled@),
{
    let title: String = trimmed(session.title.as_str());
    let shown: &str = if title.as_str().is_empty() {
        untitled
    } else {
        title.as_str()
    };
    let head: String = cat5(
        shown,
        " · ",
        short_timestamp(session.updated_at.as_str()).as_str(),
        " · ",
        decimal_of(session.message_count).as_str(),
    );
    cat2(head.as_str(), " msgs")
}

/// The text that says that there is no earlier session.
pub open spec fn no_sessions() -> Seq<char> {
    "nenhuma sessão anterior neste workspace"@
}

/// Open the `/sessions` picker over the listed sessions, recording the ids that its rows stand for. An empty list
/// or a failed one is announced and opens nothing.
pub fn list_sessions(model: &mut Model, result: Result<Vec<SessionSummary>, String>, untitled: &str)
    requires
        old(model).wf(),
    ensures
        match result {
            Ok(sessions) => if sessions@.len() > 0 {
                &&& *final(model) == (Model {
                    session_ids: final(model).session_ids,
                    picker: final(model).picker,
                    ..*old(model)
                })
                &&& views(final(model).session_ids@) == session_ids_of(sessions@)
                &&& final(model).picker matches Some(p) && p@ == Picker::opened(
                    PickerKindView::Sessions,
                    "sessão"@,
                    "Escolha uma sessão para retomar:"@,
                    session_labels(sessions@, untitled@),
                    0,
                )
            } else {
                old(model).posted(*final(model), NoticeLevel::Info, no_sessions())
            },
            Err(e) => old(model).posted(
                *final(model),
                NoticeLevel::Error,
                "não foi possível listar as sessões: "@ + e@,
            ),
        },
        // Picking a row reopens the session that the row tells of.
        result matches Ok(sessions) ==> forall|i: int, after: Model, effects: Seq<EffectView>|
            0 <= i < sessions@.len() && #[trigger] chosen(
                *final(model),
                (final(model).picker->0)@,
                i,
                after,
                effects,
            ) ==> effects == seq![EffectView::OpenSession(sessions@[i].id@)],
        final(model).wf(),
{
    match result {
        Ok(sessions) => {
            if sessions.len() == 0 {
                model.notify_info("nenhuma sessão anterior neste workspace".to_owned());
                return ;
            }
            let mut ids: Vec<String> = Vec::new();
            let mut options: Vec<String> = Vec::new();
            for i in 0..sessions.len()
                invariant
                    ids@.len() == i,
                    options@.len() == i,
                    forall|j: int| 0 <= j < i ==> #[trigger] ids@[j]@ == sessions@[j].id@,
                    forall|j: int|
                        0 <= j < i ==> #[trigger] options@[j]@ == session_label(sessions@[j], untitled@),
            {
                ids.push(sessions[i].id.clone());
                options.push(label_session(&sessions[i], untitled));
            }
            assert(views(ids@) =~= session_ids_of(sessions@));
            assert(views(options@) =~= session_labels(sessions@, untitled@));
            model.session_ids = ids;
            model.picker = Some(
                Picker::new(
                    PickerKind::Sessions,
                    "sessão".to_owned(),
                    "Escolha uma sessão para retomar:".to_owned(),
                    options,
                    0,
                ),
            );
        },
        Err(failure) => {
            model.notify_error(cat2("não foi possível listar as sessões: ", failure.as_str()));
        },
    }
}

/// The session that `/resume` reopens: the latest of the workspace. Where there is none, or the store fails, that
/// is announced.
pub fn resume_last(model: &mut Model, result: Result<Option<String>, String>) -> (r: Option<String>)
    requires
        old(model).wf(),
    ensures
        match result {
            Ok(Some(id)) => r == Some(id) && *final(model) == *old(model),
            Ok(None) => r is None && old(model).posted(*final(model), NoticeLevel::Info, no_sessions()),
            Err(e) => r is None && old(model).posted(
                *final(model),
                NoticeLevel::Error,
                "não foi possível ler as sessões: "@ + e@,
            ),
        },
        final(model).wf(),
{
    match result {
        Ok(Some(id)) => Some(id),
        Ok(None) => {
            model.notify_info("nenhuma sessão anterior neste workspace".to_owned());
            None
        },
        Err(failure) => {
            model.notify_error(cat2("não foi possível ler as sessões: ", failure.as_str()));
            None
        },
    }
}

/// The notices of a reopened session: its title, and how much of it could not be read.
pub open spec fn reopening(session: StoredSession, untitled: Seq<char>) -> Seq<ItemView> {
    let title = if trim(session.title@).len() == 0 {
        untitled
    } else {
        session.title@
    };
    let resumed = seq![info("sessão retomada: "@ + title)];
    if session.skipped_messages > 0 {
        resumed.push(
            error(
                decimal(session.skipped_messages as int)
                    + " mensagem(ns) corrompida(s) ignorada(s) ao retomar a sessão"@,
            ),
        )
    } else {
        resumed
    }
}

/// What reopening a session does. A session that is missing or failed to load leaves everything as it was, but
/// for the notice.
pub open spec fn reopened(
    old: Model,
    cursor: SessionCursor,
    conversation: Conversation,
    system_prompt: Seq<char>,
    untitled: Seq<char>,
    result: Result<Option<StoredSession>, String>,
    new: Model,
    moved: SessionCursor,
    resumed: Conversation,
) -> bool {
    match result {
        Ok(Some(session)) => {
            &&& new == (Model {
                transcript: new.transcript,
                attachments: new.attachments,
                scroll: Scroll { scrollback: 0 },
                ..old
            })
            &&& new.attachments@.len() == 0
            &&& new.transcript@ == replayed(message_views(session.messages@)) + reopening(session, untitled)
            &&& resumed@ == seq![MessageView::plain(Role::System, system_prompt)] + message_views(
                session.messages@,
            )
            &&& moved.session_id == Some(session.id)
            &&& moved.persisted_len == session.messages@.len()
        },
        Ok(None) => {
            &&& old.posted(new, NoticeLevel::Error, "sessão não encontrada"@)
            &&& moved == cursor
            &&& resumed == conversation
        },
        Err(e) => {
            &&& old.posted(new, NoticeLevel::Error, "não foi possível abrir a sessão: "@ + e@)
            &&& moved == cursor
            &&& resumed == conversation
        },
    }
}

/// Put a loaded session in place of the current one: rebuild the conversation under the current system prompt and
/// the transcript from it, and move the cursor to its end.
pub fn open_session(
    model: &mut Model,
    cursor: &mut SessionCursor,
    conversation: &mut Conversation,
    system_prompt: &str,
    untitled: &str,
    result: Result<Option<StoredSession>, String>,
)
    requires
        old(model).wf(),
    ensures
        reopened(
            *old(model),
            *old(cursor),
            *old(conversation),
            system_prompt@,
            untitled@,
            result,
            *final(model),
            *final(cursor),
            *final(conversation),
        ),
        old(conversation).wf() || (result matches Ok(Some(_))) ==> final(conversation).wf(),
        final(model).wf(),
{
    let session: StoredSession = match result {
        Ok(Some(session)) => session,
        Ok(None) => {
            model.notify_error("sessão não encontrada".to_owned());
            return ;
        },
        Err(failure) => {
            model.notify_error(cat2("não foi possível abrir a sessão: ", failure.as_str()));
            return ;
        },
    };
    let ghost notices = reopening(session, untitled@);
    let ghost items = replayed(message_views(session.messages@));
    model.transcript = rebuild_transcript(&session.messages);
    model.attachments = Vec::new();
    model.scroll.pin();
    let blank: bool = trimmed(session.title.as_str()).as_str().is_empty();
    let title: &str = if blank {
        untitled
    } else {
        session.title.as_str()
    };
    model.notify_info(cat2("sessão retomada: ", title));
    if session.skipped_messages > 0 {
        model.notify_error(
            cat2(
                decimal_of(session.skipped_messages).as_str(),
                " mensagem(ns) corrompida(s) ignorada(s) ao retomar a sessão",
            ),
        );
    }
    assert(model.transcript@ =~= items + notices);
    let count: usize = session.messages.len();
    let ghost stored = message_views(session.messages@);
    let mut fresh: Conversation = Conversation::new(system_prompt.to_owned());
    let ghost lead = fresh@;
    for message in it: session.messages
        invariant
            stored == message_views(it.seq()),
            fresh@ =~= lead + stored.take(it.index() as int),
    {
        fresh.push(message);
    }
    assert(stored.take(stored.len() as int) =~= stored);
    *conversation = fresh;
    cursor.session_id = Some(session.id);
    cursor.persisted_len = count;
}

/// Take note of a `/cd`: show the new workspace and detach the cursor, since sessions are keyed by workspace. A
/// failed move is announced and changes nothing.
pub fn change_workspace(model: &mut Model, cursor: &mut SessionCursor, result: Result<String, String>)
    requires
        old(model).wf(),
    ensures
        match result {
            Ok(workspace) => {
                &&& *final(model) == (Model {
                    status: Status { workspace, ..old(model).status },
                    transcript: final(model).transcript,
                    ..*old(model)
                })
                &&& final(model).transcript@ == old(model).transcript@.push(info("workspace: "@ + workspace@))
                &&& final(cursor).session_id is None
                &&& final(cursor).persisted_len == 0
            },
            Err(e) => {
                &&& old(model).posted(*final(model), NoticeLevel::Error, "erro: "@ + e@)
                &&& *final(cursor) == *old(cursor)
            },
        },
        // In another workspace the conversation is written from its beginning.
        result is Ok ==> forall|said: Seq<MessageView>|
            said.len() >= 1 ==> #[trigger] unwritten(said, *final(cursor)) == body(said),
        final(model).wf(),
{
    match result {
        Ok(workspace) => {
            let notice: String = cat2("workspace: ", workspace.as_str());
            model.status.workspace = workspace;
            cursor.session_id = None;
            cursor.persisted_len = 0;
            assert forall|said: Seq<MessageView>| said.len() >= 1 implies #[trigger] unwritten(said, *cursor) == body(
                said,
            ) by {
                assert(unwritten(said, *cursor) =~= body(said));
            }
            model.notify_info(notice);
        },
        Err(failure) => {
            model.notify_error(cat2("erro: ", failure.as_str()));
        },
    }
}

/// Discard the conversation and start a fresh session: a fresh conversation under the same system prompt, a
/// detached cursor, and a reset view.
pub fn new_session(
    model: &mut Model,
    cursor: &mut SessionCursor,
    conversation: &mut Conversation,
    system_prompt: &str,
)
    requires
        old(model).wf(),
    ensures
        *final(model) == (Model {
            transcript: final(model).transcript,
            attachments: final(model).attachments,
            scroll: Scroll { scrollback: 0 },
            ..*old(model)
        }),
        final(model).attachments@.len() == 0,
        final(model).transcript@ == seq![info("nova sessão"@)],
        final(conversation)@ == seq![MessageView::plain(Role::System, system_prompt@)],
        final(conversation).wf(),
        final(cursor).session_id is None,
        final(cursor).persisted_len == 0,
        // Whatever is said next is written, and nothing of the session before.
        forall|news: Seq<MessageView>|
            #[trigger] unwritten(final(conversation)@ + news, *final(cursor)) == news,
        final(model).wf(),
{
    *conversation = Conversation::new(system_prompt.to_owned());
    cursor.session_id = None;
    cursor.persisted_len = 0;
    model.transcript = Transcript::default();
    model.attachments = Vec::new();
    model.scroll.pin();
    model.notify_info("nova sessão".to_owned());
    assert(model.transcript@ =~= seq![info("nova sessão"@)]);
    assert forall|news: Seq<MessageView>| #[trigger] unwritten(conversation@ + news, *cursor) == news by {
        assert(unwritten(conversation@ + news, *cursor) =~= news);
    }
}

/// A flush writes the tail that was not written yet, and nothing twice: what was written before and the tail make
/// up the conversation, and once the tail is written nothing is left.
pub proof fn flushing_writes_each_message_once(conversation: Seq<MessageView>, cursor: SessionCursor, moved: SessionCursor)
    requires
        conversation.len() >= 1,
        cursor.persisted_len <= body(conversation).len(),
        moved.persisted_len == body(conversation).len(),
    ensures
        body(conversation).take(cursor.persisted_len as int) + unwritten(conversation, cursor) == body(
            conversation,
        ),
        unwritten(conversation, moved).len() == 0,
{
    assert(body(conversation).take(cursor.persisted_len as int) + unwritten(conversation, cursor) =~= body(
        conversation,
    ));
}

/// An empty session never reaches the store: with the system prompt alone there is nothing to write.
pub proof fn an_empty_session_is_not_written(conversation: Seq<MessageView>, cursor: SessionCursor)
    requires
        conversation.len() == 1,
    ensures
        unwritten(conversation, cursor).len() == 0,
{
}

/// A reopened session is not written again, and carries on: of whatever is said next, just that is written.
pub proof fn a_reopened_session_appends_only_news(
    old: Model,
    cursor: SessionCursor,
    conversation: Conversation,
    system_prompt: Seq<char>,
    untitled: Seq<char>,
    session: StoredSession,
    new: Model,
    moved: SessionCursor,
    resumed: Conversation,
    news: Seq<MessageView>,
)
    requires
        reopened(
            old,
            cursor,
            conversation,
            system_prompt,
            untitled,
            Ok(Some(session)),
            new,
            moved,
            resumed,
        ),
    ensures
        unwritten(resumed@ + news, moved) == news,
        moved.session_id == Some(session.id),
{
    assert(unwritten(resumed@ + news, moved) =~= news);
}

/// A conversation that was stored in full comes back as it was, under the same system prompt.
pub proof fn a_session_comes_back_as_it_was(
    stored: Seq<MessageView>,
    old: Model,
    cursor: SessionCursor,
    conversation: Conversation,
    system_prompt: Seq<char>,
    untitled: Seq<char>,
    session: StoredSession,
    new: Model,
    moved: SessionCursor,
    resumed: Conversation,
)
    requires
        stored.len() >= 1,
        stored[0] == MessageView::plain(Role::System, system_prompt),
        message_views(session.messages@) == body(stored),
        reopened(
            old,
            cursor,
            conversation,
            system_prompt,
            untitled,
            Ok(Some(session)),
            new,
            moved,
            resumed,
        ),
    ensures
        resumed@ == stored,
        unwritten(resumed@, moved).len() == 0,
{
    assert(resumed@ =~= stored);
}

/// A session that cannot be reopened leaves the current one alone.
pub proof fn a_failed_reopening_changes_nothing(
    old: Model,
    cursor: SessionCursor,
    conversation: Conversation,
    system_prompt: Seq<char>,
    untitled: Seq<char>,
    result: Result<Option<StoredSession>, String>,
    new: Model,
    moved: SessionCursor,
    resumed: Conversation,
)
    requires
        reopened(old, cursor, conversation, system_prompt, untitled, result, new, moved, resumed),
        result is Err || result == Ok::<Option<StoredSession>, String>(None),
    ensures
        moved == cursor,
        resumed == conversation,
        new == (Model { transcript: new.transcript, ..old }),
        new.transcript@.len() == old.transcript@.len() + 1,
        new.transcript@.drop_last() == old.transcript@,
{
    assert(new.transcript@.drop_last() =~= old.transcript@);
}

/// The replayed transcript shows each message at most once and in order: replaying more messages adds to what was
/// replayed before.
pub proof fn replaying_is_piecewise(first: Seq<MessageView>, second: Seq<MessageView>)
    ensures
        replayed(first + second) == replayed(first) + replayed(second),
    decreases second.len(),
{
    if second.len() == 0 {
        assert(first + second =~= first);
        assert(replayed(first) + replayed(second) =~= replayed(first));
    } else {
        replaying_is_piecewise(first, second.drop_last());
        assert((first + second).drop_last() =~= first + second.drop_last());
        assert((first + second).last() == second.last());
        assert(replayed(first + second) =~= replayed(first) + replayed(second));
    }
}

/// What was said comes back as it was said: the message of a user or of the assistant that holds more than white space is
/// replayed with its own text, whatever else it carries, tool calls too. An assistant message without text is told as
/// the number of tools it called; one that called none, a tool's result and a system prompt leave nothing.
pub proof fn what_was_said_is_replayed(m: MessageView)
    ensures
        m.content matches Some(t) ==> (trim(t).len() > 0 && m.role == Role::User ==> replayed(seq![m]) == seq![
            ItemView::User(t),
        ]),
        m.content matches Some(t) ==> (trim(t).len() > 0 && m.role == Role::Assistant ==> replayed(seq![m]) == seq![
            ItemView::Assistant(t),
        ]),
        m.role == Role::Assistant && (m.content matches Some(t) ==> trim(t).len() == 0) && m.tool_calls.len() > 0
            ==> replayed(seq![m]) == seq![
            ItemView::Notice(
                NoticeLevel::Info,
                "· "@ + decimal(m.tool_calls.len() as int) + " ferramenta(s) executada(s)"@,
            ),
        ],
        (m.role == Role::Tool || m.role == Role::System) ==> replayed(seq![m]).len() == 0,
        (m.content matches Some(t) ==> trim(t).len() == 0) && (m.role == Role::User || m.tool_calls.len() == 0)
            ==> replayed(seq![m]).len() == 0,
{
    reveal_with_fuel(replayed, 2);
    assert(seq![m].drop_last() =~= Seq::<MessageView>::empty());
    assert(Seq::<ItemView>::empty().push(replay_of(m)->0) =~= seq![replay_of(m)->0]);
}

/// A reopened transcript holds every message that says something, in its place: behind what the messages before it are
/// shown as, and ahead of what the ones behind it are.
pub proof fn a_reopened_transcript_holds_every_word(
    old: Model,
    cursor: SessionCursor,
    conversation: Conversation,
    system_prompt: Seq<char>,
    untitled: Seq<char>,
    session: StoredSession,
    new: Model,
    moved: SessionCursor,
    resumed: Conversation,
    i: int,
)
    requires
        reopened(
            old,
            cursor,
            conversation,
            system_prompt,
            untitled,
            Ok(Some(session)),
            new,
            moved,
            resumed,
        ),
        0 <= i < session.messages@.len(),
        session.messages@[i]@.content is Some,
        trim(session.messages@[i]@.content->0).len() > 0,
        session.messages@[i]@.role == Role::User || session.messages@[i]@.role == Role::Assistant,
    ensures
        ({
            let all = message_views(session.messages@);
            let said = session.messages@[i]@.content->0;
            let at = replayed(all.take(i)).len() as int;
            &&& at < new.transcript@.len()
            &&& new.transcript@.take(at) == replayed(all.take(i))
            &&& new.transcript@[at] == if session.messages@[i]@.role == Role::User {
                ItemView::User(said)
            } else {
                ItemView::Assistant(said)
            }
            &&& new.transcript@.skip(at + 1) == replayed(all.skip(i + 1)) + new.transcript@.skip(replayed(all).len() as int)
        }),
{
    let all = message_views(session.messages@);
    let m = all[i];
    what_was_said_is_replayed(m);
    assert(all =~= all.take(i) + seq![m] + all.skip(i + 1));
    replaying_is_piecewise(all.take(i) + seq![m], all.skip(i + 1));
    replaying_is_piecewise(all.take(i), seq![m]);
    let at = replayed(all.take(i)).len() as int;
    assert(new.transcript@.take(at) =~= replayed(all.take(i)));
    assert(new.transcript@.skip(at + 1) =~= replayed(all.skip(i + 1)) + new.transcript@.skip(
        replayed(all).len() as int,
    ));
}

/// A reopened session ends with a notice that names it by its title, or as untitled where the title is blank, and says in
/// red how many of its messages could not be read where any could not.
pub proof fn a_reopened_session_is_announced(session: StoredSession, untitled: Seq<char>)
    ensures
        ({
            let notices = reopening(session, untitled);
            let lost = session.skipped_messages;
            &&& notices.len() == if lost > 0 { 2int } else { 1 }
            &&& trim(session.title@).len() > 0 ==> notices[0] == ItemView::Notice(
                NoticeLevel::Info,
                "sessão retomada: "@ + session.title@,
            )
            &&& trim(session.title@).len() == 0 ==> notices[0] == ItemView::Notice(
                NoticeLevel::Info,
                "sessão retomada: "@ + untitled,
            )
            &&& lost > 0 ==> notices[1] == ItemView::Notice(
                NoticeLevel::Error,
                decimal(lost as int) + " mensagem(ns) corrompida(s) ignorada(s) ao retomar a sessão"@,
            )
        }),
{
}

/// A session is named by what its user said first, whatever was said before that by others or later by anyone.
pub proof fn a_session_is_named_by_its_first_prompt(messages: Seq<MessageView>, i: int)
    requires
        0 <= i < messages.len(),
        messages[i].role == Role::User,
        forall|k: int| 0 <= k < i ==> (#[trigger] messages[k]).role != Role::User,
    ensures
        title_source(messages) == messages[i].content,
    decreases i,
{
    if i > 0 {
        assert forall|k: int| 0 <= k < i - 1 implies (#[trigger] messages.drop_first()[k]).role != Role::User by {
            assert(messages.drop_first()[k] == messages[k + 1]);
        }
        a_session_is_named_by_its_first_prompt(messages.drop_first(), i - 1);
    }
}

/// A session without a prompt has no name.
pub proof fn a_silent_session_has_no_name(messages: Seq<MessageView>)
    requires
        forall|k: int| 0 <= k < messages.len() ==> (#[trigger] messages[k]).role != Role::User,
    ensures
        title_source(messages) is None,
    decreases messages.len(),
{
    if messages.len() > 0 {
        assert forall|k: int| 0 <= k < messages.len() - 1 implies (#[trigger] messages.drop_first()[k]).role
            != Role::User by {
            assert(messages.drop_first()[k] == messages[k + 1]);
        }
        a_silent_session_has_no_name(messages.drop_first());
    }
}

/// The row of a session names it by its trimmed title, or as untitled where that is blank, and tells when it was last
/// written and how long it is. Each row of the list stands for the session in the same place.
pub proof fn a_session_row_tells_its_session(sessions: Seq<SessionSummary>, untitled: Seq<char>, i: int)
    requires
        0 <= i < sessions.len(),
    ensures
        session_labels(sessions, untitled).len() == sessions.len(),
        session_ids_of(sessions).len() == sessions.len(),
        session_ids_of(sessions)[i] == sessions[i].id@,
        ({
            let row = session_labels(sessions, untitled)[i];
            let when = " · "@ + to_the_minute(sessions[i].updated_at@) + " · "@ + decimal(
                sessions[i].message_count as int,
            ) + " msgs"@;
            &&& trim(sessions[i].title@).len() > 0 ==> row == trim(sessions[i].title@) + when
            &&& trim(sessions[i].title@).len() == 0 ==> row == untitled + when
        }),
{
    let title = if trim(sessions[i].title@).len() == 0 {
        untitled
    } else {
        trim(sessions[i].title@)
    };
    assert(session_labels(sessions, untitled)[i] =~= title + (" · "@ + to_the_minute(sessions[i].updated_at@) + " · "@
        + decimal(sessions[i].message_count as int) + " msgs"@));
}

/// A timestamp in ASCII is cut to its first sixteen characters, date and time to the minute, with a blank in place of the
/// letter between them; a shorter one is kept whole.
pub proof fn a_timestamp_is_cut_to_the_minute(raw: Seq<char>)
    requires
        forall|i: int| 0 <= i < raw.len() ==> char_bytes(#[trigger] raw[i]) == 1,
    ensures
        ({
            let shown = to_the_minute(raw);
            &&& shown.len() == if raw.len() < 16 { raw.len() as int } else { 16 }
            &&& forall|i: int|
                0 <= i < shown.len() ==> #[trigger] shown[i] == if raw[i] == 'T' {
                    ' '
                } else {
                    raw[i]
                }
        }),
{
    ascii_leads(raw, 16);
}

proof fn ascii_leads(raw: Seq<char>, n: nat)
    requires
        forall|i: int| 0 <= i < raw.len() ==> char_bytes(#[trigger] raw[i]) == 1,
    ensures
        raw.len() >= n ==> leading(raw, n) == Some(raw.take(n as int)),
        raw.len() < n ==> leading(raw, n) is None,
    decreases n,
{
    if n > 0 && raw.len() > 0 {
        let rest = raw.drop_first();
        assert forall|i: int| 0 <= i < rest.len() implies char_bytes(#[trigger] rest[i]) == 1 by {
            assert(rest[i] == raw[i + 1]);
        }
        ascii_leads(rest, (n - 1) as nat);
        if raw.len() >= n {
            assert(seq![raw[0]] + rest.take(n - 1) =~= raw.take(n as int));
        }
    } else if n == 0 {
        assert(raw.take(0) =~= Seq::<char>::empty());
    }
}

/// What a flush has to write is what was said behind what is written already, in order, and never the system prompt.
pub proof fn a_flush_leaves_out_the_prompt(conversation: Seq<MessageView>, cursor: SessionCursor)
    requires
        conversation.len() >= 1,
    ensures
        cursor.persisted_len + 1 < conversation.len() ==> {
            let tail = unwritten(conversation, cursor);
            &&& tail.len() == conversation.len() - 1 - cursor.persisted_len
            &&& forall|i: int| 0 <= i < tail.len() ==> #[trigger] tail[i] == conversation[1 + cursor.persisted_len + i]
        },
        cursor.persisted_len + 1 >= conversation.len() ==> unwritten(conversation, cursor).len() == 0,
{
}

/// Where a session was not saved the message tells why.
pub proof fn a_failed_flush_tells_why(error: Seq<char>)
    ensures
        flush_failure(error).len() >= error.len(),
        flush_failure(error).skip(flush_failure(error).len() - error.len()) == error,
{
    assert(flush_failure(error).skip(flush_failure(error).len() - error.len()) =~= error);
}

} // verus!
