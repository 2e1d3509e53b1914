//! The conversation with the model.
use vstd::prelude::*;
use crate::text::views;

verus! {

/// Who speaks in a message.
#[derive(Debug, Clone, Copy, PartialEq, Eq, Structural)]
pub enum Role {
    System,
    User,
    Assistant,
    Tool,
}

/// A tool call: the tool's name and its arguments as JSON.
#[derive(Debug, Clone, PartialEq, Eq)]
pub struct ToolCall {
    pub name: String,
    pub arguments: String,
}

/// One message of a conversation.
#[derive(Debug, Clone, PartialEq, Eq)]
pub struct Message {
    pub role: Role,
    pub content: Option<String>,
    /// The data URLs of the images that come with the text.
    pub images: Vec<String>,
    /// The tool calls that an assistant message makes.
    pub tool_calls: Vec<ToolCall>,
    /// The call that a tool message answers.
    pub tool_call_id: Option<String>,
}

/// A tool call's contents.
pub struct CallView {
    pub name: Seq<char>,
    pub arguments: Seq<char>,
}

/// A message's contents.
pub struct MessageView {
    pub role: Role,
    pub content: Option<Seq<char>>,
    pub images: Seq<Seq<char>>,
    pub tool_calls: Seq<CallView>,
    pub tool_call_id: Option<Seq<char>>,
}

/// The contents of an optional text.
pub open spec fn text_view(text: Option<String>) -> Option<Seq<char>> {
    match text {
        Some(t) => Some(t@),
        None => None,
    }
}

impl View for ToolCall {
    type V = CallView;

    open spec fn view(&self) -> CallView {
        CallView { name: self.name@, arguments: self.arguments@ }
    }
}

impl View for Message {
    type V = MessageView;

    open spec fn view(&self) -> MessageView {
        MessageView {
            role: self.role,
            content: text_view(self.content),
            images: views(self.images@),
            tool_calls: Seq::new(self.tool_calls@.len(), |i: int| self.tool_calls@[i]@),
            tool_call_id: text_view(self.tool_call_id),
        }
    }
}

/// The contents of each message of a list.
pub open spec fn message_views(v: Seq<Message>) -> Seq<MessageView> {
    Seq::new(v.len(), |i: int| v[i]@)
}

impl MessageView {
    /// A message with text alone.
    pub open spec fn plain(role: Role, text: Seq<char>) -> MessageView {
        MessageView {
            role,
            content: Some(text),
            images: Seq::empty(),
            tool_calls: Seq::empty(),
            tool_call_id: None,
        }
    }

    /// The message says something: its text holds more than white space.
    pub open spec fn speaks(self) -> bool {
        self.content matches Some(t) && crate::text::trim(t).len() > 0
    }
}

impl Message {
    fn plain(role: Role, text: String) -> (r: Message)
        ensures
            r@ == MessageView::plain(role, text@),
    {
        let r: Message = Message {
            role,
            content: Some(text),
            images: Vec::new(),
            tool_calls: Vec::new(),
            tool_call_id: None,
        };
        assert(r@.images =~= Seq::<Seq<char>>::empty());
        assert(r@.tool_calls =~= Seq::<CallView>::empty());
        r
    }

    pub fn system(text: String) -> (r: Message)
        ensures
            r@ == MessageView::plain(Role::System, text@),
    {
        Message::plain(Role::System, text)
    }

    pub fn user(text: String) -> (r: Message)
        ensures
            r@ == MessageView::plain(Role::User, text@),
    {
        Message::plain(Role::User, text)
    }

    /// A user message with images.
    pub fn user_multimodal(text: String, images: Vec<String>) -> (r: Message)
        ensures
            r@ == (MessageView {
                images: views(images@),
                ..MessageView::plain(Role::User, text@)
            }),
    {
        let mut r: Message = Message::user(text);
        r.images = images;
        r
    }

    pub fn assistant_text(text: String) -> (r: Message)
        ensures
            r@ == MessageView::plain(Role::Assistant, text@),
    {
        Message::plain(Role::Assistant, text)
    }

    /// A tool's answer to the call `id`.
    pub fn tool_result(id: String, text: String) -> (r: Message)
        ensures
            r@ == (MessageView {
                tool_call_id: Some(id@),
                ..MessageView::plain(Role::Tool, text@)
            }),
    {
        let mut r: Message = Message::plain(Role::Tool, text);
        r.tool_call_id = Some(id);
        r
    }

    /// The message says something: its text holds more than white space.
    pub fn speaks(&self) -> (r: bool)
        ensures
            r == self@.speaks(),
    {
        match &self.content {
            Some(text) => !crate::text::trimmed(text.as_str()).as_str().is_empty(),
            None => false,
        }
    }
}

/// A conversation: the system prompt, then everything said.
#[derive(Debug, Clone, PartialEq, Eq)]
pub struct Conversation {
    messages: Vec<Message>,
}

impl View for Conversation {
    type V = Seq<MessageView>;

    closed spec fn view(&self) -> Seq<MessageView> {
        message_views(self.messages@)
    }
}

impl Conversation {
    /// The system prompt leads.
    pub open spec fn wf(self) -> bool {
        self@.len() >= 1
    }

    pub fn new(system_prompt: String) -> (r: Conversation)
        ensures
            r@ == seq![MessageView::plain(Role::System, system_prompt@)],
            r.wf(),
    {
        let mut messages: Vec<Message> = Vec::new();
        messages.push(Message::system(system_prompt));
        let r: Conversation = Conversation { messages };
        assert(r@ =~= seq![MessageView::plain(Role::System, system_prompt@)]);
        r
    }

    pub fn push(&mut self, message: Message)
        ensures
            final(self)@ == old(self)@.push(message@),
            old(self).wf() ==> final(self).wf(),
    {
        self.messages.push(message);
        assert(self@ =~= old(self)@.push(message@));
    }

    pub fn messages(&self) -> (r: &Vec<Message>)
        ensures
            message_views(r@) == self@,
    {
        &self.messages
    }
}

} // verus!
