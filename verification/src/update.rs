//! The inbound event model.
//!
//! One `Update` is one message event delivered by the messaging
//! platform.  The library keeps only the fields the dispatch logic
//! reads: where the message sits (chat id, message id), what kind of
//! chat it arrived in, which structural kind of message it is, its text
//! if it has one, and whether it names a sending user.

use vstd::prelude::*;

verus! {

/// The kind of chat an update arrived in: a one-to-one chat with a
/// single user, or one of the public chat forms.
#[derive(Clone, Copy, Debug, PartialEq, Eq, Structural)]
pub enum ChatType {
    Private,
    Group,
    Supergroup,
    Channel,
}

/// The structural kind of a message.  The first six variants are the
/// platform-generated service notifications this bot removes; `Other`
/// stands for every remaining kind, user-authored text included.
#[derive(Clone, Copy, Debug, PartialEq, Eq, Structural)]
pub enum MessageTag {
    NewChatMembers,
    LeftChatMember,
    GroupChatCreated,
    SupergroupChatCreated,
    ChannelChatCreated,
    Pinned,
    Other,
}

/// One inbound update, reduced to the fields the dispatch logic reads.
pub struct Update {
    /// Identifier of the chat the message belongs to.
    pub chat_id: i64,
    /// Identifier of the message within its chat.
    pub message_id: i32,
    /// Kind of the chat.
    pub chat: ChatType,
    /// Structural kind of the message.
    pub tag: MessageTag,
    /// The message text, where the message carries one.
    pub text: Option<String>,
    /// Whether the message names a sending user.
    pub has_sender: bool,
}

/// The mathematical image of an `Update`: the same fields with the
/// text as a sequence of characters.
pub struct UpdateView {
    pub chat_id: i64,
    pub message_id: i32,
    pub chat: ChatType,
    pub tag: MessageTag,
    pub text: Option<Seq<char>>,
    pub has_sender: bool,
}

impl View for Update {
    type V = UpdateView;

    open spec fn view(&self) -> UpdateView {
        UpdateView {
            chat_id: self.chat_id,
            message_id: self.message_id,
            chat: self.chat,
            tag: self.tag,
            text: match self.text {
                Option::Some(t) => Option::Some(t@),
                Option::None => Option::None,
            },
            has_sender: self.has_sender,
        }
    }
}

/// Whether a chat kind is the one-to-one kind.
pub open spec fn is_private_chat(c: ChatType) -> bool {
    c == ChatType::Private
}

/// Whether a message kind is one of the service notifications the bot
/// removes.
pub open spec fn is_service_kind(t: MessageTag) -> bool {
    ||| t == MessageTag::NewChatMembers
    ||| t == MessageTag::LeftChatMember
    ||| t == MessageTag::GroupChatCreated
    ||| t == MessageTag::SupergroupChatCreated
    ||| t == MessageTag::ChannelChatCreated
    ||| t == MessageTag::Pinned
}

/// Runtime test for `is_service_kind`.
pub fn is_service_message(tag: &MessageTag) -> (r: bool)
    ensures
        r == is_service_kind(*tag),
{
    match tag {
        MessageTag::NewChatMembers => true,
        MessageTag::LeftChatMember => true,
        MessageTag::GroupChatCreated => true,
        MessageTag::SupergroupChatCreated => true,
        MessageTag::ChannelChatCreated => true,
        MessageTag::Pinned => true,
        MessageTag::Other => false,
    }
}

/// Runtime test for `is_private_chat`.
pub fn is_private(c: &ChatType) -> (r: bool)
    ensures
        r == is_private_chat(*c),
{
    match c {
        ChatType::Private => true,
        _ => false,
    }
}

} // verus!
