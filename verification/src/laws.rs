//! The dispatch laws.
//!
//! `dispatch_calls` names every outbound call one update gives rise
//! to, in order, as a function of the update, the bot's username and
//! the outcome of the delete attempt.  The proof functions below state
//! the guarantees of the router and the two handlers over that trace;
//! each is proved from the definitions alone.

use vstd::prelude::*;

use crate::command::Command;
use crate::command::parse_command_spec;
use crate::reply::LinkView;
use crate::reply::SendView;
use crate::reply::command_reply_spec;
use crate::reply::deleter_followup_spec;
use crate::reply::start_url_spec;
use crate::router::Route;
use crate::router::is_command_update;
use crate::router::route_spec;
use crate::texts::add_to_group_label;
use crate::texts::delete_warning_text;
use crate::texts::help_text;
use crate::update::ChatType;
use crate::update::UpdateView;
use crate::update::is_private_chat;
use crate::update::is_service_kind;

verus! {

/// One outbound call to the platform.
pub enum Call {
    /// `deleteMessage(chat_id, message_id)`.
    Delete { chat_id: i64, message_id: i32 },
    /// `sendMessage` with the given chat id, text and optional button.
    Send { message: SendView },
}

/// Every outbound call one update gives rise to, in order.  The
/// command path sends its one reply; the delete path attempts the one
/// delete and, where `deleter_followup_spec` owes a warning, sends it;
/// the ignored path calls nothing.  `delete_ok` is the outcome the
/// platform reports for the delete attempt; it matters only on the
/// delete path.
pub open spec fn dispatch_calls(u: UpdateView, username: Seq<char>, delete_ok: bool) -> Seq<
    Call,
> {
    match route_spec(u, username) {
        Route::Command(c) => seq![
            Call::Send { message: command_reply_spec(c, u.chat, u.chat_id, username) },
        ],
        Route::Delete => {
            let head = seq![Call::Delete { chat_id: u.chat_id, message_id: u.message_id }];
            match deleter_followup_spec(u, delete_ok) {
                Option::Some(m) => head + seq![Call::Send { message: m }],
                Option::None => head,
            }
        },
        Route::Ignore => Seq::empty(),
    }
}

/// An update is routed to exactly one path: to the command handler
/// exactly when its text parses as a command, to the deleter exactly
/// when it does not and the message is of a service kind, and to
/// silence otherwise.
pub proof fn lemma_route_partition(u: UpdateView, username: Seq<char>)
    ensures
        (route_spec(u, username) is Command) == is_command_update(u, username),
        (route_spec(u, username) == Route::Delete) == (!is_command_update(u, username)
            && is_service_kind(u.tag)),
        (route_spec(u, username) == Route::Ignore) == (!is_command_update(u, username)
            && !is_service_kind(u.tag)),
{
}

/// A service-kind update whose text invokes no command goes to the
/// deleter and to no other handler.
pub proof fn lemma_service_update_goes_to_deleter(u: UpdateView, username: Seq<char>)
    requires
        is_service_kind(u.tag),
        !is_command_update(u, username),
    ensures
        route_spec(u, username) == Route::Delete,
{
}

/// An update whose text parses as a command goes to the command
/// handler with that command, whatever the message's structural kind,
/// and gives rise to exactly one outbound call: the handler's reply.
pub proof fn lemma_command_update_goes_to_handler(
    u: UpdateView,
    username: Seq<char>,
    c: Command,
)
    requires
        u.text matches Some(t) && parse_command_spec(t, username) == Some(c),
    ensures
        route_spec(u, username) == Route::Command(c),
        forall|ok: bool|
            #[trigger] dispatch_calls(u, username, ok) =~= seq![
                Call::Send { message: command_reply_spec(c, u.chat, u.chat_id, username) },
            ],
{
}

/// Every other update is dropped: no handler runs and no outbound
/// call is made, whatever the platform would have answered.
pub proof fn lemma_other_update_ignored(u: UpdateView, username: Seq<char>)
    requires
        !is_command_update(u, username),
        !is_service_kind(u.tag),
    ensures
        route_spec(u, username) == Route::Ignore,
        forall|ok: bool| (#[trigger] dispatch_calls(u, username, ok)).len() == 0,
{
}

/// On the delete path, a successful delete gives rise to exactly one
/// outbound call — the delete itself — and to no message send.
pub proof fn lemma_deleter_success_calls(u: UpdateView, username: Seq<char>)
    requires
        route_spec(u, username) == Route::Delete,
    ensures
        dispatch_calls(u, username, true).len() == 1,
        dispatch_calls(u, username, true)[0] == (Call::Delete {
            chat_id: u.chat_id,
            message_id: u.message_id,
        }),
        forall|i: int|
            0 <= i < dispatch_calls(u, username, true).len() ==> !(#[trigger] dispatch_calls(
                u,
                username,
                true,
            )[i] is Send),
{
}

/// On the delete path, a failed delete on a message that named a
/// sender gives rise to exactly two outbound calls: the delete, then
/// one message send carrying the fixed warning text and no button.
pub proof fn lemma_deleter_failure_calls(u: UpdateView, username: Seq<char>)
    requires
        route_spec(u, username) == Route::Delete,
        u.has_sender,
    ensures
        dispatch_calls(u, username, false).len() == 2,
        dispatch_calls(u, username, false)[0] == (Call::Delete {
            chat_id: u.chat_id,
            message_id: u.message_id,
        }),
        dispatch_calls(u, username, false)[1] == (Call::Send {
            message: SendView {
                chat_id: u.chat_id,
                text: delete_warning_text(),
                link: Option::None,
            },
        }),
{
}

/// Whether `needle` occurs in `hay` starting at position `at`.
pub open spec fn contains_at(hay: Seq<char>, at: int, needle: Seq<char>) -> bool {
    &&& 0 <= at
    &&& at + needle.len() <= hay.len()
    &&& hay.subrange(at, at + needle.len()) == needle
}

/// The reply to `/start` in a private chat carries the interactive
/// add-to-group link, whose URL embeds the bot's own username and the
/// literal query parameter `startgroup=true`.
pub proof fn lemma_start_private_reply_links(chat_id: i64, username: Seq<char>)
    ensures
        command_reply_spec(Command::Start, ChatType::Private, chat_id, username).link == Some(
            LinkView { label: add_to_group_label(), url: start_url_spec(username) },
        ),
        contains_at(start_url_spec(username), 13, username),
        contains_at(start_url_spec(username), 14 + username.len() as int, "startgroup=true"@),
{
    reveal_strlit("https://t.me/");
    reveal_strlit("?startgroup=true");
    reveal_strlit("startgroup=true");
    let prefix = "https://t.me/"@;
    let suffix = "?startgroup=true"@;
    let bare = "startgroup=true"@;
    let url = start_url_spec(username);
    let ulen = username.len() as int;
    assert(prefix.len() == 13);
    assert(suffix.len() == 16);
    assert(bare.len() == 15);
    assert(url.subrange(13, 13 + ulen) =~= username);
    assert(suffix.subrange(1, 16) =~= bare);
    assert(url.subrange(14 + ulen, 29 + ulen) =~= suffix.subrange(1, 16));
}

/// The reply to `/start` in a public chat carries no link, and the
/// reply to `/help` carries none in any chat.
pub proof fn lemma_public_and_help_replies_plain(chat_id: i64, username: Seq<char>, chat: ChatType)
    ensures
        !is_private_chat(chat) ==> command_reply_spec(
            Command::Start,
            chat,
            chat_id,
            username,
        ).link is None,
        command_reply_spec(Command::Help, chat, chat_id, username) == (SendView {
            chat_id,
            text: help_text(),
            link: Option::None,
        }),
{
}

} // verus!
