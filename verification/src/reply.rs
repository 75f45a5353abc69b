//! The two handlers' decisions, as data.
//!
//! A handler never performs a network call itself; it returns a plan
//! of the one call to make.  `SendPlan` describes one outbound
//! message, `DeletePlan` one delete operation.  The command handler is
//! `command_reply`; the deleter is the pair `deleter_plan` (the delete
//! to attempt) and `deleter_followup` (the warning owed when the
//! delete failed).

use vstd::prelude::*;
use vstd::string::StringExecFns;

use crate::command::Command;
use crate::texts::add_to_group_label;
use crate::texts::delete_warning_text;
use crate::texts::get_add_to_group_label;
use crate::texts::get_delete_warning_text;
use crate::texts::get_help_text;
use crate::texts::get_start_texts_group;
use crate::texts::get_start_texts_private;
use crate::texts::help_text;
use crate::texts::start_group_text;
use crate::texts::start_private_text;
use crate::update::ChatType;
use crate::update::Update;
use crate::update::UpdateView;
use crate::update::is_private;
use crate::update::is_private_chat;

verus! {

/// An interactive button attached to an outbound message: a caption
/// and the URL it opens.
pub struct LinkButton {
    pub label: String,
    pub url: String,
}

/// One outbound message: the chat to send into, the text, and an
/// optional interactive button.
pub struct SendPlan {
    pub chat_id: i64,
    pub text: String,
    pub button: Option<LinkButton>,
}

/// One delete operation: the message to remove, named by chat id and
/// message id.
#[derive(Clone, Copy, Debug, PartialEq, Eq, Structural)]
pub struct DeletePlan {
    pub chat_id: i64,
    pub message_id: i32,
}

/// The mathematical image of a `LinkButton`.
pub struct LinkView {
    pub label: Seq<char>,
    pub url: Seq<char>,
}

/// The mathematical image of a `SendPlan`.
pub struct SendView {
    pub chat_id: i64,
    pub text: Seq<char>,
    pub link: Option<LinkView>,
}

impl View for LinkButton {
    type V = LinkView;

    open spec fn view(&self) -> LinkView {
        LinkView { label: self.label@, url: self.url@ }
    }
}

impl View for SendPlan {
    type V = SendView;

    open spec fn view(&self) -> SendView {
        SendView {
            chat_id: self.chat_id,
            text: self.text@,
            link: match self.button {
                Option::Some(b) => Option::Some(b@),
                Option::None => Option::None,
            },
        }
    }
}

/// The image of an optional `SendPlan`.
pub open spec fn send_opt_view(p: Option<SendPlan>) -> Option<SendView> {
    match p {
        Option::Some(s) => Option::Some(s@),
        Option::None => Option::None,
    }
}

/// The deep link that invites the bot into a group, built from the
/// bot's own username.
pub open spec fn start_url_spec(username: Seq<char>) -> Seq<char> {
    "https://t.me/"@ + username + "?startgroup=true"@
}

/// What the command handler sends, given the command, the chat it came
/// from and the bot's username: `/help` answers with the fixed help
/// text everywhere; `/start` answers with the private welcome plus the
/// add-to-group button in a private chat, and with the shorter group
/// welcome and no button in a public chat.
pub open spec fn command_reply_spec(
    cmd: Command,
    chat: ChatType,
    chat_id: i64,
    username: Seq<char>,
) -> SendView {
    match cmd {
        Command::Help => SendView { chat_id, text: help_text(), link: Option::None },
        Command::Start => {
            if is_private_chat(chat) {
                SendView {
                    chat_id,
                    text: start_private_text(),
                    link: Option::Some(
                        LinkView { label: add_to_group_label(), url: start_url_spec(username) },
                    ),
                }
            } else {
                SendView { chat_id, text: start_group_text(), link: Option::None }
            }
        },
    }
}

/// Build the add-to-group deep link for a username.
pub fn start_group_url(bot_username: &str) -> (r: String)
    ensures
        r@ == start_url_spec(bot_username@),
{
    let mut url = String::from_str("https://t.me/");
    url.append(bot_username);
    url.append("?startgroup=true");
    url
}

/// The command handler: decide the one message to send.
pub fn command_reply(cmd: Command, chat: &ChatType, chat_id: i64, bot_username: &str) -> (r:
    SendPlan)
    ensures
        r@ == command_reply_spec(cmd, *chat, chat_id, bot_username@),
{
    match cmd {
        Command::Help => SendPlan {
            chat_id,
            text: String::from_str(get_help_text()),
            button: Option::None,
        },
        Command::Start => {
            if is_private(chat) {
                SendPlan {
                    chat_id,
                    text: String::from_str(get_start_texts_private()),
                    button: Option::Some(
                        LinkButton {
                            label: String::from_str(get_add_to_group_label()),
                            url: start_group_url(bot_username),
                        },
                    ),
                }
            } else {
                SendPlan {
                    chat_id,
                    text: String::from_str(get_start_texts_group()),
                    button: Option::None,
                }
            }
        },
    }
}

/// The warning the deleter owes after a failed delete: one plain-text
/// message into the same chat, owed exactly when the delete failed and
/// the message named a sending user.
pub open spec fn deleter_followup_spec(u: UpdateView, deleted: bool) -> Option<SendView> {
    if !deleted && u.has_sender {
        Option::Some(
            SendView { chat_id: u.chat_id, text: delete_warning_text(), link: Option::None },
        )
    } else {
        Option::None
    }
}

/// The deleter's first step: the one delete to attempt, aimed at the
/// update's own chat id and message id.
pub fn deleter_plan(u: &Update) -> (r: DeletePlan)
    ensures
        r.chat_id == u.chat_id,
        r.message_id == u.message_id,
{
    DeletePlan { chat_id: u.chat_id, message_id: u.message_id }
}

/// The deleter's second step, after the delete attempt came back:
/// nothing on success, the fixed warning on failure — where the
/// message named a sender to warn about.
pub fn deleter_followup(u: &Update, deleted: bool) -> (r: Option<SendPlan>)
    ensures
        send_opt_view(r) == deleter_followup_spec(u@, deleted),
{
    if !deleted && u.has_sender {
        Option::Some(
            SendPlan {
                chat_id: u.chat_id,
                text: String::from_str(get_delete_warning_text()),
                button: Option::None,
            },
        )
    } else {
        Option::None
    }
}

} // verus!
