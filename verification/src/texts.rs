//! The fixed texts the bot sends.
//!
//! Each text exists twice: a spec function giving its character
//! sequence, which the contracts speak of, and an executable function
//! returning the literal, proved to match.  The executable functions
//! are part of the library's public face.

use vstd::prelude::*;

verus! {

/// The welcome text sent for `/start` in a private chat.
pub open spec fn start_private_text() -> Seq<char> {
    "👋 Hello! I'm a bot that automatically deletes system messages.\n\nAdd me to your group and promote me to admin and give me privileges to delete messages.\n\nI will automatically remove:\n• User joined messages\n• User left messages\n• Group creation messages\n• Pinned messages warnings\n\nClick the button bellow to start."@
}

/// The welcome text sent for `/start` in a public chat.
pub open spec fn start_group_text() -> Seq<char> {
    "👋 Hello! I'm a bot that automatically deletes system messages.\n\nGive me admin permissions, and privileges to delete messages.\n\nI will automatically remove:\n• User joined messages\n• User left messages\n• Group creation messages\n• Pinned messages warnings"@
}

/// The text sent for `/help`.
pub open spec fn help_text() -> Seq<char> {
    "🤖 What I do:\n• Automatically delete join/leave notifications\n• Keep your chat clean from service messages\n• Work silently in the background\n\nSetup:\n1 - Add this bot to your group\n2 - Make the bot an admin\n3 - Give it permission to delete messages\n\nNote: Admin privileges is necessary to delete messages!"@
}

/// The warning posted into a chat when deleting a service message
/// failed.
pub open spec fn delete_warning_text() -> Seq<char> {
    "⚠️ Couldn't delete the service message. \nCould be missing admin privileges and/or permission to delete messages."@
}

/// The caption of the interactive "add me to a group" button.
pub open spec fn add_to_group_label() -> Seq<char> {
    "Add me to your group."@
}

/// The welcome text for `/start` in a private chat.
pub fn get_start_texts_private() -> (r: &'static str)
    ensures
        r@ == start_private_text(),
{
    "👋 Hello! I'm a bot that automatically deletes system messages.\n\nAdd me to your group and promote me to admin and give me privileges to delete messages.\n\nI will automatically remove:\n• User joined messages\n• User left messages\n• Group creation messages\n• Pinned messages warnings\n\nClick the button bellow to start."
}

/// The welcome text for `/start` in a public chat.
pub fn get_start_texts_group() -> (r: &'static str)
    ensures
        r@ == start_group_text(),
{
    "👋 Hello! I'm a bot that automatically deletes system messages.\n\nGive me admin permissions, and privileges to delete messages.\n\nI will automatically remove:\n• User joined messages\n• User left messages\n• Group creation messages\n• Pinned messages warnings"
}

/// The help text.
pub fn get_help_text() -> (r: &'static str)
    ensures
        r@ == help_text(),
{
    "🤖 What I do:\n• Automatically delete join/leave notifications\n• Keep your chat clean from service messages\n• Work silently in the background\n\nSetup:\n1 - Add this bot to your group\n2 - Make the bot an admin\n3 - Give it permission to delete messages\n\nNote: Admin privileges is necessary to delete messages!"
}

/// The warning posted when a delete attempt failed.
pub fn get_delete_warning_text() -> (r: &'static str)
    ensures
        r@ == delete_warning_text(),
{
    "⚠️ Couldn't delete the service message. \nCould be missing admin privileges and/or permission to delete messages."
}

/// The caption of the "add me to a group" button.
pub fn get_add_to_group_label() -> (r: &'static str)
    ensures
        r@ == add_to_group_label(),
{
    "Add me to your group."
}

} // verus!
