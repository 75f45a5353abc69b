use service_cleaner::command::{parse_command, Command};
use service_cleaner::reply::{command_reply, deleter_followup, deleter_plan, start_group_url};
use service_cleaner::router::{route, Route};
use service_cleaner::texts::{
    get_add_to_group_label, get_delete_warning_text, get_help_text, get_start_texts_group,
    get_start_texts_private,
};
use service_cleaner::update::{ChatType, MessageTag, Update};

fn update(tag: MessageTag, text: Option<&str>) -> Update {
    Update {
        chat_id: 42,
        message_id: 7,
        chat: ChatType::Group,
        tag,
        text: text.map(|t| t.to_string()),
        has_sender: true,
    }
}

#[test]
fn service_kinds_route_to_deleter() {
    let kinds = vec![
        MessageTag::NewChatMembers,
        MessageTag::LeftChatMember,
        MessageTag::GroupChatCreated,
        MessageTag::SupergroupChatCreated,
        MessageTag::ChannelChatCreated,
        MessageTag::Pinned,
    ];
    for tag in kinds {
        assert_eq!(route(&update(tag, None), "mybot"), Route::Delete);
    }
}

#[test]
fn commands_route_to_handler_regardless_of_kind() {
    assert_eq!(
        route(&update(MessageTag::NewChatMembers, Some("/start")), "mybot"),
        Route::Command(Command::Start)
    );
    assert_eq!(
        route(&update(MessageTag::Other, Some("/help")), "mybot"),
        Route::Command(Command::Help)
    );
    assert_eq!(
        route(&update(MessageTag::Pinned, Some("/help@mybot")), "mybot"),
        Route::Command(Command::Help)
    );
}

#[test]
fn other_updates_are_ignored() {
    assert_eq!(route(&update(MessageTag::Other, None), "mybot"), Route::Ignore);
    assert_eq!(route(&update(MessageTag::Other, Some("hello there")), "mybot"), Route::Ignore);
}

#[test]
fn unknown_commands_fall_through() {
    assert_eq!(route(&update(MessageTag::Other, Some("/frobnicate")), "mybot"), Route::Ignore);
    assert_eq!(route(&update(MessageTag::Pinned, Some("/frobnicate")), "mybot"), Route::Delete);
}

#[test]
fn parser_recognizes_both_verbs() {
    assert_eq!(parse_command("/start", "mybot"), Some(Command::Start));
    assert_eq!(parse_command("/help", "mybot"), Some(Command::Help));
}

#[test]
fn parser_is_case_insensitive() {
    assert_eq!(parse_command("/START", "mybot"), Some(Command::Start));
    assert_eq!(parse_command("/HeLp", "mybot"), Some(Command::Help));
}

#[test]
fn parser_accepts_own_mention_only() {
    assert_eq!(parse_command("/start@mybot", "mybot"), Some(Command::Start));
    assert_eq!(parse_command("/start@MyBot", "mybot"), Some(Command::Start));
    assert_eq!(parse_command("/start@mybot", "MyBot"), Some(Command::Start));
    assert_eq!(parse_command("/start@otherbot", "mybot"), None);
    assert_eq!(parse_command("/start@", "mybot"), None);
}

#[test]
fn parser_ignores_trailing_words() {
    assert_eq!(parse_command("/start now please", "mybot"), Some(Command::Start));
    assert_eq!(parse_command("/help@mybot more", "mybot"), Some(Command::Help));
}

#[test]
fn parser_rejects_non_commands() {
    assert_eq!(parse_command("", "mybot"), None);
    assert_eq!(parse_command("/", "mybot"), None);
    assert_eq!(parse_command("start", "mybot"), None);
    assert_eq!(parse_command(" /start", "mybot"), None);
    assert_eq!(parse_command("/startx", "mybot"), None);
    assert_eq!(parse_command("/helper", "mybot"), None);
}

#[test]
fn deleter_success_path() {
    let u = update(MessageTag::NewChatMembers, None);
    let plan = deleter_plan(&u);
    assert_eq!(plan.chat_id, 42);
    assert_eq!(plan.message_id, 7);
    assert!(deleter_followup(&u, true).is_none());
}

#[test]
fn deleter_failure_path_warns() {
    let u = update(MessageTag::NewChatMembers, None);
    let warning = deleter_followup(&u, false).expect("a warning is owed");
    assert_eq!(warning.chat_id, 42);
    assert_eq!(warning.text, get_delete_warning_text());
    assert_eq!(
        warning.text,
        "⚠️ Couldn't delete the service message. \nCould be missing admin privileges and/or permission to delete messages."
    );
    assert!(warning.button.is_none());
}

#[test]
fn deleter_failure_without_sender_stays_silent() {
    let mut u = update(MessageTag::LeftChatMember, None);
    u.has_sender = false;
    assert!(deleter_followup(&u, false).is_none());
}

#[test]
fn start_in_private_chat_links_group_add() {
    let reply = command_reply(Command::Start, &ChatType::Private, 5, "examplebot");
    assert_eq!(reply.chat_id, 5);
    assert_eq!(reply.text, get_start_texts_private());
    let button = reply.button.expect("the private welcome carries a button");
    assert_eq!(button.label, "Add me to your group.");
    assert_eq!(button.url, "https://t.me/examplebot?startgroup=true");
    assert!(button.url.contains("examplebot"));
    assert!(button.url.contains("startgroup=true"));
}

#[test]
fn start_in_public_chat_has_no_link() {
    for chat in [ChatType::Group, ChatType::Supergroup, ChatType::Channel] {
        let reply = command_reply(Command::Start, &chat, 5, "examplebot");
        assert_eq!(reply.text, get_start_texts_group());
        assert!(reply.button.is_none());
    }
}

#[test]
fn help_reply_is_the_same_everywhere() {
    for chat in [ChatType::Private, ChatType::Group, ChatType::Supergroup, ChatType::Channel] {
        let reply = command_reply(Command::Help, &chat, 9, "examplebot");
        assert_eq!(reply.chat_id, 9);
        assert_eq!(reply.text, get_help_text());
        assert!(reply.button.is_none());
    }
}

#[test]
fn start_group_url_builds_the_deep_link() {
    assert_eq!(start_group_url("somebot"), "https://t.me/somebot?startgroup=true");
    assert_eq!(start_group_url(""), "https://t.me/?startgroup=true");
}

#[test]
fn button_label_text_is_fixed() {
    assert_eq!(get_add_to_group_label(), "Add me to your group.");
}

#[test]
fn welcome_texts_have_expected_values() {
    assert_eq!(
        get_start_texts_private(),
        "👋 Hello! I'm a bot that automatically deletes system messages.\n\nAdd me to your group and promote me to admin and give me privileges to delete messages.\n\nI will automatically remove:\n• User joined messages\n• User left messages\n• Group creation messages\n• Pinned messages warnings\n\nClick the button bellow to start."
    );
    assert_eq!(
        get_start_texts_group(),
        "👋 Hello! I'm a bot that automatically deletes system messages.\n\nGive me admin permissions, and privileges to delete messages.\n\nI will automatically remove:\n• User joined messages\n• User left messages\n• Group creation messages\n• Pinned messages warnings"
    );
}

#[test]
fn help_text_has_expected_value() {
    assert_eq!(
        get_help_text(),
        "🤖 What I do:\n• Automatically delete join/leave notifications\n• Keep your chat clean from service messages\n• Work silently in the background\n\nSetup:\n1 - Add this bot to your group\n2 - Make the bot an admin\n3 - Give it permission to delete messages\n\nNote: Admin privileges is necessary to delete messages!"
    );
}
