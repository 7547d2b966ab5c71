use jell_machine::dispatch::{
    invoke_command, menu_event_actions, quit, registered_commands, CommandError, HostAction,
};
use jell_machine::menu::{build_menu, MenuEntry};
use jell_machine::text::{owned, same_text};

#[test]
fn unknown_menu_items_ask_nothing() {
    for id in ["about", "", "Quit", "quit ", "reloa", "reload2", "separator"] {
        assert!(menu_event_actions(id).is_empty(), "{id:?}");
    }
}

#[test]
fn reload_item_evaluates_reload_script_once() {
    let actions = menu_event_actions("reload");
    assert_eq!(actions.len(), 1);
    match &actions[0] {
        HostAction::Eval(script) => assert_eq!(script, "location.reload();"),
        HostAction::Exit(_) => panic!("reload must not exit"),
    }
}

#[test]
fn quit_item_exits_once_with_zero() {
    let actions = menu_event_actions("quit");
    assert_eq!(actions.len(), 1);
    assert!(matches!(actions[0], HostAction::Exit(0)));
}

#[test]
fn quit_command_exits_once_with_zero() {
    let actions = quit();
    assert_eq!(actions.len(), 1);
    assert!(matches!(actions[0], HostAction::Exit(0)));
}

#[test]
fn menu_has_one_untitled_submenu_in_order() {
    let menu = build_menu();
    assert_eq!(menu.submenus.len(), 1);
    let sub = &menu.submenus[0];
    assert_eq!(sub.title, "");
    assert_eq!(sub.items.len(), 4);
    match &sub.items[0] {
        MenuEntry::About(name) => assert_eq!(name, "Jell Machine"),
        _ => panic!("first entry must be About"),
    }
    match &sub.items[1] {
        MenuEntry::Custom(item) => {
            assert_eq!(item.id, "reload");
            assert_eq!(item.title, "Reload");
            assert_eq!(item.accelerator.as_deref(), Some("CommandOrControl+R"));
        }
        _ => panic!("second entry must be the reload item"),
    }
    assert!(matches!(sub.items[2], MenuEntry::Separator));
    assert!(matches!(sub.items[3], MenuEntry::Quit));
}

#[test]
fn menu_has_exactly_one_custom_item() {
    let menu = build_menu();
    let customs = menu.submenus[0]
        .items
        .iter()
        .filter(|e| matches!(e, MenuEntry::Custom(_)))
        .count();
    assert_eq!(customs, 1);
}

#[test]
fn only_quit_command_is_registered() {
    let commands = registered_commands();
    assert_eq!(commands.len(), 1);
    assert_eq!(commands[0].name, "quit");
    assert!(commands[0].params.is_empty());
}

#[test]
fn invoking_quit_command_exits() {
    let actions = invoke_command("quit").ok().expect("quit is registered");
    assert_eq!(actions.len(), 1);
    assert!(matches!(actions[0], HostAction::Exit(0)));
}

#[test]
fn invoking_unknown_command_is_not_found() {
    match invoke_command("reload") {
        Err(CommandError::NotFound(name)) => assert_eq!(name, "reload"),
        Ok(_) => panic!("reload is no command"),
    }
    assert!(invoke_command("").is_err());
}

#[test]
fn same_text_compares_characters() {
    assert!(same_text("", ""));
    assert!(same_text("héllo", "héllo"));
    assert!(!same_text("héllo", "hello"));
    assert!(!same_text("quit", "quits"));
    assert!(!same_text("quit", "Quit"));
    assert_eq!(owned("Jell Machine"), "Jell Machine");
}
