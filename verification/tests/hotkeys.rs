use lum::config::HotkeyConfig;
use lum::hotkeys::{parse_hotkey, validate_config, MOD_ALT, MOD_CTRL, MOD_SHIFT};

#[test]
fn parses_modifiers_and_function_keys() {
    assert_eq!(
        parse_hotkey("Ctrl+Shift+F12"),
        Ok((MOD_CTRL | MOD_SHIFT, 0x7b))
    );
    assert_eq!(parse_hotkey("Alt+Up"), Ok((MOD_ALT, 0x26)));
}

#[test]
fn rejects_bare_and_duplicate_shortcuts() {
    assert!(parse_hotkey("F5").is_err());
    let mut config = HotkeyConfig::default();
    config.boost = config.toggle_theme.clone();
    assert!(validate_config(&config).is_err());
}

#[test]
fn allows_bare_numpad_keys() {
    assert_eq!(parse_hotkey("Numpad1"), Ok((0, 0x61)));
    assert_eq!(parse_hotkey("NumpadSubtract"), Ok((0, 0x6d)));
    assert!(parse_hotkey("1").is_err());
}

use lum::hotkeys::{
    bindings, hotkey_action, hotkey_ids, listener_step, HotkeyAction, HotkeyManager, ListenerStep, ID_BOOST,
    ID_BRIGHTER, ID_DARKER, ID_DAY_NIGHT, ID_PAUSE, ID_THEME, MOD_WIN, WM_HOTKEY,
    WM_RELOAD_HOTKEYS,
};

#[test]
fn modifier_names_ignore_case_and_spacing() {
    assert_eq!(parse_hotkey(" ctrl + ALT + a "), Ok((MOD_CTRL | MOD_ALT, 0x41)));
    assert_eq!(parse_hotkey("Control+Windows+Z"), Ok((MOD_CTRL | MOD_WIN, 0x5a)));
    assert_eq!(parse_hotkey("Meta+Win+9"), Ok((MOD_WIN, 0x39)));
    assert_eq!(parse_hotkey("Shift++Home"), Ok((MOD_SHIFT, 0x24)));
    assert_eq!(parse_hotkey("Alt+page up"), Ok((MOD_ALT, 0x21)));
    assert_eq!(parse_hotkey("Alt+PageDown"), Ok((MOD_ALT, 0x22)));
    assert_eq!(parse_hotkey("Alt+Pause"), Ok((MOD_ALT, 0x13)));
}

#[test]
fn function_keys_accept_what_u32_parsing_accepts() {
    assert_eq!(parse_hotkey("Alt+F1"), Ok((MOD_ALT, 0x70)));
    assert_eq!(parse_hotkey("Alt+f24"), Ok((MOD_ALT, 0x87)));
    assert_eq!(parse_hotkey("Alt+F05"), Ok((MOD_ALT, 0x74)));
    // `+` separates pieces, so it never reaches the number.
    assert_eq!(parse_hotkey("Alt+F+3"), Err("unknown modifier ‘F’".to_string()));
    // A lone F is the letter key.
    assert_eq!(parse_hotkey("Alt+F"), Ok((MOD_ALT, 0x46)));
    let msg = "function keys must be F1 through F24".to_string();
    assert_eq!(parse_hotkey("Alt+F0"), Err(msg.clone()));
    assert_eq!(parse_hotkey("Alt+F25"), Err(msg.clone()));
    assert_eq!(parse_hotkey("Alt+F99999999999"), Err(msg.clone()));
    assert_eq!(parse_hotkey("Alt+F-1"), Err(msg.clone()));
    assert_eq!(parse_hotkey("Alt+Fx"), Err(msg));
}

#[test]
fn error_messages_name_the_offending_piece() {
    assert_eq!(
        parse_hotkey(""),
        Err("enter a shortcut or leave the field empty".to_string())
    );
    assert_eq!(
        parse_hotkey(" + + "),
        Err("enter a shortcut or leave the field empty".to_string())
    );
    assert_eq!(
        parse_hotkey("Hyper+Up"),
        Err("unknown modifier ‘Hyper’".to_string())
    );
    assert_eq!(
        parse_hotkey("Alt+Bogus+Up"),
        Err("unknown modifier ‘Bogus’".to_string())
    );
    assert_eq!(
        parse_hotkey("Alt+Escape"),
        Err("unsupported key ‘Escape’".to_string())
    );
    assert_eq!(
        parse_hotkey("F5"),
        Err("include Ctrl, Alt, Shift, or Win (numpad keys may be used alone)".to_string())
    );
    assert_eq!(
        parse_hotkey("Alt+é"),
        Err("unsupported key ‘é’".to_string())
    );
}

#[test]
fn validation_reports_the_first_binding_at_fault() {
    let config = HotkeyConfig::default();
    assert_eq!(validate_config(&config), Ok(()));

    let mut config = HotkeyConfig::default();
    config.boost = config.toggle_theme.clone();
    assert_eq!(
        validate_config(&config),
        Err("Boost: shortcut is already assigned".to_string())
    );

    let mut config = HotkeyConfig::default();
    config.darker = "Alt+Nope".to_string();
    assert_eq!(
        validate_config(&config),
        Err("Darker: unsupported key ‘Nope’".to_string())
    );

    // Blank shortcuts are skipped, so two blanks do not clash.
    let mut config = HotkeyConfig::default();
    config.darker = "  ".to_string();
    config.boost = String::new();
    assert_eq!(validate_config(&config), Ok(()));

    // The same combination written differently is a duplicate.
    let mut config = HotkeyConfig::default();
    config.brighter = " alt + up ".to_string();
    config.darker = "Alt+Up".to_string();
    assert_eq!(
        validate_config(&config),
        Err("Darker: shortcut is already assigned".to_string())
    );
}

#[test]
fn bindings_list_every_action_in_order() {
    let config = HotkeyConfig::default();
    let list = bindings(&config);
    let ids: Vec<i32> = list.iter().map(|b| b.0).collect();
    assert_eq!(ids, vec![ID_PAUSE, ID_BRIGHTER, ID_DARKER, ID_THEME, ID_DAY_NIGHT, ID_BOOST]);
    assert_eq!(list[0].1, "Toggle pause");
    assert_eq!(list[4].1, "Toggle day/night");
    assert_eq!(list[5].2, "Alt+F7");
}

#[test]
fn reload_plans_once_per_generation() {
    let mut config = HotkeyConfig::default();
    config.darker = String::new();
    config.boost = "Alt+Bogus".to_string();
    let mut manager = HotkeyManager::new(config);
    let mut applied = 0u64;
    let plan = manager.reload(&mut applied).expect("first reload registers");
    assert_eq!(applied, 1);
    let ids: Vec<i32> = plan.iter().map(|r| r.id).collect();
    assert_eq!(ids, vec![ID_PAUSE, ID_BRIGHTER, ID_THEME, ID_DAY_NIGHT, ID_BOOST]);
    assert_eq!(plan[0].label, "Toggle pause");
    assert_eq!(plan[0].outcome, Ok((MOD_ALT, 0x13)));
    assert_eq!(plan[4].outcome, Err("unsupported key ‘Bogus’".to_string()));
    assert!(manager.reload(&mut applied).is_none());
    assert_eq!(applied, 1);

    assert_eq!(manager.update(HotkeyConfig::default()), None);
    manager.set_listener_thread(42);
    assert_eq!(manager.update(HotkeyConfig::default()), Some(42));
    let plan = manager.reload(&mut applied).expect("update makes a reload due");
    assert_eq!(applied, 3);
    assert_eq!(plan.len(), 6);
}

#[test]
fn listener_messages_and_actions() {
    assert_eq!(listener_step(1, WM_RELOAD_HOTKEYS, 0), ListenerStep::Reload);
    assert_eq!(listener_step(1, WM_HOTKEY, 3), ListenerStep::Hotkey(3));
    assert_eq!(listener_step(1, 0x000F, 3), ListenerStep::Dispatch);
    assert_eq!(listener_step(0, WM_HOTKEY, 3), ListenerStep::Exit);
    assert_eq!(listener_step(-1, WM_RELOAD_HOTKEYS, 0), ListenerStep::Exit);
    assert_eq!(hotkey_ids(), [1, 2, 3, 4, 5, 6]);

    assert_eq!(hotkey_action(ID_PAUSE, "day"), Some(HotkeyAction::TogglePause));
    assert_eq!(hotkey_action(ID_BRIGHTER, "day"), Some(HotkeyAction::StepBrightness(5)));
    assert_eq!(hotkey_action(ID_DARKER, "day"), Some(HotkeyAction::StepBrightness(-5)));
    assert_eq!(hotkey_action(ID_THEME, "day"), Some(HotkeyAction::ToggleTheme));
    assert_eq!(hotkey_action(ID_DAY_NIGHT, "day"), Some(HotkeyAction::JumpTo(true)));
    assert_eq!(hotkey_action(ID_DAY_NIGHT, "morning"), Some(HotkeyAction::JumpTo(true)));
    assert_eq!(hotkey_action(ID_DAY_NIGHT, "evening"), Some(HotkeyAction::JumpTo(false)));
    assert_eq!(hotkey_action(ID_DAY_NIGHT, "night"), Some(HotkeyAction::JumpTo(false)));
    assert_eq!(hotkey_action(ID_BOOST, "night"), Some(HotkeyAction::Boost));
    assert_eq!(hotkey_action(99, "night"), None);
}

#[test]
fn spelling_order_and_aliases_do_not_change_a_shortcut() {
    let canonical = parse_hotkey("Ctrl+Shift+F12");
    assert_eq!(parse_hotkey(" shift + CONTROL ++ f12 "), canonical);
    assert_eq!(parse_hotkey("Shift+Ctrl+Shift+F12"), canonical);
    assert_eq!(parse_hotkey("+ctrl+shift+F12+"), canonical);
    assert_eq!(parse_hotkey("Meta+Numpad1"), parse_hotkey("win+NUMPAD1"));
}
