use console_wallet_ui::{App, BaseNodePeer, Effect, InputEvent, OverrideStatus};

const CFG_HEX: &str = "e2f2ae0a6abc4e71a884a961c500515f58e30b6aa582dd8db6a65945e08d2d76";
const CFG_ADDR: &str = "/ip4/1.2.3.4/tcp/18141";

fn new_app() -> App {
    let public_key = tari_crypto::tari_utilities::hex::from_hex(CFG_HEX).unwrap();
    let peer = BaseNodePeer { public_key, addresses: vec![CFG_ADDR.to_string()] };
    App::new("Tari Console Wallet".to_string(), Ok(None), Ok(None), peer)
}

#[test]
fn new_session_opens_three_tabs() {
    let app = new_app();
    assert_eq!(app.title, "Tari Console Wallet");
    assert!(!app.should_quit);
    assert_eq!(app.tabs.len(), 3);
    assert_eq!(app.tabs.selected(), 0);
    assert_eq!(app.tabs.titles(), &vec!["Transactions".to_string(), "Send/Receive".to_string(), "Network".to_string()]);
    assert_eq!(app.base_node.status, OverrideStatus::NotConfigured);
    assert_eq!(app.base_node.public_key_hex, CFG_HEX);
    assert_eq!(app.base_node.address, CFG_ADDR);
}

#[test]
fn advancing_once_per_tab_returns_to_start() {
    let mut app = new_app();
    app.on_right();
    assert_eq!(app.tabs.selected(), 1);
    app.on_right();
    assert_eq!(app.tabs.selected(), 2);
    app.on_right();
    assert_eq!(app.tabs.selected(), 0);
}

#[test]
fn retreat_wraps_and_undoes_advance() {
    let mut app = new_app();
    app.on_left();
    assert_eq!(app.tabs.selected(), 2);
    app.on_right();
    assert_eq!(app.tabs.selected(), 0);
    app.on_right();
    app.on_left();
    assert_eq!(app.tabs.selected(), 0);
}

#[test]
fn tab_key_advances_other_keys_go_to_tab() {
    let mut app = new_app();
    assert_eq!(app.on_key('\t'), None);
    assert_eq!(app.tabs.selected(), 1);
    assert_eq!(app.on_key('x'), Some(Effect::Key { tab: 1, key: 'x' }));
    assert_eq!(app.tabs.selected(), 1);
}

#[test]
fn navigation_goes_to_active_tab() {
    let mut app = new_app();
    app.on_right();
    app.on_right();
    assert_eq!(app.on_up(), Effect::Up { tab: 2 });
    assert_eq!(app.on_down(), Effect::Down { tab: 2 });
    assert_eq!(app.on_esc(), Effect::Esc { tab: 2 });
    assert_eq!(app.on_backspace(), Effect::Backspace { tab: 2 });
    assert_eq!(app.tabs.selected(), 2);
}

#[test]
fn tick_refreshes_before_tab_sees_it() {
    let mut app = new_app();
    app.on_right();
    assert_eq!(app.on_tick(), vec![Effect::RefreshState, Effect::Tick { tab: 1 }]);
    assert_eq!(app.handle(InputEvent::Tick), vec![Effect::RefreshState, Effect::Tick { tab: 1 }]);
}

#[test]
fn control_q_and_c_quit_others_do_not() {
    let mut app = new_app();
    app.on_control_key('x');
    assert!(!app.should_quit);
    app.on_control_key('c');
    assert!(app.should_quit);
    let mut app = new_app();
    app.on_control_key('q');
    assert!(app.should_quit);
}

#[test]
fn nothing_changes_after_quit() {
    let mut app = new_app();
    assert_eq!(app.handle(InputEvent::Right), vec![]);
    assert_eq!(app.tabs.selected(), 1);
    assert_eq!(app.handle(InputEvent::Control('q')), vec![]);
    assert!(app.should_quit);
    for ev in [InputEvent::Right, InputEvent::Left, InputEvent::Key('\t'), InputEvent::Key('a'), InputEvent::Up, InputEvent::Tick, InputEvent::Esc] {
        assert_eq!(app.handle(ev), vec![]);
        assert_eq!(app.tabs.selected(), 1);
        assert!(app.should_quit);
    }
}

#[test]
fn handle_dispatches_like_the_handlers() {
    let mut app = new_app();
    assert_eq!(app.handle(InputEvent::Key('k')), vec![Effect::Key { tab: 0, key: 'k' }]);
    assert_eq!(app.handle(InputEvent::Left), vec![]);
    assert_eq!(app.tabs.selected(), 2);
    assert_eq!(app.handle(InputEvent::Backspace), vec![Effect::Backspace { tab: 2 }]);
    assert_eq!(app.handle(InputEvent::Control('z')), vec![]);
    assert!(!app.should_quit);
}
