use beeper_automations::config::Config;
use beeper_automations::config_screen::ConfigScreen;
use beeper_automations::keys::Key;
use beeper_automations::loading_screen::LoadingScreen;
use beeper_automations::main_screen::{MainScreen, MenuOption};
use beeper_automations::models::{AutomationType, LoopUntil, NotificationAutomation};
use beeper_automations::notification_screen::{
    AutomationForm, ChatSelector, NotificationScreen, ScreenAction, ScreenState,
};

#[test]
fn main_menu_navigates_and_selects() {
    let mut screen = MainScreen::new(Config::default());
    assert_eq!(screen.total_items(), 4);
    assert_eq!(screen.get_selected_option(), MenuOption::Module(0));

    assert_eq!(screen.handle_key(Key::Up), None);
    assert_eq!(screen.get_selected_option(), MenuOption::Exit);
    assert_eq!(screen.handle_key(Key::Down), None);
    assert_eq!(screen.get_selected_option(), MenuOption::Module(0));
    screen.handle_key(Key::Down);
    screen.handle_key(Key::Down);
    assert_eq!(screen.get_selected_option(), MenuOption::ChangeConfiguration);
    assert_eq!(screen.handle_key(Key::Enter), Some(MenuOption::ChangeConfiguration));
    assert_eq!(screen.message, "Opening configuration...");
    assert_eq!(screen.handle_key(Key::Char('q')), Some(MenuOption::Exit));
}

#[test]
fn config_screen_edits_and_finishes() {
    let mut config = Config::default();
    config.api.url = String::new();
    let mut screen = ConfigScreen::new(config);

    // enter with an empty field complains
    assert!(!screen.handle_key(Key::Enter));
    assert_eq!(screen.message, "Please fill in both URL and token");

    screen.handle_key(Key::Char('u'));
    assert_eq!(screen.url_input, "u");
    assert!(!screen.handle_key(Key::Tab));
    screen.handle_key(Key::Char('t'));
    screen.handle_key(Key::Char('x'));
    screen.handle_key(Key::Backspace);
    assert_eq!(screen.token_input, "t");
    assert!(screen.handle_key(Key::Enter));

    let updated = screen.into_config();
    assert_eq!(updated.api.url, "u");
    assert_eq!(updated.api.token, "t");
}

#[test]
fn loading_screen_spins() {
    let mut screen = LoadingScreen::new("Working...".to_string());
    let first = screen.get_spinner();
    screen.advance();
    let second = screen.get_spinner();
    assert_ne!(first, second);
    screen.advance();
    screen.advance();
    screen.advance();
    assert_eq!(screen.get_spinner(), first);
}

#[test]
fn list_deletes_selected_rule() {
    let rules = vec![
        NotificationAutomation::new("a".to_string(), "First".to_string(), vec![]),
        NotificationAutomation::new("b".to_string(), "Second".to_string(), vec![]),
    ];
    let mut screen = NotificationScreen::new(rules);
    screen.handle_list_key(Key::Down);
    let action = screen.handle_list_key(Key::Char('d'));
    assert!(matches!(action, ScreenAction::Save));
    assert_eq!(screen.automations.len(), 1);
    assert_eq!(screen.automations[0].id, "a");
    assert_eq!(screen.selected_index, 0);
    assert_eq!(screen.message, "Deleted automation: Second");
}

#[test]
fn form_round_trips_a_rule() {
    let mut rule = NotificationAutomation::new(
        "id-9".to_string(),
        "Watcher".to_string(),
        vec!["c1".to_string()],
    );
    rule.automation_type = AutomationType::Loop;
    rule.loop_config = Some(beeper_automations::models::LoopConfig {
        until: LoopUntil::ForATime,
        time: Some(1500),
        check_interval: 2000,
    });
    rule.notification_sound = Some("ding.wav".to_string());

    let form = AutomationForm::from_automation(&rule);
    assert_eq!(form.id.as_deref(), Some("id-9"));
    assert_eq!(form.loop_time, "1500");
    assert_eq!(form.check_interval, "2000");

    let back = form.to_automation();
    assert_eq!(back.id, "id-9");
    assert_eq!(back.name, "Watcher");
    assert_eq!(back.chat_ids, vec!["c1".to_string()]);
    let lc = back.loop_config.expect("a loop rule keeps its policy");
    assert_eq!(lc.until, LoopUntil::ForATime);
    assert_eq!(lc.time, Some(1500));
    assert_eq!(lc.check_interval, 2000);
    assert_eq!(back.notification_sound.as_deref(), Some("ding.wav"));
}

#[test]
fn fresh_form_gets_a_generated_id() {
    let mut form = AutomationForm::new();
    form.name = "New".to_string();
    let built = form.to_automation();
    assert_eq!(built.id.len(), 36);
    assert!(built.enabled);
    assert!(built.loop_config.is_none());
}

#[test]
fn submitting_a_nameless_form_is_refused() {
    let mut screen = NotificationScreen::new(vec![]);
    let form = AutomationForm::new();
    let action = screen.handle_form_key(form, false, Key::Enter);
    assert!(matches!(action, ScreenAction::Redraw));
    assert_eq!(screen.message, "Name cannot be empty!");
    assert!(screen.automations.is_empty());
}

#[test]
fn submitting_a_form_adds_the_rule() {
    let mut screen = NotificationScreen::new(vec![]);
    let mut form = AutomationForm::new();
    form.name = "Fresh".to_string();
    let action = screen.handle_form_key(form, false, Key::Enter);
    assert!(matches!(action, ScreenAction::Save));
    assert_eq!(screen.automations.len(), 1);
    assert_eq!(screen.automations[0].name, "Fresh");
    assert_eq!(screen.message, "Automation created!");
    assert!(matches!(screen.state, ScreenState::List));

    // persisting writes the rules into the configuration
    let mut config = Config::default();
    screen.save_to_config(&mut config);
    assert_eq!(config.notifications.automations.len(), 1);
    assert_eq!(config.notifications.automations[0].name, "Fresh");
}

#[test]
fn editing_replaces_the_rule_with_the_same_id() {
    let rules = vec![NotificationAutomation::new(
        "a".to_string(),
        "Old name".to_string(),
        vec![],
    )];
    let mut screen = NotificationScreen::new(rules);
    let mut form = AutomationForm::from_automation(&screen.automations[0]);
    form.name = "New name".to_string();
    let action = screen.handle_form_key(form, true, Key::Enter);
    assert!(matches!(action, ScreenAction::Save));
    assert_eq!(screen.automations.len(), 1);
    assert_eq!(screen.automations[0].name, "New name");
    assert_eq!(screen.message, "Automation updated!");
}

#[test]
fn chat_selector_filters_case_insensitively() {
    let mut selector = ChatSelector::new();
    selector.available_chats = vec![
        ("c1".to_string(), "Family Group".to_string()),
        ("c2".to_string(), "Work".to_string()),
    ];
    // the lowercased name must contain the lowercased filter
    selector.filter = "FAMILY".to_string();
    let shown = selector.filtered_chats();
    assert_eq!(shown.len(), 1);
    assert_eq!(shown[0].0, "c1");

    selector.filter = String::new();
    assert_eq!(selector.filtered_chats().len(), 2);
}

#[test]
fn chat_selector_adds_a_chat_once() {
    let mut screen = NotificationScreen::new(vec![]);
    let form = AutomationForm::new();
    let mut selector = ChatSelector::new();
    selector.available_chats = vec![("c1".to_string(), "One".to_string())];

    let action = screen.handle_chat_selector_key(form, selector, Key::Enter);
    assert!(matches!(action, ScreenAction::Redraw));
    let (form, selector) = match std::mem::replace(&mut screen.state, ScreenState::List) {
        ScreenState::SelectingChats(f, s) => (f, s),
        _ => panic!("the selector stays open"),
    };
    assert_eq!(form.chat_ids, vec!["c1".to_string()]);

    // adding the same chat again changes nothing
    let _ = screen.handle_chat_selector_key(form, selector, Key::Enter);
    match &screen.state {
        ScreenState::SelectingChats(f, _) => assert_eq!(f.chat_ids, vec!["c1".to_string()]),
        _ => panic!("the selector stays open"),
    }
}

#[test]
fn opening_the_chat_selector_asks_for_a_page() {
    let mut screen = NotificationScreen::new(vec![]);
    let mut form = AutomationForm::new();
    form.selected_field = 1;
    let action = screen.handle_form_key(form, false, Key::Enter);
    assert!(matches!(action, ScreenAction::LoadChats(None)));

    // the fetched page lands in the selector
    screen.chats_loaded(
        vec![("c1".to_string(), "One".to_string())],
        Some("cur".to_string()),
        false,
    );
    match &screen.state {
        ScreenState::SelectingChats(_, s) => {
            assert_eq!(s.available_chats.len(), 1);
            assert_eq!(s.cursor.as_deref(), Some("cur"));
            assert!(!s.has_more);
            assert!(!s.loading);
        },
        _ => panic!("the selector must be open"),
    }
}

#[test]
fn loop_config_requires_a_time_limit() {
    let mut screen = NotificationScreen::new(vec![]);
    let mut form = AutomationForm::new();
    form.automation_type = AutomationType::Loop;
    form.loop_until = LoopUntil::ForATime;
    form.loop_time = String::new();
    let _ = screen.handle_loop_config_key(form, Key::Enter);
    assert_eq!(screen.message, "Loop Time is required when 'For A Time' is selected!");
    assert!(matches!(screen.state, ScreenState::ConfiguringLoop(_)));
}

#[test]
fn loop_config_cycles_the_stop_condition() {
    let mut screen = NotificationScreen::new(vec![]);
    let mut form = AutomationForm::new();
    form.selected_field = 0;
    let _ = screen.handle_loop_config_key(form, Key::Char(' '));
    let form = match std::mem::replace(&mut screen.state, ScreenState::List) {
        ScreenState::ConfiguringLoop(f) => f,
        _ => panic!("the loop form stays open"),
    };
    assert_eq!(form.loop_until, LoopUntil::Answer);
}

#[test]
fn loop_config_accepts_only_digits() {
    let mut screen = NotificationScreen::new(vec![]);
    let mut form = AutomationForm::new();
    form.loop_until = LoopUntil::ForATime;
    form.selected_field = 1;
    let _ = screen.handle_loop_config_key(form, Key::Char('5'));
    let form = match std::mem::replace(&mut screen.state, ScreenState::List) {
        ScreenState::ConfiguringLoop(f) => f,
        _ => panic!("the loop form stays open"),
    };
    assert_eq!(form.loop_time, "5");
    let _ = screen.handle_loop_config_key(form, Key::Char('x'));
    match &screen.state {
        ScreenState::ConfiguringLoop(f) => assert_eq!(f.loop_time, "5"),
        _ => panic!("the loop form stays open"),
    }
}
