use macmatic::{Bot, Bounds, ErrorKind, InputAction, Rect, Window, WindowList, WindowPattern};

fn win(id: i64, name: &str) -> Window {
    Window::new(id, String::from(name), String::from("Owner"), Some(Bounds { x: 100, y: 50, width: 800, height: 600 }))
}

fn desktop() -> WindowList {
    WindowList::new(vec![win(1, "Finder"), win(2, "Terminal"), win(3, "Finder"), win(4, "Notes")])
}

fn ready_bot() -> Bot<u8> {
    let mut bot: Bot<u8> = Bot::new();
    bot.set_controller(7);
    bot.set_window_from_name(&desktop(), "Terminal");
    bot
}

#[test]
fn name_binding_takes_last_match() {
    let mut bot: Bot<u8> = Bot::new();
    bot.set_capture_frequency(5000);
    bot.set_window_from_name(&desktop(), "Finder");
    let w = bot.window.as_ref().unwrap();
    assert_eq!(w.id, 3);
    assert_eq!(w.capture_frequency, 5000);
}

#[test]
fn name_binding_without_match_unbinds() {
    let mut bot: Bot<u8> = Bot::new();
    bot.set_window_from_name(&desktop(), "Finder");
    bot.set_window_from_name(&desktop(), "Mail");
    assert!(bot.window.is_none());
}

#[test]
fn id_binding_selects_window() {
    let mut bot: Bot<u8> = Bot::new();
    bot.set_window_from_id(&desktop(), 4);
    assert_eq!(bot.window.as_ref().unwrap().name, "Notes");
    bot.set_window_from_id(&desktop(), 9);
    assert!(bot.window.is_none());
}

#[test]
fn regex_binding_takes_last_match() {
    let mut bot: Bot<u8> = Bot::new();
    bot.set_window_from_regex(&desktop(), "^(Fin|Term)").unwrap();
    assert_eq!(bot.window.as_ref().unwrap().id, 3);
    bot.set_window_from_regex(&desktop(), "min").unwrap();
    assert_eq!(bot.window.as_ref().unwrap().id, 2);
    bot.set_window_from_regex(&desktop(), "^x$").unwrap();
    assert!(bot.window.is_none());
}

#[test]
fn invalid_regex_is_reported() {
    let mut bot: Bot<u8> = Bot::new();
    bot.set_window_from_id(&desktop(), 2);
    let e = bot.set_window_from_regex(&desktop(), "(unclosed").unwrap_err();
    assert_eq!(e.kind, ErrorKind::InvalidPattern);
    assert_eq!(bot.window.as_ref().unwrap().id, 2);
    assert!(WindowPattern::new("[").is_err());
}

#[test]
fn operations_without_window_fail() {
    let mut bot: Bot<u8> = Bot::new();
    bot.set_controller(1);
    let pv = ErrorKind::PreconditionViolation;
    assert_eq!(bot.click::<char>(1, 1).unwrap_err().kind, pv);
    assert_eq!(bot.mouse_down_on::<char>(1, 1).unwrap_err().kind, pv);
    assert_eq!(bot.mouse_up_on::<char>(1, 1).unwrap_err().kind, pv);
    assert_eq!(bot.activate_window::<char>().unwrap_err().kind, pv);
    assert_eq!(bot.find(String::from("a.png"), 2, 2).unwrap_err().kind, pv);
    assert_eq!(bot.find_with_timeout(String::from("a.png"), 2, 2, 10).unwrap_err().kind, pv);
    assert_eq!(bot.click_on_image::<char>(&Rect::new(0, 0, 2, 2)).unwrap_err().kind, pv);
    assert_eq!(bot.key_down('a').unwrap_err().kind, pv);
    assert_eq!(bot.key_up('a').unwrap_err().kind, pv);
    assert_eq!(bot.key_click('a').unwrap_err().kind, pv);
    assert_eq!(bot.key_sequence::<char>("hi").unwrap_err().kind, pv);
    assert_eq!(bot.write::<char>("hi").unwrap_err().kind, pv);
    assert_eq!(bot.writeln::<char>("hi").unwrap_err().kind, pv);
}

#[test]
fn operations_without_controller_fail() {
    let mut bot: Bot<u8> = Bot::new();
    bot.set_window_from_id(&desktop(), 1);
    assert_eq!(bot.click::<char>(1, 1).unwrap_err().kind, ErrorKind::PreconditionViolation);
    assert_eq!(bot.key_click('a').unwrap_err().kind, ErrorKind::PreconditionViolation);
}

#[test]
fn window_without_bounds_cannot_be_clicked() {
    let mut bot: Bot<u8> = Bot::new();
    bot.set_controller(1);
    let list = WindowList::new(vec![Window::new(5, String::from("Bare"), String::from("O"), None)]);
    bot.set_window_from_id(&list, 5);
    assert_eq!(bot.click::<char>(1, 1).unwrap_err().kind, ErrorKind::PreconditionViolation);
}

#[test]
fn click_maps_and_sequences_events() {
    let bot = ready_bot();
    let plan = bot.click::<char>(40, 20).unwrap();
    assert_eq!(
        plan,
        vec![
            InputAction::MoveTo { x: 120, y: 60 },
            InputAction::Wait { millis: 90 },
            InputAction::MouseDown,
            InputAction::Wait { millis: 90 },
            InputAction::MouseUp,
        ]
    );
    let down = bot.mouse_down_on::<char>(40, 20).unwrap();
    assert_eq!(down, vec![InputAction::MoveTo { x: 120, y: 60 }, InputAction::Wait { millis: 90 }, InputAction::MouseDown]);
    let up = bot.mouse_up_on::<char>(3, 3).unwrap();
    assert_eq!(up, vec![InputAction::MoveTo { x: 101, y: 51 }, InputAction::Wait { millis: 90 }, InputAction::MouseUp]);
}

#[test]
fn dpi_ratio_and_wait_time_apply() {
    let mut bot = ready_bot();
    bot.set_high_dpi_ratio(1);
    bot.set_wait_time(5);
    let plan = bot.click::<char>(40, 20).unwrap();
    assert_eq!(plan[0], InputAction::MoveTo { x: 140, y: 70 });
    assert_eq!(plan[1], InputAction::Wait { millis: 5 });
}

#[test]
fn out_of_range_point_is_reported() {
    let mut bot: Bot<u8> = Bot::new();
    bot.set_controller(1);
    let far = Window::new(8, String::from("Far"), String::from("O"), Some(Bounds { x: u32::MAX, y: 0, width: 10, height: 10 }));
    bot.set_window_from_id(&WindowList::new(vec![far]), 8);
    assert_eq!(bot.click::<char>(0, 0).unwrap_err().kind, ErrorKind::CoordinateOutOfRange);
}

#[test]
fn activate_window_clicks_title_bar() {
    let bot = ready_bot();
    let plan = bot.activate_window::<char>().unwrap();
    assert_eq!(plan[0], InputAction::MoveTo { x: 500, y: 60 });
    assert_eq!(plan.len(), 5);
}

#[test]
fn click_on_image_clicks_center() {
    let bot = ready_bot();
    let (c, plan) = bot.click_on_image::<char>(&Rect::new(40, 20, 10, 6)).unwrap();
    assert_eq!(c, (45, 23));
    assert_eq!(plan[0], InputAction::MoveTo { x: 122, y: 61 });
    let e = bot.click_on_image::<char>(&Rect::new(u32::MAX, 0, 4, 4)).unwrap_err();
    assert_eq!(e.kind, ErrorKind::CoordinateOutOfRange);
}

#[test]
fn find_uses_window_rate_and_no_deadline() {
    let bot = ready_bot();
    let s = bot.find(String::from("ok.png"), 4, 3).unwrap();
    assert_eq!(s.timeout_ms, 0);
    assert_eq!(s.tick_ms, 333);
    assert_eq!((s.template_width, s.template_height), (4, 3));
    let s = bot.find_with_timeout(String::from("ok.png"), 4, 3, 2500).unwrap();
    assert_eq!(s.timeout_ms, 2500);
    assert_eq!(bot.find(String::from("bad.png"), 0, 3).unwrap_err().kind, ErrorKind::TemplateLoad);
}

#[test]
fn key_operations_pass_through() {
    let bot = ready_bot();
    assert_eq!(bot.key_down('a').unwrap(), vec![InputAction::KeyDown('a')]);
    assert_eq!(bot.key_up('b').unwrap(), vec![InputAction::KeyUp('b')]);
    assert_eq!(bot.key_click('c').unwrap(), vec![InputAction::KeyClick('c')]);
    assert_eq!(bot.key_sequence::<char>("hey").unwrap(), vec![InputAction::Type(String::from("hey"))]);
    assert_eq!(bot.write::<char>("x").unwrap(), vec![InputAction::Type(String::from("x"))]);
    assert_eq!(
        bot.writeln::<char>("ls").unwrap(),
        vec![InputAction::Type(String::from("ls")), InputAction::PressReturn]
    );
    assert_eq!(bot.sleep::<char>(250), vec![InputAction::Wait { millis: 250 }]);
}

#[test]
fn controller_is_reachable_for_performing() {
    let mut bot = ready_bot();
    *bot.controller_mut().unwrap() += 1;
    assert_eq!(bot.controller, Some(8));
}
