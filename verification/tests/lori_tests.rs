use lori::host::{await_key_state, await_window_size, Wait, button_code, key_text, mouse_button_call, Answer, Host, MouseButton, Query};
use lori::keys::KeyState;
use lori::print::{
    dbugln, erorln, errorln, infoln, sdbugln, serorln, vbosln, warnln, LogLine, Stream,
};
use lori::script::{on_load, Callback, Callbacks, Found, LoriToMainCall, PrimitiveKind};
use lori::thing::LoriThing;

fn badge_code_matches(line: &LogLine, bg: &str, message: &str) {
    let plain = format!("   {}", message);
    let colored = format!("\x1b[1;{};30m \x1b[0m  {}", bg, message);
    assert!(
        line.text == plain || line.text == colored,
        "unexpected line {:?}",
        line.text
    );
}

#[test]
fn info_and_warn_go_to_stdout_with_their_badges() {
    let l = infoln("hello");
    assert_eq!(l.stream, Stream::Out);
    badge_code_matches(&l, "42", "hello");
    let l = warnln("careful");
    assert_eq!(l.stream, Stream::Out);
    badge_code_matches(&l, "43", "careful");
}

#[test]
fn error_lines_go_to_stderr_with_a_bright_red_badge() {
    let l = erorln("bad");
    assert_eq!(l.stream, Stream::Error);
    badge_code_matches(&l, "101", "bad");
    let l = serorln(String::from("worse"));
    assert_eq!(l.stream, Stream::Error);
    badge_code_matches(&l, "101", "worse");
    let e = std::io::Error::other("disk gone");
    let l = errorln(&e);
    assert_eq!(l.stream, Stream::Error);
    badge_code_matches(&l, "101", "disk gone");
}

#[test]
fn debug_and_verbose_lines_use_purple_and_blue() {
    let l = dbugln("d");
    assert_eq!(l.stream, Stream::Out);
    badge_code_matches(&l, "45", "d");
    let l = sdbugln(String::from("sd"));
    assert_eq!(l.stream, Stream::Out);
    badge_code_matches(&l, "45", "sd");
    let l = vbosln("v");
    assert_eq!(l.stream, Stream::Out);
    badge_code_matches(&l, "44", "v");
}

#[test]
fn badge_is_not_the_bare_message() {
    let l = infoln("x");
    assert_ne!(l.text, "x");
    assert!(l.text.ends_with("  x"));
    assert!(l.text.len() >= 4);
}

#[test]
fn callbacks_are_looked_up_in_order_under_their_lua_names() {
    let all = Callback::all();
    let names: Vec<&str> = all.iter().map(|c| c.lua_name()).collect();
    assert_eq!(
        names,
        vec![
            "load", "keypressed", "keyreleased", "mousepressed", "mousereleased",
            "mousemoved", "mousescrolled", "update", "render", "exit"
        ]
    );
    let labels: Vec<&str> = all.iter().map(|c| c.label()).collect();
    assert_eq!(
        labels,
        vec![
            "Load", "KeyPressed", "KeyReleased", "MousePressed", "MouseReleased",
            "MouseMoved", "MouseScrolled", "Update", "Render", "Exit"
        ]
    );
}

#[test]
fn every_call_gets_its_reply_and_update_is_answered_with_draw() {
    let expected = vec![
        LoriToMainCall::Load,
        LoriToMainCall::Keypressed,
        LoriToMainCall::Keyreleased,
        LoriToMainCall::Mousepressed,
        LoriToMainCall::Mousereleased,
        LoriToMainCall::MouseMoved,
        LoriToMainCall::MouseScrolled,
        LoriToMainCall::Draw,
        LoriToMainCall::Render,
        LoriToMainCall::Exit,
    ];
    let replies: Vec<LoriToMainCall> = Callback::all().into_iter().map(|c| c.reply()).collect();
    assert_eq!(replies, expected);
    // distinct calls, distinct replies
    for i in 0..replies.len() {
        for j in 0..replies.len() {
            assert_eq!(i == j, replies[i] == replies[j]);
        }
        assert_ne!(replies[i], LoriToMainCall::GetWindowSize);
    }
}

#[test]
fn dispatch_invokes_only_defined_callbacks_and_stops_on_exit() {
    let mut cbs = Callbacks::new();
    assert!(cbs.on_lookup(Callback::Update, Found::Function, false).is_none());
    assert!(cbs.on_lookup(Callback::Render, Found::Nil, false).is_none());
    assert!(cbs.is_defined(Callback::Update));
    assert!(!cbs.is_defined(Callback::Render));

    let s = cbs.dispatch(Callback::Update);
    assert!(s.invoke);
    assert_eq!(s.reply, LoriToMainCall::Draw);
    assert!(!s.finish);

    let s = cbs.dispatch(Callback::Render);
    assert!(!s.invoke);
    assert_eq!(s.reply, LoriToMainCall::Render);
    assert!(!s.finish);

    let s = cbs.dispatch(Callback::Exit);
    assert!(!s.invoke);
    assert_eq!(s.reply, LoriToMainCall::Exit);
    assert!(s.finish);
}

#[test]
fn verbose_lookup_reports_loaded_functions() {
    let mut cbs = Callbacks::new();
    let log = cbs.on_lookup(Callback::MouseMoved, Found::Function, true).unwrap();
    assert_eq!(log.stream, Stream::Out);
    badge_code_matches(&log, "44", "Loaded function 'MouseMoved'");
    assert!(cbs.on_lookup(Callback::Exit, Found::Other, true).is_none());
    assert!(cbs.on_lookup(Callback::Exit, Found::Nil, true).is_none());
    assert!(!cbs.is_defined(Callback::Exit));
}

#[test]
fn a_missing_load_callback_still_reads_successfully() {
    let mut cbs = Callbacks::new();
    let log = cbs.on_lookup(Callback::Load, Found::Nil, true).unwrap();
    badge_code_matches(&log, "44", "Loaded function 'Load'");
    assert!(!cbs.is_defined(Callback::Load));
    assert!(!cbs.dispatch(Callback::Load).invoke);
    assert!(cbs.on_lookup(Callback::Load, Found::Other, true).is_none());
}

#[test]
fn loading_code_reports_success_or_exits_with_three() {
    let o = on_load(Ok(()), true);
    assert_eq!(o.exit_code, None);
    badge_code_matches(o.log.as_ref().unwrap(), "44", "Successfully loaded code");
    let o = on_load(Ok(()), false);
    assert!(o.log.is_none());
    assert_eq!(o.exit_code, None);
    let o = on_load(Err(String::from("syntax error near 'x'")), false);
    assert_eq!(o.exit_code, Some(3));
    let line = o.log.unwrap();
    assert_eq!(line.stream, Stream::Error);
    badge_code_matches(&line, "101", "syntax error near 'x'");
}

#[test]
fn primitive_labels() {
    assert_eq!(PrimitiveKind::Rect.label(), 0);
    assert_eq!(PrimitiveKind::Circle.label(), 1);
    assert_eq!(PrimitiveKind::Line.label(), 2);
}

#[test]
fn key_state_press_and_release() {
    let mut k = KeyState::new();
    let a = String::from("a");
    let b = String::from("b");
    assert!(!k.is_held(&a));
    k.input(a.clone(), true);
    k.input(a.clone(), true);
    k.input(b.clone(), true);
    assert!(k.is_held(&a));
    assert!(k.is_held(&b));
    k.input(a.clone(), false);
    assert!(!k.is_held(&a));
    assert!(k.is_held(&b));
    k.input(String::from("zz"), false);
    assert!(k.is_held(&b));
}

#[test]
fn host_answers_key_queries_after_input() {
    let mut h = Host::new(800, 600);
    assert_eq!(h.key_input(String::from("w"), true), Callback::KeyPressed);
    assert_eq!(h.answer(&Query::KeyPressed(String::from("w"))), Answer::KeyPressed(true));
    assert_eq!(h.answer(&Query::KeyPressed(String::from("s"))), Answer::KeyPressed(false));
    assert_eq!(h.key_input(String::from("w"), false), Callback::KeyReleased);
    assert_eq!(h.answer(&Query::KeyPressed(String::from("w"))), Answer::KeyPressed(false));
    assert_eq!(h.answer(&Query::WindowSize), Answer::WindowSize { w: 800, h: 600 });
}

#[test]
fn host_answers_the_new_size_after_resize() {
    let mut h = Host::new(800, 600);
    h.key_input(String::from("q"), true);
    h.resize(1024, 768);
    let a = h.answer(&Query::WindowSize);
    assert_eq!(a, Answer::WindowSize { w: 1024, h: 768 });
    assert_eq!(a.window_size(), Some((1024, 768)));
    assert_eq!(a.key_state(), None);
    let k = h.answer(&Query::KeyPressed(String::from("q")));
    assert_eq!(k.key_state(), Some(true));
    assert_eq!(k.window_size(), None);
}

#[test]
fn key_text_defaults_to_none() {
    assert_eq!(key_text(Some(String::from("x"))), "x");
    assert_eq!(key_text(None), "NONE");
}

#[test]
fn mouse_button_numbers() {
    assert_eq!(button_code(MouseButton::Left), 1);
    assert_eq!(button_code(MouseButton::Right), 2);
    assert_eq!(button_code(MouseButton::Middle), 3);
    assert_eq!(button_code(MouseButton::Back), 4);
    assert_eq!(button_code(MouseButton::Forward), 5);
    assert_eq!(button_code(MouseButton::Other(0)), 6);
    assert_eq!(button_code(MouseButton::Other(10)), 16);
    assert_eq!(button_code(MouseButton::Other(65529)), 65535);
    assert_eq!(mouse_button_call(MouseButton::Left, true), (Callback::MousePressed, 1));
    assert_eq!(mouse_button_call(MouseButton::Other(2), false), (Callback::MouseReleased, 8));
}

#[test]
fn spawner_gives_consecutive_fresh_ids() {
    let mut t = LoriThing::new(Some(6), true);
    assert!(t.renderable());
    assert!(t.collidable());
    assert_eq!(t.indices(), 6);
    assert_eq!(t.spawn(), 0);
    assert_eq!(t.spawn(), 1);
    assert_eq!(t.spawn(), 2);
    assert_eq!(t.count(), 3);
    assert!(t.has_location(1));
    assert!(t.has_body(2));
    assert!(!t.has_location(3));
}

#[test]
fn spawner_without_shape_or_collider_records_nothing() {
    let mut t = LoriThing::new(None, false);
    assert!(!t.renderable());
    assert!(!t.collidable());
    assert_eq!(t.indices(), 0);
    assert_eq!(t.spawn(), 0);
    assert!(!t.has_location(0));
    assert!(!t.has_body(0));
    let mut u = LoriThing::new(Some(3), false);
    u.spawn();
    assert!(u.has_location(0));
    assert!(!u.has_body(0));
}

#[test]
fn spawner_truncates_the_index_count() {
    let t = LoriThing::new(Some((1usize << 32) + 5), false);
    assert_eq!(t.indices(), 5);
}

#[test]
fn waiting_for_the_window_size_skips_other_answers() {
    assert_eq!(await_window_size(Some(Answer::WindowSize { w: 3, h: 4 })), Wait::Done((3, 4)));
    assert_eq!(await_window_size(Some(Answer::KeyPressed(true))), Wait::Keep);
    assert_eq!(await_window_size(None), Wait::Done((0, 0)));
}

#[test]
fn waiting_for_a_key_state_skips_other_answers() {
    assert_eq!(await_key_state(Some(Answer::KeyPressed(true))), Wait::Done(true));
    assert_eq!(await_key_state(Some(Answer::WindowSize { w: 1, h: 2 })), Wait::Keep);
    assert_eq!(await_key_state(None), Wait::Done(false));
}

#[test]
fn lines_of_the_same_level_and_message_match() {
    assert_eq!(serorln(String::from("m")).text, erorln("m").text);
    assert_eq!(sdbugln(String::from("m")).text, dbugln("m").text);
    let e = std::io::Error::other("m");
    assert_eq!(errorln(&e).text, serorln(e.to_string()).text);
}
