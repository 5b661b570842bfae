use e_plugin::command::balance_reply;
use e_plugin::join::JoinHandler;
use e_plugin::notices::{gain_actionbar, milestone_announcement, milestone_subtitle, milestone_title};
use e_plugin::text::{decimal_string, NamedColor, Segment};

fn parts(children: &[Segment]) -> Vec<(String, Option<NamedColor>, bool)> {
    children.iter().map(|s| (s.text.clone(), s.color, s.bold)).collect()
}

#[test]
fn decimal_rendering() {
    assert_eq!(decimal_string(0), "0");
    assert_eq!(decimal_string(7), "7");
    assert_eq!(decimal_string(1234), "1234");
    assert_eq!(decimal_string(-42), "-42");
    assert_eq!(decimal_string(i64::MAX), i64::MAX.to_string());
    assert_eq!(decimal_string(i64::MIN), "-9223372036854775808");
}

#[test]
fn balance_reply_message() {
    let r = balance_reply(1234);
    assert_eq!(r.status, 1234);
    assert_eq!(r.message.root.text, "");
    assert_eq!(r.message.root.color, None);
    assert_eq!(
        parts(&r.message.children),
        vec![
            ("E ".to_string(), Some(NamedColor::Red), true),
            ("You currently have ".to_string(), Some(NamedColor::Yellow), false),
            ("E".to_string(), Some(NamedColor::Red), false),
            ("1234".to_string(), Some(NamedColor::White), false),
            (" in your balance!".to_string(), Some(NamedColor::Yellow), false),
        ]
    );
}

#[test]
fn balance_status_is_cut_to_32_bits() {
    assert_eq!(balance_reply((1i64 << 33) + 5).status, 5);
    assert_eq!(balance_reply(-1).status, -1);
    assert_eq!(balance_reply(i64::MAX).status, -1);
}

#[test]
fn milestone_texts() {
    let t = milestone_title();
    assert_eq!((t.root.text.as_str(), t.root.color, t.root.bold), ("E", Some(NamedColor::Green), true));
    assert!(t.children.is_empty());
    let st = milestone_subtitle();
    assert_eq!(st.root.text, "New milestone achieved!");
    assert_eq!(st.root.color, None);
    let a = milestone_announcement(6);
    let p = parts(&a.children);
    assert_eq!(p.len(), 6);
    assert_eq!(p[1].0, "New milestone unlocked for ");
    assert_eq!(p[3], ("1000".to_string(), Some(NamedColor::White), false));
    assert_eq!(p[5].1, Some(NamedColor::Gold));
    assert!(p[5].0.starts_with("1,000 Es! Congrats"));
}

#[test]
fn gain_texts() {
    let g = gain_actionbar(37);
    assert_eq!((g.root.text.as_str(), g.root.color), ("+ E", Some(NamedColor::Red)));
    assert_eq!(parts(&g.children), vec![("37".to_string(), Some(NamedColor::White), false)]);
    assert_eq!(gain_actionbar(-3).children[0].text, "-3");
}

#[test]
fn join_greeting() {
    let g = JoinHandler.greeting();
    assert_eq!((g.title.root.text.as_str(), g.title.root.color, g.title.root.bold), ("E", Some(NamedColor::Yellow), true));
    assert_eq!(g.subtitle.root.text, "Welcome! Try chatting!");
    assert_eq!(g.subtitle.root.color, None);
    assert_eq!((g.fade_in, g.stay, g.fade_out), (0, 40, 20));
}
