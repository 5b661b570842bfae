use e_plugin::chat::{get_e_reward, split_by_e_chars, ChatHandler, EHit, MessagePart};
use e_plugin::state::EState;

fn text(p: &MessagePart) -> Option<&str> {
    match p {
        MessagePart::Text(t) => Some(t.as_str()),
        MessagePart::E(_, _) => None,
    }
}

fn e(p: &MessagePart) -> Option<(char, i64)> {
    match p {
        MessagePart::Text(_) => None,
        MessagePart::E(c, r) => Some((*c, *r)),
    }
}

#[test]
fn reward_table() {
    assert_eq!(get_e_reward('e'), 1);
    assert_eq!(get_e_reward('E'), 1);
    assert_eq!(get_e_reward('\u{e9}'), 3);
    assert_eq!(get_e_reward('\u{3a3}'), 16);
    assert_eq!(get_e_reward('\u{364}'), 85);
    assert_eq!(get_e_reward('\u{1f1ea}'), 101);
    assert_eq!(get_e_reward('\u{1b9}'), 111);
    assert_eq!(get_e_reward('a'), 0);
    assert_eq!(get_e_reward(' '), 0);
}

#[test]
fn split_simple_word() {
    let scan = split_by_e_chars("hello").unwrap();
    assert_eq!(scan.parts.len(), 3);
    assert_eq!(text(&scan.parts[0]), Some("h"));
    assert_eq!(e(&scan.parts[1]), Some(('e', 1)));
    assert_eq!(text(&scan.parts[2]), Some("llo"));
    assert_eq!(scan.hits.len(), 1);
    assert!(scan.hits[0] == EHit { c: 'e', reward: 1, density: 1, first: true });
    assert_eq!(scan.total, 1);
}

#[test]
fn split_repeated_e() {
    let scan = split_by_e_chars("eE e").unwrap();
    assert_eq!(scan.parts.len(), 4);
    assert_eq!(e(&scan.parts[0]), Some(('e', 1)));
    assert_eq!(e(&scan.parts[1]), Some(('E', 1)));
    assert_eq!(text(&scan.parts[2]), Some(" "));
    assert_eq!(e(&scan.parts[3]), Some(('e', 1)));
    assert!(scan.hits[0] == EHit { c: 'e', reward: 1, density: 1, first: true });
    assert!(scan.hits[1] == EHit { c: 'E', reward: 1, density: 1, first: true });
    assert!(scan.hits[2] == EHit { c: 'e', reward: 1, density: 1, first: false });
    assert_eq!(scan.total, 3);
}

#[test]
fn density_carries_over() {
    // 111, then (111 - 10) / 2 = 50, a space: (50 - 10) / 2 = 20, then 20 + 111.
    let scan = split_by_e_chars("\u{1b8} \u{1b8}").unwrap();
    assert_eq!(scan.hits.len(), 2);
    assert!(scan.hits[0] == EHit { c: '\u{1b8}', reward: 111, density: 111, first: true });
    assert!(scan.hits[1] == EHit { c: '\u{1b8}', reward: 111, density: 131, first: false });
    assert_eq!(scan.total, 222);
    assert_eq!(text(&scan.parts[1]), Some(" "));
}

#[test]
fn split_without_e() {
    let scan = split_by_e_chars("abc xyz").unwrap();
    assert_eq!(scan.parts.len(), 1);
    assert_eq!(text(&scan.parts[0]), Some("abc xyz"));
    assert!(scan.hits.is_empty());
    assert_eq!(scan.total, 0);
}

#[test]
fn split_empty() {
    let scan = split_by_e_chars("").unwrap();
    assert!(scan.parts.is_empty());
    assert!(scan.hits.is_empty());
    assert_eq!(scan.total, 0);
}

#[test]
fn parts_spell_message() {
    let msg = "h\u{e9}llo w\u{3a3}rld \u{1f1ea}!";
    let scan = split_by_e_chars(msg).unwrap();
    let mut rebuilt = String::new();
    for p in &scan.parts {
        match p {
            MessagePart::Text(t) => {
                assert!(!t.is_empty());
                rebuilt.push_str(t);
            }
            MessagePart::E(c, r) => {
                assert_eq!(*r, get_e_reward(*c));
                rebuilt.push(*c);
            }
        }
    }
    assert_eq!(rebuilt, msg);
    assert_eq!(scan.total, 3 + 16 + 101);
    assert!(scan.hits.iter().all(|h| h.first));
}

#[test]
fn chat_turn_records_time() {
    let mut s = EState::new();
    let h = ChatHandler;
    let first = h.scan_and_record(&mut s, 8, "e", 1_000).unwrap();
    assert_eq!(first.ago, None);
    assert_eq!(first.scan.total, 1);
    let second = h.scan_and_record(&mut s, 8, "ee", 1_700).unwrap();
    assert_eq!(second.ago, Some(700));
    assert_eq!(second.scan.total, 2);
    assert_eq!(s.get_latest_chat_ago(8, 2_000), Some(300));
    assert_eq!(s.get_e(8), 0);
}

#[test]
fn spacing_small_es_changes_nothing() {
    let a = split_by_e_chars("ee\u{e9}e").unwrap();
    let b = split_by_e_chars("e, e \u{e9}   xyz e!").unwrap();
    assert_eq!(a.hits.len(), b.hits.len());
    for (x, y) in a.hits.iter().zip(b.hits.iter()) {
        assert!(x == y);
    }
    assert_eq!(a.total, b.total);
    assert_eq!(a.total, 6);
}

#[test]
fn inserted_space_never_raises_density() {
    let tight = split_by_e_chars("\u{1b8} \u{1b8}").unwrap();
    let spaced = split_by_e_chars("\u{1b8}  \u{1b8}").unwrap();
    assert_eq!(tight.hits[1].density, 131);
    assert_eq!(spaced.hits[1].density, 116);
    for (x, y) in spaced.hits.iter().zip(tight.hits.iter()) {
        assert_eq!((x.c, x.reward, x.first), (y.c, y.reward, y.first));
        assert!(x.density <= y.density);
    }
    assert_eq!(spaced.total, tight.total);
}
