use std::cmp::Ordering;

use wechat::chatroom::{ChatRoom, TokenSource};
use wechat::json::JsonStrings;
use wechat::plugin_pointer::GlobalPointer;
use wechat::text::{compare_text, is_c_compatible};
use wechat::user::User;
use wechat::util::debug_content;

fn contact(user_name: &str, nick_name: &str) -> JsonStrings {
    let mut json = JsonStrings::new();
    json.insert("UserName".to_string(), user_name.to_string());
    json.insert("NickName".to_string(), nick_name.to_string());
    json
}

#[test]
fn pointer_starts_null() {
    let p = GlobalPointer::new();
    assert_eq!(p.as_ptr(), 0);
}

#[test]
fn pointer_reads_back_what_was_set() {
    let mut p = GlobalPointer::new();
    let copy = p.set(0xdead_beef);
    assert_eq!(p.as_ptr(), 0xdead_beef);
    assert_eq!(copy.as_ptr(), 0xdead_beef);
    p.set(7);
    assert_eq!(p.as_ptr(), 7);
    assert_eq!(copy.as_ptr(), 0xdead_beef);
}

#[test]
fn json_strings_lookup() {
    let mut json = JsonStrings::new();
    assert_eq!(json.get_str("UserName"), None);
    json.insert("UserName".to_string(), "@abc".to_string());
    json.insert("NickName".to_string(), "Alice".to_string());
    assert_eq!(json.get_str("UserName"), Some("@abc".to_string()));
    assert_eq!(json.get_str("NickName"), Some("Alice".to_string()));
    assert_eq!(json.get_str("username"), None);
    json.insert("UserName".to_string(), "@def".to_string());
    assert_eq!(json.get_str("UserName"), Some("@def".to_string()));
    assert_eq!(json.get_str("NickName"), Some("Alice".to_string()));
}

#[test]
fn user_from_json_reads_both_names() {
    let u = User::from_json(&contact("@12ab", "Bob"));
    assert_eq!(u.user_name(), "@12ab");
    assert_eq!(u.nick_name(), "Bob");
    assert_eq!(u.user_name_str(), "@12ab");
    assert_eq!(u.nick_name_str(), "Bob");
}

#[test]
fn users_equal_by_user_name_only() {
    let a = User::from_json(&contact("@same", "One"));
    let b = User::from_json(&contact("@same", "Two"));
    let c = User::from_json(&contact("@other", "One"));
    assert!(a == b);
    assert!(a != c);
    assert_eq!(a.partial_cmp(&b), Some(Ordering::Equal));
}

#[test]
fn users_ordered_by_user_name() {
    let a = User::from_json(&contact("alice", "z"));
    let b = User::from_json(&contact("bob", "a"));
    let ab = User::from_json(&contact("al", "q"));
    assert_eq!(a.partial_cmp(&b), Some(Ordering::Less));
    assert_eq!(b.partial_cmp(&a), Some(Ordering::Greater));
    assert_eq!(ab.partial_cmp(&a), Some(Ordering::Less));
    assert!(ab < a && a < b && ab < b);
}

#[test]
fn user_order_matches_string_order() {
    let names = ["", "a", "B", "b", "ab", "a\u{e9}", "a\u{4e2d}", "\u{1f600}", "zz", "a\u{7f}"];
    for x in names.iter() {
        for y in names.iter() {
            let ux = User::from_json(&contact(x, "n"));
            let uy = User::from_json(&contact(y, "n"));
            assert_eq!(ux.partial_cmp(&uy), Some(x.cmp(y)), "{:?} {:?}", x, y);
            assert_eq!(compare_text(x, y), x.cmp(y));
        }
    }
}

#[test]
fn c_compatibility() {
    assert!(is_c_compatible("Wechat"));
    assert!(is_c_compatible(""));
    assert!(!is_c_compatible("a\0b"));
    assert!(!is_c_compatible("\0"));
}

#[test]
fn tokens_count_up_from_one() {
    let mut tokens = TokenSource::new();
    assert_eq!(tokens.take(), 1);
    assert_eq!(tokens.take(), 2);
    assert_eq!(tokens.take(), 3);
}

#[test]
fn chatroom_from_json_takes_next_token() {
    let mut tokens = TokenSource::new();
    let first = ChatRoom::from_json(&contact("@@room1", "Friends"), &mut tokens);
    let second = ChatRoom::from_json(&contact("@@room1", "Friends"), &mut tokens);
    assert_eq!(first.token(), 1);
    assert_eq!(second.token(), 2);
    assert_eq!(first.id(), "@@room1");
    assert_eq!(first.alias(), "Friends");
    assert_eq!(first.id_cstring(), "@@room1");
    assert_eq!(first.alias_cstring(), "Friends");
    assert_eq!(first.chat_ptr(), 0);
    assert!(first != second);
    assert_eq!(first.partial_cmp(&second), Some(Ordering::Less));
    assert_eq!(tokens.take(), 3);
}

#[test]
fn chatroom_equality_follows_token() {
    let mut tokens = TokenSource::new();
    let a = ChatRoom::from_json(&contact("@@a", "A"), &mut tokens);
    let a2 = a.clone();
    let b = ChatRoom::from_json(&contact("@@a", "A"), &mut tokens);
    let c = ChatRoom::from_json(&contact("@@c", "C"), &mut tokens);
    assert!(a == a2);
    assert_eq!(a.partial_cmp(&a2), Some(Ordering::Equal));
    assert!(a < b && b < c && a < c);
    assert_eq!(c.partial_cmp(&a), Some(Ordering::Greater));
}

#[test]
fn chatroom_keeps_window_address() {
    let mut tokens = TokenSource::new();
    let mut room = ChatRoom::from_json(&contact("@@a", "A"), &mut tokens);
    room.set_chat_ptr(4096);
    assert_eq!(room.chat_ptr(), 4096);
    assert_eq!(room.token(), 1);
    assert_eq!(room.id(), "@@a");
}

#[test]
fn debug_content_ends_line() {
    assert_eq!(debug_content("hello"), "hello\n");
    assert_eq!(debug_content(""), "\n");
}
