use std::collections::BTreeSet;

use rclrust_msg_gen::msg_path::MsgPath;
use rclrust_msg_gen::names::unique_sorted;
use rclrust_msg_gen::parser::action::parse_action_string;
use rclrust_msg_gen::parser::constant::constant_def;
use rclrust_msg_gen::parser::member::member_def;
use rclrust_msg_gen::parser::message::parse_message_string;
use rclrust_msg_gen::parser::package::{camel2snake, parse_line};
use rclrust_msg_gen::parser::service::parse_service_string;
use rclrust_msg_gen::parser::utils::fix_newlines;

/// A small generator of numbers, the same on every run.
struct Numbers(u64);

impl Numbers {
    fn next(&mut self) -> u64 {
        self.0 = self.0.wrapping_mul(6364136223846793005).wrapping_add(1442695040888963407);
        self.0 >> 33
    }

    fn text(&mut self, alphabet: &[char], max_len: u64) -> String {
        let len = self.next() % (max_len + 1);
        (0..len).map(|_| alphabet[(self.next() % alphabet.len() as u64) as usize]).collect()
    }
}

const ALPHABET: [char; 40] = [
    'a', 'b', 'A', 'Z', '0', '1', '9', '_', ' ', '\t', '\n', '\r', '=', '#', '[', ']', ',', '<',
    '>', '/', '.', '-', '+', 'e', 'E', '"', '\'', '\\', '*', 'i', 'n', 't', '3', '2', 's', 'r',
    'g', 'é', '日', '\u{301}',
];

#[test]
fn line_endings_agree_with_plain_replacement() {
    let mut numbers = Numbers(1);
    let alphabet = ['a', '\r', '\n', 'é', '\u{301}', ' ', '\u{200d}'];
    for _ in 0..20000 {
        let text = numbers.text(&alphabet, 12);
        let mut expected = text.replace("\r\n", "\n");
        if !expected.ends_with('\n') {
            expected.push('\n');
        }
        assert_eq!(fix_newlines(&text), expected, "{:?}", text);
    }
}

#[test]
fn unique_names_agree_with_an_ordered_set() {
    let mut numbers = Numbers(2);
    let alphabet = ['a', 'b', 'B', '_', '0', 'é', '日'];
    for _ in 0..5000 {
        let count = numbers.next() % 7;
        let names: Vec<String> = (0..count).map(|_| numbers.text(&alphabet, 3)).collect();
        let set: BTreeSet<String> = names.iter().cloned().collect();
        let result = unique_sorted(names.clone());
        if set.len() == names.len() {
            assert_eq!(result, Ok(set.into_iter().collect::<Vec<_>>()), "{:?}", names);
        } else {
            let first = set
                .iter()
                .find(|n| names.iter().filter(|m| m == n).count() >= 2)
                .cloned()
                .unwrap();
            assert_eq!(result, Err(first), "{:?}", names);
        }
    }
}

#[test]
fn parsers_take_any_text() {
    let mut numbers = Numbers(3);
    for _ in 0..20000 {
        let text = numbers.text(&ALPHABET, 16);
        let _ = member_def(&text);
        let _ = constant_def(&text);
        let _ = parse_message_string("pkg", "Name", &text);
        let _ = parse_service_string("pkg", "Name", &text);
        let _ = parse_action_string("pkg", "Name", &text);
        let _ = parse_line(&text);
        let _ = MsgPath::parse(&text);
        let _ = camel2snake(&text);
    }
}

#[test]
fn parsed_members_are_well_formed() {
    let mut numbers = Numbers(4);
    let types = ["int8", "uint16[2]", "bool[]", "string<=2", "string[<=2]", "float32[1]", "Other"];
    let values = ["", "1", "[1]", "[1, 2]", "[1,2,3]", "true", "[true]", "\"a\"", "['a', \"bc\"]", "[]", "1.5", "[1.5]"];
    for _ in 0..5000 {
        let t = types[(numbers.next() % types.len() as u64) as usize];
        let v = values[(numbers.next() % values.len() as u64) as usize];
        let line = format!("{} name {}", t, v);
        if let Ok(member) = member_def(&line) {
            assert_eq!(member.name, "name");
            match (&member.default, t) {
                (None, _) => assert_eq!(v, ""),
                (Some(d), "int8") | (Some(d), "string<=2") => assert_eq!(d.len(), 1),
                (Some(d), "uint16[2]") => assert_eq!(d.len(), 2),
                (Some(d), "float32[1]") => assert_eq!(d.len(), 1),
                (Some(d), "string[<=2]") => assert!(d.len() <= 2),
                (Some(_), "bool[]") => {}
                (Some(_), other) => panic!("a default for {}", other),
            }
        }
    }
}
