// Sweeps over short pattern strings: whatever the bracket scan admits must
// come back from the engine, as a pattern or as an error.

use urlpattern_bridge::{urlpattern_parse_guarded, UrlInput};

const MARKS: [char; 14] = ['a', ':', '/', '[', ']', '@', '{', '}', '(', ')', '\\', '?', '#', '*'];

const HOST_MARKS: [char; 6] = ['a', ':', '/', '[', ']', '@'];

const GROUP_MARKS: [char; 7] = [':', '[', ']', '{', '}', '\\', '/'];

const REGEXP_MARKS: [char; 6] = ['[', ']', '(', ')', '\\', '?'];

fn sweep(prefix: &str, marks: &[char], longest: usize) -> (usize, usize) {
    let mut admitted = 0;
    let mut refused = 0;
    let mut stack: Vec<String> = vec![prefix.to_string()];
    while let Some(text) = stack.pop() {
        match urlpattern_parse_guarded(UrlInput::String(text.clone()), None) {
            Some(_) => admitted += 1,
            None => refused += 1,
        }
        if text.chars().count() < prefix.chars().count() + longest {
            for c in marks {
                stack.push(format!("{}{}", text, c));
            }
        }
    }
    (admitted, refused)
}

#[test]
fn sweep_all_marks_after_authority_slashes() {
    let (admitted, refused) = sweep("http://", &MARKS, 3);
    assert_eq!(admitted + refused, 1 + 14 + 14 * 14 + 14 * 14 * 14);
    assert!(admitted > 1000);
    assert!(refused > 100);
}

#[test]
fn sweep_all_marks_after_special_scheme() {
    let (admitted, refused) = sweep("https:", &MARKS, 3);
    assert!(admitted > 1000);
    assert!(refused > 100);
}

#[test]
fn sweep_all_marks_after_plain_scheme() {
    let (admitted, refused) = sweep("x:", &MARKS, 3);
    assert!(admitted > 1000);
    assert!(refused > 100);
}

#[test]
fn sweep_all_marks_from_the_start() {
    let (admitted, refused) = sweep("", &MARKS, 3);
    assert!(admitted > 1000);
    assert!(refused > 100);
}

#[test]
fn sweep_host_marks_after_authority_slashes() {
    let (admitted, refused) = sweep("http://", &HOST_MARKS, 4);
    assert!(admitted > 500);
    assert!(refused > 100);
}

#[test]
fn sweep_host_marks_after_special_scheme() {
    let (admitted, refused) = sweep("ws:", &HOST_MARKS, 4);
    assert!(admitted > 500);
    assert!(refused > 100);
}

#[test]
fn sweep_host_marks_from_the_start() {
    let (admitted, refused) = sweep("", &HOST_MARKS, 5);
    assert!(admitted > 500);
    assert!(refused > 100);
}

#[test]
fn sweep_host_marks_after_user_name() {
    let (admitted, refused) = sweep("http://u[", &HOST_MARKS, 4);
    assert!(admitted > 500);
    assert!(refused > 100);
}

#[test]
fn sweep_group_marks_after_special_scheme_text() {
    let (admitted, refused) = sweep("http", &GROUP_MARKS, 4);
    assert!(admitted > 500);
    assert!(refused > 100);
}

#[test]
fn sweep_group_marks_after_colon_in_group() {
    let (admitted, refused) = sweep("http{\\:}y", &GROUP_MARKS, 4);
    assert!(admitted > 500);
    assert!(refused > 100);
}

#[test]
fn sweep_host_marks_after_colon_in_group() {
    let (admitted, refused) = sweep("http{\\:}y[", &HOST_MARKS, 4);
    assert!(admitted > 100);
    assert!(refused > 100);
}

#[test]
fn sweep_host_marks_after_bracket_in_scheme() {
    let (admitted, refused) = sweep("ht[tp", &HOST_MARKS, 4);
    assert!(admitted > 500);
    assert!(refused > 100);
}

#[test]
fn sweep_regexp_marks_in_host() {
    let (admitted, refused) = sweep("http://", &REGEXP_MARKS, 4);
    assert!(admitted > 500);
    assert!(refused > 100);
}

#[test]
fn sweep_regexp_marks_after_open_regexp() {
    let (admitted, refused) = sweep("http://(a", &REGEXP_MARKS, 4);
    assert!(admitted > 100);
    assert!(refused > 100);
}

fn random_text(state: &mut u64, marks: &[char], longest: usize) -> String {
    let mut next = || {
        *state = state.wrapping_mul(6364136223846793005).wrapping_add(1442695040888963407);
        (*state >> 33) as usize
    };
    let length = 1 + next() % longest;
    (0..length).map(|_| marks[next() % marks.len()]).collect()
}

fn random_sweep(seed: u64, prefixes: &[&str], marks: &[char], longest: usize, rounds: usize) {
    let mut state = seed;
    let mut admitted = 0;
    let mut refused = 0;
    for round in 0..rounds {
        let prefix = prefixes[round % prefixes.len()];
        let text = format!("{}{}", prefix, random_text(&mut state, marks, longest));
        match urlpattern_parse_guarded(UrlInput::String(text), None) {
            Some(_) => admitted += 1,
            None => refused += 1,
        }
    }
    assert!(admitted > rounds / 20);
    assert!(refused > rounds / 20);
}

const SCHEMES: [&str; 8] =
    ["", "http://", "https:", "x:", "http://u:p@", "http{s}?://", "h{\\:}[", "*://"];

const LETTERS: [char; 16] =
    ['a', 'f', '0', '1', ':', '/', '[', ']', '@', '.', '\\', '{', '}', '(', ')', '?'];

#[test]
fn random_sweep_of_all_marks() {
    random_sweep(1, &SCHEMES, &MARKS, 10, 6000);
}

#[test]
fn random_sweep_of_all_marks_again() {
    random_sweep(2, &SCHEMES, &MARKS, 16, 6000);
}

#[test]
fn random_sweep_of_host_marks() {
    random_sweep(3, &SCHEMES, &HOST_MARKS, 10, 6000);
}

#[test]
fn random_sweep_of_host_marks_again() {
    random_sweep(4, &SCHEMES, &HOST_MARKS, 16, 6000);
}

#[test]
fn random_sweep_of_group_marks() {
    random_sweep(5, &SCHEMES, &GROUP_MARKS, 12, 6000);
}

#[test]
fn random_sweep_of_regexp_marks() {
    random_sweep(6, &SCHEMES, &REGEXP_MARKS, 12, 6000);
}

#[test]
fn random_sweep_of_letters() {
    random_sweep(7, &SCHEMES, &LETTERS, 12, 6000);
}

#[test]
fn random_sweep_of_letters_again() {
    random_sweep(8, &SCHEMES, &LETTERS, 24, 6000);
}
