use tmuxession::common::UserOption;
use tmuxession::restore_session::get_session_exists_option;
use tmuxession::ui::{find_key, menu_step, MenuKey, MenuOutcome, QUIT_KEY};

fn options() -> Vec<UserOption> {
    get_session_exists_option("dev").1
}

fn letters(keys: &str) -> Vec<UserOption> {
    keys.chars().map(|c| UserOption { label: format!("[{}]", c), keybind: c }).collect()
}

fn typed(c: char) -> MenuKey {
    MenuKey::Char { c, ctrl: false }
}

fn held(c: char) -> MenuKey {
    MenuKey::Char { c, ctrl: true }
}

#[test]
fn arrows_move_the_highlight() {
    let o = options();
    assert_eq!(menu_step(&o, 0, MenuKey::Down), MenuOutcome::Highlighted(1));
    assert_eq!(menu_step(&o, 2, MenuKey::Down), MenuOutcome::Highlighted(3));
    assert_eq!(menu_step(&o, 3, MenuKey::Up), MenuOutcome::Highlighted(2));
    assert_eq!(menu_step(&o, 1, MenuKey::Up), MenuOutcome::Highlighted(0));
}

#[test]
fn highlight_stops_at_the_ends() {
    let o = options();
    assert_eq!(menu_step(&o, 0, MenuKey::Up), MenuOutcome::Highlighted(0));
    assert_eq!(menu_step(&o, 3, MenuKey::Down), MenuOutcome::Highlighted(3));
    let one = letters("x");
    assert_eq!(menu_step(&one, 0, MenuKey::Down), MenuOutcome::Highlighted(0));
    assert_eq!(menu_step(&one, 0, MenuKey::Up), MenuOutcome::Highlighted(0));
}

#[test]
fn letters_move_the_highlight() {
    let o = options();
    assert_eq!(menu_step(&o, 1, typed('j')), MenuOutcome::Highlighted(2));
    assert_eq!(menu_step(&o, 1, typed('k')), MenuOutcome::Highlighted(0));
    assert_eq!(menu_step(&o, 1, held('j')), MenuOutcome::Highlighted(2));
    assert_eq!(menu_step(&o, 1, held('n')), MenuOutcome::Highlighted(2));
    assert_eq!(menu_step(&o, 1, held('p')), MenuOutcome::Highlighted(0));
}

#[test]
fn plain_n_and_p_do_not_move() {
    let o = options();
    assert_eq!(menu_step(&o, 1, typed('n')), MenuOutcome::Highlighted(1));
    assert_eq!(menu_step(&o, 1, typed('p')), MenuOutcome::Highlighted(1));
}

#[test]
fn enter_chooses_the_highlighted_option() {
    let o = options();
    assert_eq!(menu_step(&o, 0, MenuKey::Enter), MenuOutcome::Chosen('A'));
    assert_eq!(menu_step(&o, 1, MenuKey::Enter), MenuOutcome::Chosen('K'));
    assert_eq!(menu_step(&o, 2, MenuKey::Enter), MenuOutcome::Chosen('R'));
    assert_eq!(menu_step(&o, 3, MenuKey::Enter), MenuOutcome::Chosen('q'));
}

#[test]
fn escape_is_the_quit_key() {
    assert_eq!(QUIT_KEY, 'q');
    let o = letters("ab");
    assert_eq!(menu_step(&o, 1, MenuKey::Esc), MenuOutcome::Chosen('q'));
}

#[test]
fn a_key_of_an_option_chooses_it() {
    let o = options();
    assert_eq!(menu_step(&o, 0, typed('R')), MenuOutcome::Chosen('R'));
    assert_eq!(menu_step(&o, 3, typed('A')), MenuOutcome::Chosen('A'));
    assert_eq!(menu_step(&o, 1, held('q')), MenuOutcome::Chosen('q'));
}

#[test]
fn other_characters_do_nothing() {
    let o = options();
    assert_eq!(menu_step(&o, 2, typed('a')), MenuOutcome::Highlighted(2));
    assert_eq!(menu_step(&o, 2, typed('x')), MenuOutcome::Highlighted(2));
    assert_eq!(menu_step(&o, 2, MenuKey::Other), MenuOutcome::Highlighted(2));
}

#[test]
fn moving_letter_at_the_end_counts_as_typed() {
    let o = letters("kjnp");
    assert_eq!(menu_step(&o, 0, typed('k')), MenuOutcome::Chosen('k'));
    assert_eq!(menu_step(&o, 1, typed('k')), MenuOutcome::Highlighted(0));
    assert_eq!(menu_step(&o, 3, typed('j')), MenuOutcome::Chosen('j'));
    assert_eq!(menu_step(&o, 2, typed('j')), MenuOutcome::Highlighted(3));
    assert_eq!(menu_step(&o, 3, held('n')), MenuOutcome::Chosen('n'));
    assert_eq!(menu_step(&o, 0, held('n')), MenuOutcome::Highlighted(1));
    assert_eq!(menu_step(&o, 0, held('p')), MenuOutcome::Chosen('p'));
    assert_eq!(menu_step(&o, 1, held('p')), MenuOutcome::Highlighted(0));
    assert_eq!(menu_step(&o, 1, typed('n')), MenuOutcome::Chosen('n'));
    assert_eq!(menu_step(&o, 1, typed('p')), MenuOutcome::Chosen('p'));
}

#[test]
fn keys_are_found() {
    let o = options();
    assert!(find_key(&o, 'A'));
    assert!(find_key(&o, 'q'));
    assert!(!find_key(&o, 'a'));
    assert!(!find_key(&vec![], 'q'));
}
