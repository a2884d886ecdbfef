use cosmic_player::key_bind::{key_binds, resolve, Key, KeyBind, Modifiers};
use cosmic_player::player::{Action, Message};

fn mods(ctrl: bool, alt: bool, shift: bool, logo: bool) -> Modifiers {
    Modifiers { ctrl, alt, shift, logo }
}

#[test]
fn empty_mapping_resolves_nothing() {
    let binds: Vec<(KeyBind, Action)> = Vec::new();
    assert_eq!(resolve(&binds, Modifiers::empty(), &Key::LeftArrow), None);
}

#[test]
fn unbound_chords_resolve_nothing() {
    let binds = key_binds();
    assert_eq!(resolve(&binds, Modifiers::empty(), &Key::Space), None);
    assert_eq!(resolve(&binds, Modifiers::empty(), &Key::Character('q')), None);
    assert_eq!(
        resolve(&binds, mods(true, false, false, false), &Key::Character('x')),
        None
    );
}

#[test]
fn default_bindings_resolve_to_their_actions() {
    let binds = key_binds();
    assert_eq!(
        resolve(&binds, Modifiers::empty(), &Key::LeftArrow),
        Some(Action::SeekBackward)
    );
    assert_eq!(
        resolve(&binds, Modifiers::empty(), &Key::RightArrow),
        Some(Action::SeekForward)
    );
}

#[test]
fn one_flipped_modifier_bit_never_matches() {
    let binds = key_binds();
    // The defaults bind the plain arrows; flipping any single modifier bit
    // must not resolve to the same action (here: to anything at all).
    for m in [
        mods(true, false, false, false),
        mods(false, true, false, false),
        mods(false, false, true, false),
        mods(false, false, false, true),
    ] {
        assert_eq!(resolve(&binds, m, &Key::LeftArrow), None);
        assert_eq!(resolve(&binds, m, &Key::RightArrow), None);
    }
}

#[test]
fn first_match_wins_among_duplicate_chords() {
    let chord = KeyBind {
        modifiers: Modifiers::empty(),
        key: Key::Space,
    };
    let binds = vec![
        (chord, Action::SeekForward),
        (chord, Action::SeekBackward),
    ];
    assert_eq!(
        resolve(&binds, Modifiers::empty(), &Key::Space),
        Some(Action::SeekForward)
    );
}

#[test]
fn matching_is_exact_on_both_parts() {
    let bind = KeyBind {
        modifiers: mods(true, false, true, false),
        key: Key::Character('k'),
    };
    assert!(bind.matches(mods(true, false, true, false), &Key::Character('k')));
    assert!(!bind.matches(mods(true, false, false, false), &Key::Character('k')));
    assert!(!bind.matches(mods(true, true, true, false), &Key::Character('k')));
    assert!(!bind.matches(mods(true, false, true, false), &Key::Character('j')));
    assert!(!bind.matches(Modifiers::empty(), &Key::Character('k')));
}

#[test]
fn default_binds_are_the_two_arrow_skips() {
    let binds = key_binds();
    assert_eq!(binds.len(), 2);
    assert_eq!(
        binds[0],
        (
            KeyBind {
                modifiers: Modifiers::empty(),
                key: Key::LeftArrow
            },
            Action::SeekBackward
        )
    );
    assert_eq!(
        binds[1],
        (
            KeyBind {
                modifiers: Modifiers::empty(),
                key: Key::RightArrow
            },
            Action::SeekForward
        )
    );
}

#[test]
fn actions_map_to_ten_second_jumps() {
    assert_eq!(
        Action::SeekBackward.message(),
        Message::SeekRelative(-10000)
    );
    assert_eq!(Action::SeekForward.message(), Message::SeekRelative(10000));
}
