use flat_bindgen::naming::camel_to_snake;

fn restore_capitals(snake: &str) -> String {
    let mut restored = String::new();
    let mut after_underscore = false;
    for ch in snake.chars() {
        if ch == '_' {
            after_underscore = true;
        } else if after_underscore {
            restored.push(ch.to_ascii_uppercase());
            after_underscore = false;
        } else {
            restored.push(ch);
        }
    }
    restored
}

#[test]
fn camel_case_becomes_snake_case() {
    assert_eq!(camel_to_snake("PlayerInfo"), "player_info");
    assert_eq!(camel_to_snake("ControllableTeamInfo"), "controllable_team_info");
    assert_eq!(camel_to_snake("Touch"), "touch");
}

#[test]
fn leading_capital_gets_no_underscore() {
    assert_eq!(camel_to_snake("A"), "a");
    assert_eq!(camel_to_snake("Ab"), "ab");
}

#[test]
fn lower_camel_case_splits_at_every_capital() {
    assert_eq!(camel_to_snake("playerInfo"), "player_info");
    assert_eq!(camel_to_snake("aB"), "a_b");
}

#[test]
fn consecutive_capitals_are_each_split() {
    assert_eq!(camel_to_snake("ABC"), "a_b_c");
    assert_eq!(camel_to_snake("RLBot"), "r_l_bot");
}

#[test]
fn digits_stay_with_their_word() {
    assert_eq!(camel_to_snake("Vector3"), "vector3");
    assert_eq!(camel_to_snake("String2D"), "string2_d");
    assert_eq!(camel_to_snake("Line3D"), "line3_d");
}

#[test]
fn empty_name_stays_empty() {
    assert_eq!(camel_to_snake(""), "");
}

#[test]
fn snake_case_input_is_unchanged() {
    assert_eq!(camel_to_snake("player_info"), "player_info");
    assert_eq!(camel_to_snake("already_snake_case_2"), "already_snake_case_2");
}

#[test]
fn underscores_of_the_input_are_kept() {
    assert_eq!(camel_to_snake("Player_Info"), "player__info");
}

#[test]
fn output_has_no_uppercase_for_ascii_names() {
    for name in ["PlayerInfo", "BallMaxSpeedMutator", "aB", "XYZ", "x", "String2D"] {
        let snake = camel_to_snake(name);
        assert!(snake.chars().all(|ch| !ch.is_uppercase()), "{snake}");
    }
}

#[test]
fn transformation_is_idempotent() {
    for name in ["PlayerInfo", "BallMaxSpeedMutator", "aB", "XYZ", "x", "String2D", ""] {
        let once = camel_to_snake(name);
        assert_eq!(camel_to_snake(&once), once);
    }
}

#[test]
fn capitals_come_back_at_the_underscores() {
    assert_eq!(restore_capitals(&camel_to_snake("playerInfo")), "playerInfo");
    assert_eq!(restore_capitals(&camel_to_snake("PlayerInfo")), "playerInfo");
    assert_eq!(restore_capitals(&camel_to_snake("BallMaxSpeedMutator")), "ballMaxSpeedMutator");
    assert_eq!(restore_capitals(&camel_to_snake("String2D")), "string2D");
}

#[test]
fn uppercase_beyond_ascii_is_split_but_keeps_its_case() {
    assert_eq!(camel_to_snake("a\u{c9}cole"), "a_\u{c9}cole");
    assert_eq!(camel_to_snake("\u{c9}cole"), "\u{c9}cole");
    assert_eq!(camel_to_snake("\u{394}x"), "\u{394}x");
}

#[test]
fn lowercase_beyond_ascii_is_unchanged() {
    assert_eq!(camel_to_snake("\u{e9}cole"), "\u{e9}cole");
    assert_eq!(camel_to_snake("a\u{4e2d}B"), "a\u{4e2d}_b");
}
