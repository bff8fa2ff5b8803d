use flat_bindgen::runtime::{bool_to_str, flat_err_message, flat_err_message_from, none_str};
use flatbuffers::InvalidFlatbuffer;
use std::path::MAIN_SEPARATOR;

#[test]
fn absent_value_is_written_as_none() {
    assert_eq!(none_str(), "None");
}

#[test]
fn truth_values_are_capitalised() {
    assert_eq!(bool_to_str(true), "True");
    assert_eq!(bool_to_str(false), "False");
}

#[test]
fn message_names_the_file_and_the_reason() {
    assert_eq!(
        flat_err_message_from('/', "src/python/player_info.rs", "Range [0, 4) is out of bounds."),
        "Can't make flatbuffer @ \"rlbot_flatbuffers/src/python/player_info.rs\":\n  Range [0, 4) is out of bounds."
    );
}

#[test]
fn message_uses_the_separator_it_is_given() {
    assert_eq!(
        flat_err_message_from('\\', "a.rs", "x"),
        "Can't make flatbuffer @ \"rlbot_flatbuffers\\a.rs\":\n  x"
    );
}

#[test]
fn message_with_empty_parts() {
    assert_eq!(
        flat_err_message_from('/', "", ""),
        "Can't make flatbuffer @ \"rlbot_flatbuffers/\":\n  "
    );
}

#[test]
fn message_for_a_refused_buffer_carries_its_description() {
    let message = flat_err_message(MAIN_SEPARATOR, "src/lib.rs", &InvalidFlatbuffer::TooManyTables);
    assert_eq!(
        message,
        format!(
            "Can't make flatbuffer @ \"rlbot_flatbuffers{}src/lib.rs\":\n  Too many tables.\n",
            MAIN_SEPARATOR
        )
    );
}

#[test]
fn message_for_a_deep_buffer_differs_from_that_for_a_large_one() {
    let deep = flat_err_message('/', "a.rs", &InvalidFlatbuffer::DepthLimitReached);
    let large = flat_err_message('/', "a.rs", &InvalidFlatbuffer::ApparentSizeTooLarge);
    assert_eq!(
        deep,
        "Can't make flatbuffer @ \"rlbot_flatbuffers/a.rs\":\n  Nested table depth limit reached.\n"
    );
    assert_eq!(
        large,
        "Can't make flatbuffer @ \"rlbot_flatbuffers/a.rs\":\n  Apparent size too large.\n"
    );
}
