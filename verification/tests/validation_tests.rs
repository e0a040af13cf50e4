use chat_backend::text::{char_is_whitespace, trim, trim_trailing_slashes};
use chat_backend::validation::{validate_message_text, validate_room_id, validate_username};

#[test]
fn username_is_trimmed() {
    assert_eq!(validate_username("  alice \t\n"), Ok("alice".to_string()));
}

#[test]
fn empty_username_is_refused() {
    assert_eq!(validate_username(""), Err("Username cannot be empty".to_string()));
    assert_eq!(validate_username("   \u{3000} "), Err("Username cannot be empty".to_string()));
}

#[test]
fn username_of_fifty_characters_is_accepted() {
    let name = "a".repeat(50);
    assert_eq!(validate_username(&name), Ok(name.clone()));
    let padded = format!("  {}  ", name);
    assert_eq!(validate_username(&padded), Ok(name));
}

#[test]
fn username_of_fifty_one_characters_is_refused() {
    let name = "a".repeat(51);
    assert_eq!(
        validate_username(&name),
        Err("Username cannot be longer than 50 characters".to_string())
    );
}

#[test]
fn username_length_counts_characters() {
    let name = "é".repeat(50);
    assert_eq!(validate_username(&name), Ok(name.clone()));
    let longer = "é".repeat(51);
    assert!(validate_username(&longer).is_err());
}

#[test]
fn text_of_five_hundred_characters_is_accepted() {
    let text = "x".repeat(500);
    assert_eq!(validate_message_text(&text), Ok(text));
}

#[test]
fn text_of_five_hundred_and_one_characters_is_refused() {
    let text = "x".repeat(501);
    assert_eq!(
        validate_message_text(&text),
        Err("Message text cannot be longer than 500 characters".to_string())
    );
}

#[test]
fn empty_text_is_refused() {
    assert_eq!(validate_message_text(" \r\n "), Err("Message text cannot be empty".to_string()));
}

#[test]
fn text_keeps_inner_white_space() {
    assert_eq!(validate_message_text("  hello   world  "), Ok("hello   world".to_string()));
}

#[test]
fn room_id_is_trimmed_and_lowered() {
    assert_eq!(validate_room_id("  General "), Ok("general".to_string()));
    assert_eq!(validate_room_id("ÄBC"), Ok("äbc".to_string()));
}

#[test]
fn empty_room_id_is_refused() {
    assert_eq!(validate_room_id("  "), Err("Room ID cannot be empty".to_string()));
    assert_eq!(validate_room_id(""), Err("Room ID cannot be empty".to_string()));
}

#[test]
fn room_id_has_no_upper_bound() {
    let id = "r".repeat(1000);
    assert_eq!(validate_room_id(&id), Ok(id));
}

#[test]
fn white_space_is_what_the_standard_library_says() {
    let mut code: u32 = 0;
    while code <= 0x10FFFF {
        if let Some(c) = char::from_u32(code) {
            assert_eq!(char_is_whitespace(c), c.is_whitespace(), "U+{:04X}", code);
        }
        code += 1;
    }
}

#[test]
fn trim_agrees_with_the_standard_library() {
    let samples = [
        "",
        " ",
        "a",
        " a",
        "a ",
        "  a b  ",
        "\u{2003}x\u{2003}",
        "\t\n\u{b}\u{c}\r mixed \u{85}\u{a0}",
        "\u{1680}\u{2028}\u{2029}\u{202f}\u{205f}\u{3000}",
        "\u{200b}zero width is kept\u{200b}",
        "ünï çödé ",
    ];
    for s in samples {
        assert_eq!(trim(s), s.trim(), "{:?}", s);
    }
}

#[test]
fn trailing_slashes_are_removed() {
    assert_eq!(trim_trailing_slashes("http://host///"), "http://host");
    assert_eq!(trim_trailing_slashes("http://host"), "http://host");
    assert_eq!(trim_trailing_slashes("///"), "");
    assert_eq!(trim_trailing_slashes(""), "");
    assert_eq!(trim_trailing_slashes("/a/b/"), "/a/b");
}
