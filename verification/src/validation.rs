//! Validation of the fields that a client supplies with a message.

use crate::text::{
    is_whitespace, law_trimmed_has_no_margin, lowercase_of, text_result, to_lowercase, trim,
    trimmed,
};
use vstd::prelude::*;
use vstd::string::*;

verus! {

/// Longest username, in characters, once trimmed.
pub const MAX_USERNAME_CHARS: usize = 50;

/// Longest message text, in characters, once trimmed.
pub const MAX_MESSAGE_CHARS: usize = 500;

/// What validating a username yields: the trimmed name, or why it is refused.
pub open spec fn username_verdict(username: Seq<char>) -> Result<Seq<char>, Seq<char>> {
    let t = trimmed(username);
    if t.len() == 0 {
        Err("Username cannot be empty"@)
    } else if t.len() > 50 {
        Err("Username cannot be longer than 50 characters"@)
    } else {
        Ok(t)
    }
}

/// What validating a message text yields: the trimmed text, or why it is
/// refused.
pub open spec fn message_text_verdict(text: Seq<char>) -> Result<Seq<char>, Seq<char>> {
    let t = trimmed(text);
    if t.len() == 0 {
        Err("Message text cannot be empty"@)
    } else if t.len() > 500 {
        Err("Message text cannot be longer than 500 characters"@)
    } else {
        Ok(t)
    }
}

/// What validating a room id yields: the trimmed id in lower case, or why it
/// is refused.
pub open spec fn room_id_verdict(room_id: Seq<char>) -> Result<Seq<char>, Seq<char>> {
    let t = trimmed(room_id);
    if t.len() == 0 {
        Err("Room ID cannot be empty"@)
    } else {
        Ok(lowercase_of(t))
    }
}

/// Trims a username and accepts it when 1 to 50 characters are left.
pub fn validate_username(username: &str) -> (r: Result<String, String>)
    ensures
        text_result(r) == username_verdict(username@),
{
    let t = trim(username);
    let len = t.unicode_len();
    if len == 0 {
        return Err(String::from_str("Username cannot be empty"));
    }
    if len > MAX_USERNAME_CHARS {
        return Err(String::from_str("Username cannot be longer than 50 characters"));
    }
    Ok(String::from_str(t))
}

/// Trims a message text and accepts it when 1 to 500 characters are left.
pub fn validate_message_text(message_text: &str) -> (r: Result<String, String>)
    ensures
        text_result(r) == message_text_verdict(message_text@),
{
    let t = trim(message_text);
    let len = t.unicode_len();
    if len == 0 {
        return Err(String::from_str("Message text cannot be empty"));
    }
    if len > MAX_MESSAGE_CHARS {
        return Err(String::from_str("Message text cannot be longer than 500 characters"));
    }
    Ok(String::from_str(t))
}

/// Trims a room id and, unless nothing is left, returns it in lower case.
pub fn validate_room_id(room_id: &str) -> (r: Result<String, String>)
    ensures
        text_result(r) == room_id_verdict(room_id@),
{
    let t = trim(room_id);
    if t.unicode_len() == 0 {
        return Err(String::from_str("Room ID cannot be empty"));
    }
    Ok(to_lowercase(t))
}

/// An accepted username has 1 to 50 characters and an accepted message text
/// 1 to 500, and neither begins nor ends with white space.
pub proof fn law_accepted_texts_are_trimmed(s: Seq<char>)
    ensures
        username_verdict(s) matches Ok(t) ==> 1 <= t.len() <= 50 && !is_whitespace(t.first())
            && !is_whitespace(t.last()),
        message_text_verdict(s) matches Ok(t) ==> 1 <= t.len() <= 500 && !is_whitespace(
            t.first(),
        ) && !is_whitespace(t.last()),
{
    law_trimmed_has_no_margin(s);
}

/// A text is accepted as a username exactly when its trimmed form has 1 to 50
/// characters, and as a message text exactly when it has 1 to 500.
pub proof fn law_length_bounds(s: Seq<char>)
    ensures
        username_verdict(s) is Ok <==> 1 <= trimmed(s).len() <= 50,
        message_text_verdict(s) is Ok <==> 1 <= trimmed(s).len() <= 500,
        room_id_verdict(s) is Ok <==> 1 <= trimmed(s).len(),
{
}

} // verus!
