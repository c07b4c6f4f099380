//! Validation of player chat messages.
use vstd::prelude::*;
use crate::text::{chars_of, concat, control, is_control, owned, string_of_range, trim, trim_bounds};

verus! {

/// The longest chat message accepted, in characters, after trimming.
pub const MAX_CHAT_MESSAGE_CHARS: usize = 240;

/// Why a message is refused: the trimmed text is empty, too long, or holds a
/// control character (checked in that order).
pub open spec fn chat_rejection(text: Seq<char>) -> Option<Seq<char>> {
    let message = trim(text);
    if message.len() == 0 {
        Some("chat message cannot be empty"@)
    } else if message.len() > MAX_CHAT_MESSAGE_CHARS {
        Some("chat message cannot exceed 240 characters"@)
    } else if exists|i: int| 0 <= i < message.len() && is_control(#[trigger] message[i]) {
        Some("chat message contains unsupported control characters"@)
    } else {
        None
    }
}

/// Trims `text` and accepts it when it is 1..=240 characters with no control
/// character; otherwise returns the reason it was refused.
pub fn validate_chat_message(text: &str) -> (r: Result<String, String>)
    ensures
        match chat_rejection(text@) {
            Some(reason) => r is Err && r->Err_0@ == reason,
            None => r is Ok && r->Ok_0@ == trim(text@),
        },
{
    proof {
        reveal_strlit("chat message cannot be empty");
        reveal_strlit("chat message cannot exceed 240 characters");
        reveal_strlit("chat message contains unsupported control characters");
    }
    let v = chars_of(text);
    let (lo, hi) = trim_bounds(&v);
    let ghost message = trim(text@);
    let length = hi - lo;
    if length == 0 {
        return Err(owned("chat message cannot be empty"));
    }
    if length > MAX_CHAT_MESSAGE_CHARS {
        return Err(owned("chat message cannot exceed 240 characters"));
    }
    let mut i = lo;
    while i < hi
        invariant
            lo <= i <= hi <= v@.len(),
            v@ == text@,
            message == v@.subrange(lo as int, hi as int),
            message == trim(text@),
            0 < message.len() <= MAX_CHAT_MESSAGE_CHARS,
            forall|k: int| lo <= k < i ==> !is_control(#[trigger] v@[k]),
        decreases hi - i,
    {
        if control(v[i]) {
            assert(message[i - lo] == v@[i as int]);
            assert(is_control(message[i - lo]));
            assert(exists|k: int| 0 <= k < message.len() && is_control(#[trigger] message[k]));
            return Err(owned("chat message contains unsupported control characters"));
        }
        i = i + 1;
    }
    assert(forall|k: int| 0 <= k < message.len() ==> !is_control(#[trigger] message[k])) by {
        assert forall|k: int| 0 <= k < message.len() implies !is_control(#[trigger] message[k]) by {
            assert(message[k] == v@[lo + k]);
        }
    }
    Ok(string_of_range(&v, lo, hi))
}

/// The line every client receives for a chat message: the author's display
/// name, resolved on the server, a colon, and the message.
pub fn chat_line(display_name: &str, message: &str) -> (line: String)
    ensures
        line@ == display_name@ + ": "@ + message@,
{
    proof {
        reveal_strlit(": ");
    }
    let line = concat(owned(display_name), ": ");
    concat(line, message)
}

} // verus!
