//! Player names: what a player may call a character, and the key it is
//! stored under.
use vstd::prelude::*;
use crate::text::{concat, debug_quoted, debug_str, lowercase, owned, to_lowercase, trim, trimmed};

verus! {

/// The fewest characters a name may have once trimmed.
pub const MIN_NAME_CHARS: usize = 3;

/// The most characters a name may have once trimmed.
pub const MAX_NAME_CHARS: usize = 16;

/// Why a chosen name is refused.
#[derive(Debug, Clone, Copy, PartialEq, Eq, Structural)]
pub enum PlayerNameError {
    TooShort,
    TooLong,
}

/// Trims the chosen name and accepts it when it holds 3 to 16 characters.
pub fn validate_player_name(name: &str) -> (r: Result<String, PlayerNameError>)
    ensures
        trim(name@).len() < MIN_NAME_CHARS ==> r == Err::<String, PlayerNameError>(PlayerNameError::TooShort),
        trim(name@).len() > MAX_NAME_CHARS ==> r == Err::<String, PlayerNameError>(PlayerNameError::TooLong),
        MIN_NAME_CHARS <= trim(name@).len() <= MAX_NAME_CHARS ==> (r matches Ok(n) && n@ == trim(name@)),
{
    let name = trimmed(name);
    let length = name.as_str().unicode_len();
    if length < MIN_NAME_CHARS {
        return Err(PlayerNameError::TooShort);
    }
    if length > MAX_NAME_CHARS {
        return Err(PlayerNameError::TooLong);
    }
    Ok(name)
}

/// The lookup key of a display name: trimmed, then lower-cased.
pub open spec fn normalized(name: Seq<char>) -> Seq<char> {
    lowercase(trim(name))
}

/// The stable lookup key of a name: trimmed and lower-cased, so "Ada" and
/// " ada " are the same character.
pub fn normalize_name(name: &str) -> (key: String)
    ensures
        key@ == normalized(name@),
{
    let name = trimmed(name);
    to_lowercase(name.as_str())
}

/// The message `join` returns for a name whose key is not 3 to 16 characters.
pub open spec fn join_name_length_text(display_name: Seq<char>) -> Seq<char> {
    "name must be 3-16 characters, got "@ + debug_quoted(display_name)
}

/// The key a new character is created under, after the length rule `join`
/// enforces on it: 3 to 16 characters once normalised.
pub fn check_join_name(display_name: &str) -> (r: Result<String, String>)
    ensures
        MIN_NAME_CHARS <= normalized(display_name@).len() <= MAX_NAME_CHARS ==> (r matches Ok(k) && k@
            == normalized(display_name@)),
        !(MIN_NAME_CHARS <= normalized(display_name@).len() <= MAX_NAME_CHARS) ==> (r matches Err(e)
            && e@ == join_name_length_text(display_name@)),
{
    let key = normalize_name(display_name);
    let length = key.as_str().unicode_len();
    if length < MIN_NAME_CHARS || length > MAX_NAME_CHARS {
        proof {
            reveal_strlit("name must be 3-16 characters, got ");
        }
        let quoted = debug_str(display_name);
        return Err(concat(owned("name must be 3-16 characters, got "), quoted.as_str()));
    }
    Ok(key)
}

} // verus!
