//! The defensive check of a saved directory path.
//!
//! At startup the embedding application reads a previously saved directory
//! path from its settings store and asks its sandbox to allow that directory.
//! A saved value is honored only when it is non-blank and absolute; anything
//! else is dropped silently rather than passed on.

use vstd::prelude::*;

verus! {

/// The saved directory path that a settings store's text holds: the string
/// under the store's saved-directory key, if the text is a JSON object with
/// a string there. A function of the text alone.
pub uninterp spec fn saved_dir_value(contents: Seq<char>) -> Option<Seq<char>>;

/// Relies on serde_json::from_str, Value::get and Value::as_str: parsing is
/// deterministic, and the result is the string under the "promptDir" key of
/// the parsed object, or nothing when the text does not parse, the key is
/// missing, or its value is not a string.
#[verifier::external_body]
fn read_saved_dir(contents: &str) -> (r: Option<String>)
    ensures
        match r {
            Some(p) => saved_dir_value(contents@) == Some(p@),
            None => saved_dir_value(contents@) is None,
        },
{
    serde_json::from_str::<serde_json::Value>(contents).ok().and_then(
        |json| json.get("promptDir").and_then(|value| value.as_str()).map(|s| s.to_string()),
    )
}

/// Reads the saved directory path out of the settings store's text and
/// approves it only when it is present, non-blank and absolute; any other
/// text yields `None`.
pub fn approve_saved_settings(contents: &str) -> (r: Option<String>)
    ensures
        match r {
            Some(p) => {
                &&& saved_dir_value(contents@) == Some(p@)
                &&& !all_space(p@)
                &&& p@.len() > 0 && p@[0] == '/'
            },
            None => match saved_dir_value(contents@) {
                Some(v) => all_space(v) || v[0] != '/',
                None => true,
            },
        },
{
    approve_saved_dir(read_saved_dir(contents))
}

/// The code points with the Unicode `White_Space` property, the ones a trim
/// of the saved value would remove.
pub open spec fn spec_is_space(c: char) -> bool {
    let u = c as u32;
    (0x9 <= u && u <= 0xD) || u == 0x20 || u == 0x85 || u == 0xA0 || u == 0x1680 || (0x2000 <= u
        && u <= 0x200A) || u == 0x2028 || u == 0x2029 || u == 0x202F || u == 0x205F || u == 0x3000
}

/// A string that trims to nothing: every character is whitespace.
pub open spec fn all_space(s: Seq<char>) -> bool {
    forall|i: int| 0 <= i < s.len() ==> spec_is_space(s[i])
}

fn is_space_char(c: char) -> (b: bool)
    ensures
        b == spec_is_space(c),
{
    let u = c as u32;
    (0x9 <= u && u <= 0xD) || u == 0x20 || u == 0x85 || u == 0xA0 || u == 0x1680 || (0x2000 <= u
        && u <= 0x200A) || u == 0x2028 || u == 0x2029 || u == 0x202F || u == 0x205F || u == 0x3000
}

/// Decides whether a directory path read from settings may be handed to the
/// sandbox: only a present, non-blank, absolute (leading slash) path is; a
/// missing, blank or relative value yields `None` and is ignored.
pub fn approve_saved_dir(saved: Option<String>) -> (r: Option<String>)
    ensures
        r is Some ==> saved == Some(r.unwrap()),
        r is Some ==> !all_space(r.unwrap()@),
        r is Some ==> r.unwrap()@.len() > 0 && r.unwrap()@[0] == '/',
        r is None && saved is Some ==> all_space(saved.unwrap()@) || saved.unwrap()@[0] != '/',
{
    let s = match saved {
        Some(s) => s,
        None => {
            return None;
        },
    };
    let n = s.as_str().unicode_len();
    let mut i: usize = 0;
    while i < n
        invariant
            saved == Some(s),
            i <= n,
            n == s@.len(),
            forall|j: int| 0 <= j < i ==> spec_is_space(s@[j]),
        decreases n - i,
    {
        if !is_space_char(s.as_str().get_char(i)) {
            proof {
                assert(!spec_is_space(s@[i as int]));
                assert(!all_space(s@));
            }
            if s.as_str().get_char(0) == '/' {
                return Some(s);
            } else {
                return None;
            }
        }
        i += 1;
    }
    None
}

} // verus!
