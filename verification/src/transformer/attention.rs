//! Which attention kernel a model uses: the standard one or the fused one.
//!
//! The choice is made once, when a model is built. A recognised override
//! wins over the configuration, and the configuration over the default,
//! which is the standard kernel.

use vstd::prelude::*;

verus! {

/// The name under which a configuration asks for the fused kernel.
pub const FLASH_ATTENTION_NAME: &'static str = "flash_attention_2";

/// The lower-case form of an upper-case ASCII letter; any other character
/// as it is.
pub open spec fn ascii_lower(c: char) -> char {
    if 'A' <= c && c <= 'Z' {
        ((c as u32) + 32) as char
    } else {
        c
    }
}

/// A text with its upper-case ASCII letters made lower-case.
pub open spec fn lowercase(s: Seq<char>) -> Seq<char> {
    Seq::new(s.len(), |i: int| ascii_lower(s[i]))
}

/// Two texts are the same but for the case of their ASCII letters.
pub open spec fn same_ignoring_case(a: Seq<char>, b: Seq<char>) -> bool {
    lowercase(a) == lowercase(b)
}

/// What a setting says, if it is one of the recognised words: `1`, `true`
/// and `yes` say yes, `0`, `false` and `no` say no, in any case of letters.
pub open spec fn flag_value(s: Seq<char>) -> Option<bool> {
    if same_ignoring_case(s, "1"@) || same_ignoring_case(s, "true"@) || same_ignoring_case(
        s,
        "yes"@,
    ) {
        Some(true)
    } else if same_ignoring_case(s, "0"@) || same_ignoring_case(s, "false"@) || same_ignoring_case(
        s,
        "no"@,
    ) {
        Some(false)
    } else {
        None
    }
}

/// Whether the fused kernel is used: what a recognised override says, else
/// whether the configuration names the fused kernel.
pub open spec fn flash_choice(configured: Option<Seq<char>>, over: Option<Seq<char>>) -> bool {
    let from_config = match configured {
        Some(name) => same_ignoring_case(name, FLASH_ATTENTION_NAME@),
        None => false,
    };
    match over {
        Some(value) => match flag_value(value) {
            Some(choice) => choice,
            None => from_config,
        },
        None => from_config,
    }
}

/// The lower-case form of an upper-case ASCII letter; any other character
/// as it is.
pub fn to_ascii_lower(c: char) -> (r: char)
    ensures
        r == ascii_lower(c),
{
    if 'A' <= c && c <= 'Z' {
        ((c as u8) + 32) as char
    } else {
        c
    }
}

/// Whether two texts are the same but for the case of their ASCII letters.
pub fn eq_ignore_ascii_case(a: &str, b: &str) -> (r: bool)
    ensures
        r == same_ignoring_case(a@, b@),
{
    let n = a.unicode_len();
    if b.unicode_len() != n {
        assert(lowercase(a@).len() != lowercase(b@).len());
        return false;
    }
    let mut i: usize = 0;
    while i < n
        invariant
            n == a@.len(),
            n == b@.len(),
            i <= n,
            forall|j: int| 0 <= j < i ==> ascii_lower(a@[j]) == ascii_lower(b@[j]),
        decreases n - i,
    {
        if to_ascii_lower(a.get_char(i)) != to_ascii_lower(b.get_char(i)) {
            assert(lowercase(a@)[i as int] != lowercase(b@)[i as int]);
            return false;
        }
        i = i + 1;
    }
    assert(lowercase(a@) =~= lowercase(b@));
    true
}

/// Reads a yes-or-no setting; `None` for a value that is not recognised.
pub fn parse_flag(value: &str) -> (r: Option<bool>)
    ensures
        r == flag_value(value@),
{
    if eq_ignore_ascii_case(value, "1") || eq_ignore_ascii_case(value, "true")
        || eq_ignore_ascii_case(value, "yes") {
        Some(true)
    } else if eq_ignore_ascii_case(value, "0") || eq_ignore_ascii_case(value, "false")
        || eq_ignore_ascii_case(value, "no") {
        Some(false)
    } else {
        None
    }
}

/// Decides once whether a model uses the fused attention kernel.
///
/// `configured` is the kernel that the configuration names, `override_value`
/// the setting that overrides it, if one was made.
pub fn resolve_flash_attention(configured: Option<&str>, override_value: Option<&str>) -> (r: bool)
    ensures
        r == flash_choice(
            match configured {
                Some(s) => Some(s@),
                None => None,
            },
            match override_value {
                Some(s) => Some(s@),
                None => None,
            },
        ),
{
    let from_config = match configured {
        Some(name) => eq_ignore_ascii_case(name, FLASH_ATTENTION_NAME),
        None => false,
    };
    match override_value {
        Some(value) => match parse_flag(value) {
            Some(choice) => choice,
            None => from_config,
        },
        None => from_config,
    }
}

} // verus!
