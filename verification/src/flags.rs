//! Switches read from the environment: what a variable's text means.
use crate::text::{plain, same_text, spells, to_plain};
use vstd::prelude::*;

verus! {

/// Texts that switch something on.
pub open spec fn is_truthy(s: Seq<char>) -> bool {
    plain(s) == "1"@ || plain(s) == "true"@ || plain(s) == "yes"@ || plain(s) == "on"@
}

pub fn truthy(raw: &str) -> (r: bool)
    ensures
        r == is_truthy(raw@),
{
    let word: Vec<char> = to_plain(raw);
    spells(&word, "1") || spells(&word, "true") || spells(&word, "yes") || spells(&word, "on")
}

/// What a switch says; nothing where its variable is not set.
pub open spec fn flag_value(raw: Option<&str>) -> Option<bool> {
    match raw {
        Some(text) => Some(is_truthy(text@)),
        None => None,
    }
}

pub fn env_flag(raw: Option<&str>) -> (r: Option<bool>)
    ensures
        r == flag_value(raw),
{
    match raw {
        Some(text) => Some(truthy(text)),
        None => None,
    }
}

/// A switch with a default, and a second one that overrules it when on.
pub open spec fn switched(disable: Option<&str>, enable: Option<&str>, default: bool) -> bool {
    if flag_value(disable) == Some(true) {
        false
    } else {
        match flag_value(enable) {
            Some(on) => on,
            None => default,
        }
    }
}

/// Whether the learned appetite of the wingers is consulted, from its two variables.
pub fn winger_pinch_model_enabled(
    disable: Option<&str>,
    enable: Option<&str>,
    default: bool,
) -> (r: bool)
    ensures
        r == switched(disable, enable, default),
{
    if let Some(true) = env_flag(disable) {
        return false;
    }
    match env_flag(enable) {
        Some(on) => on,
        None => default,
    }
}

/// Whether the learned appetite is consulted in a live match: on unless switched off.
pub fn winger_pinch_model_enabled_from_env(disable: Option<&str>, enable: Option<&str>) -> (r: bool)
    ensures
        r == switched(disable, enable, true),
{
    winger_pinch_model_enabled(disable, enable, true)
}

/// The text switches something off, whatever its case and the spaces around it.
pub open spec fn is_denial(raw: Seq<char>) -> bool {
    plain(raw) == "0"@ || plain(raw) == "false"@ || plain(raw) == "no"@ || plain(raw) == "off"@
}

/// Whether the text switches something off.
pub fn denies(raw: &str) -> (r: bool)
    ensures
        r == is_denial(raw@),
{
    let word: Vec<char> = to_plain(raw);
    spells(&word, "0") || spells(&word, "false") || spells(&word, "no") || spells(&word, "off")
}

/// Whether wingers decide to pinch in: on unless switched off.
pub fn winger_pinch_in_enabled(raw: Option<&str>) -> (r: bool)
    ensures
        r == match raw {
            Some(text) => !is_denial(text@),
            None => true,
        },
{
    match raw {
        Some(text) => !denies(text),
        None => true,
    }
}

/// Whether wingers decide to pinch in during a rehearsed match: off unless switched on.
pub fn winger_pinch_in_rehearsed(enable: Option<&str>) -> (r: bool)
    ensures
        r == switched(None, enable, false),
{
    match env_flag(enable) {
        Some(on) => on,
        None => false,
    }
}

/// A switch is not thrown both ways by one text.
pub proof fn words_are_on_or_off(raw: Seq<char>)
    ensures
        !(is_truthy(raw) && is_denial(raw)),
{
    reveal_strlit("1");
    reveal_strlit("true");
    reveal_strlit("yes");
    reveal_strlit("on");
    reveal_strlit("0");
    reveal_strlit("false");
    reveal_strlit("no");
    reveal_strlit("off");
    assert("1"@[0] == '1' && "true"@[0] == 't' && "yes"@[0] == 'y' && "on"@[0] == 'o');
    assert("0"@[0] == '0' && "false"@[0] == 'f' && "no"@[0] == 'n' && "off"@[0] == 'o');
    assert("on"@.len() == 2 && "off"@.len() == 3);
}

/// Whether promotion counts draws in its bound: off unless switched on.
pub fn draw_aware_wilson_enabled(enable: Option<&str>) -> (r: bool)
    ensures
        r == switched(None, enable, false),
{
    match env_flag(enable) {
        Some(on) => on,
        None => false,
    }
}

/// Whether slow programs are reported: on for any text but `0` and the empty one.
pub fn soccer_lp_debug_enabled(raw: Option<&str>) -> (r: bool)
    ensures
        r == match raw {
            Some(text) => text@ != "0"@ && text@ != ""@,
            None => false,
        },
{
    match raw {
        Some(text) => !same_text(text, "0") && !same_text(text, ""),
        None => false,
    }
}

/// Whether formations are solved exactly, tick by tick.
pub fn soccer_formation_lp_internal_simplex_enabled(raw: Option<&str>) -> (r: bool)
    ensures
        r == match raw {
            Some(text) => {
                ||| text@ == "1"@
                ||| text@ == "true"@
                ||| text@ == "TRUE"@
                ||| text@ == "yes"@
                ||| text@ == "YES"@
                ||| text@ == "on"@
                ||| text@ == "ON"@
            },
            None => false,
        },
{
    match raw {
        Some(text) => same_text(text, "1") || same_text(text, "true") || same_text(text, "TRUE")
            || same_text(text, "yes") || same_text(text, "YES") || same_text(text, "on")
            || same_text(text, "ON"),
        None => false,
    }
}

/// Switching off overrules switching on.
pub proof fn disabling_wins(disable: &str, enable: Option<&str>, default: bool)
    requires
        is_truthy(disable@),
    ensures
        !switched(Some(disable), enable, default),
{
}

} // verus!
