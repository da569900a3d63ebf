//! The grammar of the news-feed envelope, as specification functions over
//! character sequences.
//!
//! The feed body is one JSON object `{ "updates": [ entry, ... ] }` where
//! every entry is an object of string-valued members carrying at least
//! `update_key`, `update_value` and `additional_info`. Member order inside
//! an entry is free, a repeated member name keeps its last value, and
//! string contents may use the single-character backslash escapes. Any
//! other body is rejected. Each parsing function returns the decoded piece
//! together with the index just past it, or `None` when the text does not
//! match the grammar.

use vstd::prelude::*;
use crate::item::UpdateItemView;

verus! {

/// Insignificant whitespace between tokens.
pub open spec fn is_ws(c: char) -> bool {
    c == ' ' || c == '\t' || c == '\n' || c == '\r'
}

/// Index of the first non-whitespace character at or after `i`.
pub open spec fn skip_ws(s: Seq<char>, i: int) -> int
    decreases s.len() - i,
{
    if 0 <= i < s.len() && is_ws(s[i]) {
        skip_ws(s, i + 1)
    } else {
        i
    }
}

/// The character a backslash escape stands for, if the escape is one the
/// format accepts.
pub open spec fn unescaped(c: char) -> Option<char> {
    if c == '"' {
        Some('"')
    } else if c == '\\' {
        Some('\\')
    } else if c == '/' {
        Some('/')
    } else if c == 'b' {
        Some('\u{8}')
    } else if c == 'f' {
        Some('\u{c}')
    } else if c == 'n' {
        Some('\n')
    } else if c == 'r' {
        Some('\r')
    } else if c == 't' {
        Some('\t')
    } else {
        None
    }
}

/// Content of a quoted string whose opening quote stands just before `i`;
/// `acc` holds the characters already decoded. Yields the content and the
/// index just past the closing quote.
pub open spec fn string_body(s: Seq<char>, i: int, acc: Seq<char>) -> Option<(Seq<char>, int)>
    decreases s.len() - i,
{
    if i < 0 || i >= s.len() {
        None
    } else if s[i] == '"' {
        Some((acc, i + 1))
    } else if s[i] == '\\' {
        if i + 1 < s.len() && unescaped(s[i + 1]) is Some {
            string_body(s, i + 2, acc.push(unescaped(s[i + 1])->Some_0))
        } else {
            None
        }
    } else {
        string_body(s, i + 1, acc.push(s[i]))
    }
}

/// A quoted string starting exactly at `i`.
pub open spec fn string_at(s: Seq<char>, i: int) -> Option<(Seq<char>, int)> {
    if 0 <= i < s.len() && s[i] == '"' {
        string_body(s, i + 1, Seq::empty())
    } else {
        None
    }
}

/// One `"name" : "value"` member starting at or after `i` (leading
/// whitespace skipped). Yields name, value, and the index of the first
/// non-whitespace character after the value.
pub open spec fn member_at(s: Seq<char>, i: int) -> Option<(Seq<char>, Seq<char>, int)> {
    match string_at(s, skip_ws(s, i)) {
        None => None,
        Some((k, i2)) => {
            let i3 = skip_ws(s, i2);
            if i3 < s.len() && s[i3] == ':' {
                match string_at(s, skip_ws(s, i3 + 1)) {
                    None => None,
                    Some((v, i5)) => Some((k, v, skip_ws(s, i5))),
                }
            } else {
                None
            }
        }
    }
}

/// The members of a non-empty object, starting at the first member; `acc`
/// holds the members already read, later bindings replacing earlier ones.
/// Yields the finished map and the index just past the closing brace.
pub open spec fn members_from(
    s: Seq<char>,
    i: int,
    acc: Map<Seq<char>, Seq<char>>,
) -> Option<(Map<Seq<char>, Seq<char>>, int)>
    decreases s.len() - i,
{
    match member_at(s, i) {
        None => None,
        Some((k, v, j)) => {
            if j < s.len() && s[j] == ',' && i < j + 1 {
                members_from(s, j + 1, acc.insert(k, v))
            } else if j < s.len() && s[j] == '}' {
                Some((acc.insert(k, v), j + 1))
            } else {
                None
            }
        }
    }
}

/// An object of string-valued members whose `{` stands at or after `i`
/// (leading whitespace skipped).
pub open spec fn object_at(s: Seq<char>, i: int) -> Option<(Map<Seq<char>, Seq<char>>, int)> {
    let i1 = skip_ws(s, i);
    if i1 < s.len() && s[i1] == '{' {
        let j = skip_ws(s, i1 + 1);
        if j < s.len() && s[j] == '}' {
            Some((Map::empty(), j + 1))
        } else {
            members_from(s, j, Map::empty())
        }
    } else {
        None
    }
}

/// The member name of an entry's headline.
pub open spec fn key_name() -> Seq<char> {
    "update_key"@
}

/// The member name of an entry's body text.
pub open spec fn value_name() -> Seq<char> {
    "update_value"@
}

/// The member name of an entry's extra text.
pub open spec fn info_name() -> Seq<char> {
    "additional_info"@
}

/// One feed entry: an object that carries the three required members.
/// An entry missing any of them is rejected whole; no partial entry exists.
pub open spec fn entry_at(s: Seq<char>, i: int) -> Option<(UpdateItemView, int)> {
    match object_at(s, i) {
        None => None,
        Some((m, j)) => {
            if m.contains_key(key_name()) && m.contains_key(value_name()) && m.contains_key(
                info_name(),
            ) {
                Some(
                    (
                        UpdateItemView {
                            update_key: m[key_name()],
                            update_value: m[value_name()],
                            additional_info: m[info_name()],
                        },
                        j,
                    ),
                )
            } else {
                None
            }
        }
    }
}

/// The entries of a non-empty array, starting at the first entry; `acc`
/// holds the entries already read, in feed order. Yields the finished
/// sequence and the index just past the closing bracket.
pub open spec fn entries_from(
    s: Seq<char>,
    i: int,
    acc: Seq<UpdateItemView>,
) -> Option<(Seq<UpdateItemView>, int)>
    decreases s.len() - i,
{
    match entry_at(s, i) {
        None => None,
        Some((it, j0)) => {
            let j = skip_ws(s, j0);
            if j < s.len() && s[j] == ',' && i < j + 1 {
                entries_from(s, j + 1, acc.push(it))
            } else if j < s.len() && s[j] == ']' {
                Some((acc.push(it), j + 1))
            } else {
                None
            }
        }
    }
}

/// The update array whose `[` stands at or after `i` (leading whitespace
/// skipped). Entry order is the display order and is preserved.
pub open spec fn array_at(s: Seq<char>, i: int) -> Option<(Seq<UpdateItemView>, int)> {
    let i1 = skip_ws(s, i);
    if i1 < s.len() && s[i1] == '[' {
        let j = skip_ws(s, i1 + 1);
        if j < s.len() && s[j] == ']' {
            Some((Seq::empty(), j + 1))
        } else {
            entries_from(s, j, Seq::empty())
        }
    } else {
        None
    }
}

/// The member name of the envelope's single field.
pub open spec fn updates_name() -> Seq<char> {
    "updates"@
}

/// The decoded feed: `Some(items)` exactly when the whole text is one
/// object `{ "updates": [ ... ] }` and nothing but whitespace surrounds it,
/// `None` otherwise.
pub open spec fn feed_of(s: Seq<char>) -> Option<Seq<UpdateItemView>> {
    let i0 = skip_ws(s, 0);
    if i0 < s.len() && s[i0] == '{' {
        match string_at(s, skip_ws(s, i0 + 1)) {
            None => None,
            Some((k, i2)) => {
                if k == updates_name() {
                    let i3 = skip_ws(s, i2);
                    if i3 < s.len() && s[i3] == ':' {
                        match array_at(s, i3 + 1) {
                            None => None,
                            Some((items, i4)) => {
                                let i5 = skip_ws(s, i4);
                                if i5 < s.len() && s[i5] == '}' && skip_ws(s, i5 + 1) == s.len() {
                                    Some(items)
                                } else {
                                    None
                                }
                            },
                        }
                    } else {
                        None
                    }
                } else {
                    None
                }
            },
        }
    } else {
        None
    }
}

} // verus!
