//! The executable feed decoder, proved to return exactly what the grammar
//! in [`crate::grammar`] assigns to the text.

use vstd::prelude::*;
use crate::grammar::{
    array_at, entry_at, feed_of, info_name, is_ws, key_name, member_at, members_from, object_at,
    skip_ws, string_at, string_body, unescaped, value_name,
};
use crate::item::{items_view, UpdateItem};

verus! {

/// The ways a feed retrieval can fail: the transport failed, the server
/// answered with a status other than success, or the body did not match
/// the feed grammar.
#[derive(Clone, Copy, Debug, PartialEq, Eq, Structural)]
pub enum FetchError {
    Network,
    HttpStatus(u16),
    Decode,
}

/// Relies on String::push, which appends the given character to the end of
/// the string.
pub assume_specification[ String::push ](s: &mut String, ch: char)
    ensures
        final(s)@ == old(s)@.push(ch),
;

fn char_is_ws(c: char) -> (r: bool)
    ensures
        r == is_ws(c),
{
    c == ' ' || c == '\t' || c == '\n' || c == '\r'
}

/// First non-whitespace position at or after `i`.
fn ws_end(s: &Vec<char>, i: usize) -> (r: usize)
    requires
        i <= s@.len(),
    ensures
        r as int == skip_ws(s@, i as int),
        i <= r <= s@.len(),
{
    let mut j = i;
    while j < s.len() && char_is_ws(s[j])
        invariant
            i <= j <= s@.len(),
            skip_ws(s@, i as int) == skip_ws(s@, j as int),
        decreases s@.len() - j,
    {
        j = j + 1;
    }
    j
}

fn unescape_char(c: char) -> (r: Option<char>)
    ensures
        r == unescaped(c),
{
    if c == '"' {
        Some('"')
    } else if c == '\\' {
        Some('\\')
    } else if c == '/' {
        Some('/')
    } else if c == 'b' {
        Some('\u{8}')
    } else if c == 'f' {
        Some('\u{c}')
    } else if c == 'n' {
        Some('\n')
    } else if c == 'r' {
        Some('\r')
    } else if c == 't' {
        Some('\t')
    } else {
        None
    }
}

/// Reads the quoted string starting exactly at `i`.
fn parse_string(s: &Vec<char>, i: usize) -> (r: Option<(Vec<char>, usize)>)
    requires
        i <= s@.len(),
    ensures
        r is None ==> string_at(s@, i as int) is None,
        r matches Some((c, j)) ==> string_at(s@, i as int) == Some((c@, j as int)) && i < j
            <= s@.len(),
{
    if !(i < s.len() && s[i] == '"') {
        return None;
    }
    let mut acc: Vec<char> = Vec::new();
    let mut j = i + 1;
    loop
        invariant
            i + 1 <= j <= s@.len(),
            i < s@.len(),
            s@[i as int] == '"',
            string_body(s@, i as int + 1, Seq::empty()) == string_body(s@, j as int, acc@),
        decreases s@.len() - j,
    {
        if j >= s.len() {
            return None;
        }
        let c = s[j];
        if c == '"' {
            return Some((acc, j + 1));
        } else if c == '\\' {
            if j + 1 < s.len() {
                match unescape_char(s[j + 1]) {
                    Some(d) => {
                        acc.push(d);
                        j = j + 2;
                    },
                    None => {
                        return None;
                    },
                }
            } else {
                return None;
            }
        } else {
            acc.push(c);
            j = j + 1;
        }
    }
}

/// Reads one `"name" : "value"` member at or after `i`.
fn parse_member(s: &Vec<char>, i: usize) -> (r: Option<(Vec<char>, Vec<char>, usize)>)
    requires
        i <= s@.len(),
    ensures
        r is None ==> member_at(s@, i as int) is None,
        r matches Some((k, v, j)) ==> member_at(s@, i as int) == Some((k@, v@, j as int)) && i < j
            <= s@.len(),
{
    let i1 = ws_end(s, i);
    match parse_string(s, i1) {
        None => None,
        Some((k, i2)) => {
            let i3 = ws_end(s, i2);
            if i3 < s.len() && s[i3] == ':' {
                let i4 = ws_end(s, i3 + 1);
                match parse_string(s, i4) {
                    None => None,
                    Some((v, i5)) => {
                        let j = ws_end(s, i5);
                        Some((k, v, j))
                    },
                }
            } else {
                None
            }
        },
    }
}

/// Character-for-character comparison of a decoded string with a literal.
fn chars_eq_str(v: &Vec<char>, s: &str) -> (r: bool)
    ensures
        r == (v@ == s@),
{
    let n = s.unicode_len();
    if v.len() != n {
        return false;
    }
    let mut i: usize = 0;
    while i < n
        invariant
            i <= n,
            n == s@.len(),
            v@.len() == n,
            forall|t: int| 0 <= t < i ==> v@[t] == s@[t],
        decreases n - i,
    {
        if v[i] != s.get_char(i) {
            return false;
        }
        i = i + 1;
    }
    proof {
        assert(v@ =~= s@);
    }
    true
}

/// Reads one feed entry (an object with the three required members) at or
/// after `i`.
fn parse_entry(s: &Vec<char>, i: usize) -> (r: Option<(UpdateItem, usize)>)
    requires
        i <= s@.len(),
    ensures
        r is None ==> entry_at(s@, i as int) is None,
        r matches Some((it, j)) ==> entry_at(s@, i as int) == Some((it@, j as int)) && i < j
            <= s@.len(),
{
    let i1 = ws_end(s, i);
    if !(i1 < s.len() && s[i1] == '{') {
        return None;
    }
    let j0 = ws_end(s, i1 + 1);
    if j0 < s.len() && s[j0] == '}' {
        // An empty object misses every required member.
        return None;
    }
    let ghost g_acc: Map<Seq<char>, Seq<char>> = Map::empty();
    let mut f_key: Option<Vec<char>> = None;
    let mut f_value: Option<Vec<char>> = None;
    let mut f_info: Option<Vec<char>> = None;
    let mut cur = j0;
    loop
        invariant
            i < cur <= s@.len(),
            object_at(s@, i as int) == members_from(s@, cur as int, g_acc),
            f_key is Some <==> g_acc.contains_key(key_name()),
            f_value is Some <==> g_acc.contains_key(value_name()),
            f_info is Some <==> g_acc.contains_key(info_name()),
            f_key matches Some(x) ==> g_acc[key_name()] == x@,
            f_value matches Some(x) ==> g_acc[value_name()] == x@,
            f_info matches Some(x) ==> g_acc[info_name()] == x@,
        decreases s@.len() - cur,
    {
        match parse_member(s, cur) {
            None => {
                return None;
            },
            Some((k, v, j)) => {
                if chars_eq_str(&k, "update_key") {
                    f_key = Some(v.clone());
                }
                if chars_eq_str(&k, "update_value") {
                    f_value = Some(v.clone());
                }
                if chars_eq_str(&k, "additional_info") {
                    f_info = Some(v.clone());
                }
                proof {
                    g_acc = g_acc.insert(k@, v@);
                }
                if j < s.len() && s[j] == ',' {
                    cur = j + 1;
                } else if j < s.len() && s[j] == '}' {
                    match (f_key, f_value, f_info) {
                        (Some(fk), Some(fv), Some(fi)) => {
                            return Some(
                                (
                                    UpdateItem {
                                        update_key: chars_to_string(&fk),
                                        update_value: chars_to_string(&fv),
                                        additional_info: chars_to_string(&fi),
                                    },
                                    j + 1,
                                ),
                            );
                        },
                        _ => {
                            return None;
                        },
                    }
                } else {
                    return None;
                }
            },
        }
    }
}

/// Collects a vector of characters into a string with the same characters.
fn chars_to_string(v: &Vec<char>) -> (r: String)
    ensures
        r@ == v@,
{
    let mut r = String::new();
    let mut i: usize = 0;
    while i < v.len()
        invariant
            i <= v@.len(),
            r@ == v@.subrange(0, i as int),
        decreases v@.len() - i,
    {
        r.push(v[i]);
        proof {
            assert(r@ =~= v@.subrange(0, i as int + 1));
        }
        i = i + 1;
    }
    proof {
        assert(r@ =~= v@);
    }
    r
}

/// Reads the update array at or after `i`.
fn parse_array(s: &Vec<char>, i: usize) -> (r: Option<(Vec<UpdateItem>, usize)>)
    requires
        i <= s@.len(),
    ensures
        r is None ==> array_at(s@, i as int) is None,
        r matches Some((items, j)) ==> array_at(s@, i as int) == Some(
            (items_view(items@), j as int),
        ) && i < j <= s@.len(),
{
    let i1 = ws_end(s, i);
    if !(i1 < s.len() && s[i1] == '[') {
        return None;
    }
    let j0 = ws_end(s, i1 + 1);
    if j0 < s.len() && s[j0] == ']' {
        let empty: Vec<UpdateItem> = Vec::new();
        proof {
            assert(items_view(empty@) =~= Seq::<crate::item::UpdateItemView>::empty());
        }
        return Some((empty, j0 + 1));
    }
    let mut items: Vec<UpdateItem> = Vec::new();
    let mut cur = j0;
    proof {
        assert(items_view(items@) =~= Seq::<crate::item::UpdateItemView>::empty());
    }
    loop
        invariant
            i < cur <= s@.len(),
            array_at(s@, i as int) == crate::grammar::entries_from(
                s@,
                cur as int,
                items_view(items@),
            ),
        decreases s@.len() - cur,
    {
        match parse_entry(s, cur) {
            None => {
                return None;
            },
            Some((it, je)) => {
                let j = ws_end(s, je);
                let ghost old_items = items@;
                items.push(it);
                proof {
                    assert(items_view(items@) =~= items_view(old_items).push(it@));
                }
                if j < s.len() && s[j] == ',' {
                    cur = j + 1;
                } else if j < s.len() && s[j] == ']' {
                    return Some((items, j + 1));
                } else {
                    return None;
                }
            },
        }
    }
}

/// The characters of a text, in order.
fn chars_of(s: &str) -> (r: Vec<char>)
    ensures
        r@ == s@,
{
    let n = s.unicode_len();
    let mut r: Vec<char> = Vec::new();
    let mut i: usize = 0;
    while i < n
        invariant
            i <= n,
            n == s@.len(),
            r@ == s@.subrange(0, i as int),
        decreases n - i,
    {
        r.push(s.get_char(i));
        proof {
            assert(r@ =~= s@.subrange(0, i as int + 1));
        }
        i = i + 1;
    }
    proof {
        assert(r@ =~= s@);
    }
    r
}

/// Decodes a feed body. Returns the feed's items, in the order the body
/// gives them, exactly when the body matches the feed grammar; any other
/// body yields `FetchError::Decode` and no items at all.
pub fn decode_news_body(body: &str) -> (r: Result<Vec<UpdateItem>, FetchError>)
    ensures
        r is Ok <==> feed_of(body@) is Some,
        r matches Ok(items) ==> feed_of(body@) == Some(items_view(items@)),
        r is Err ==> r == Err::<Vec<UpdateItem>, FetchError>(FetchError::Decode),
{
    let s = chars_of(body);
    let i0 = ws_end(&s, 0);
    if !(i0 < s.len() && s[i0] == '{') {
        return Err(FetchError::Decode);
    }
    let i1 = ws_end(&s, i0 + 1);
    match parse_string(&s, i1) {
        None => Err(FetchError::Decode),
        Some((k, i2)) => {
            if !chars_eq_str(&k, "updates") {
                return Err(FetchError::Decode);
            }
            let i3 = ws_end(&s, i2);
            if !(i3 < s.len() && s[i3] == ':') {
                return Err(FetchError::Decode);
            }
            match parse_array(&s, i3 + 1) {
                None => Err(FetchError::Decode),
                Some((items, i4)) => {
                    let i5 = ws_end(&s, i4);
                    if i5 < s.len() && s[i5] == '}' && ws_end(&s, i5 + 1) == s.len() {
                        Ok(items)
                    } else {
                        Err(FetchError::Decode)
                    }
                },
            }
        },
    }
}

/// Interprets one HTTP exchange. A status other than 200 yields
/// `HttpStatus` with that status; on success the body is decoded as
/// [`decode_news_body`] says.
pub fn process_response(status: u16, body: &str) -> (r: Result<Vec<UpdateItem>, FetchError>)
    ensures
        status != 200 ==> r == Err::<Vec<UpdateItem>, FetchError>(FetchError::HttpStatus(status)),
        status == 200 ==> (r is Ok <==> feed_of(body@) is Some),
        r matches Ok(items) ==> status == 200 && feed_of(body@) == Some(items_view(items@)),
        status == 200 && feed_of(body@) is None ==> r == Err::<Vec<UpdateItem>, FetchError>(
            FetchError::Decode,
        ),
{
    if status != 200 {
        return Err(FetchError::HttpStatus(status));
    }
    decode_news_body(body)
}

} // verus!
