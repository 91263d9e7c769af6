//! Room codes (`U/XXXX-XXXX-XXXX-XXXX`) and the helper's host and join
//! request paths.

use vstd::prelude::*;

use crate::encoding::{url_encode, url_encoded};
use crate::error::TerracottaError;
use crate::text::{
    ascii_lower, ascii_lower_seq, keeps_white_space, lemma_case_keeps_white_space,
    lemma_trimmed_idempotent, lemma_trimmed_map, ascii_upper, ascii_upper_seq, chars_of, is_ascii_alnum, is_ascii_alphanumeric, is_white_space,
    push_char, to_ascii_uppercase, trim, trim_bounds, trim_end, trim_start, trimmed,
};

verus! {

/// The part of a room code after `U/`: four groups of four ASCII letters or
/// digits, joined by `-`.
pub open spec fn is_room_body(b: Seq<char>) -> bool {
    &&& b.len() == 19
    &&& forall|i: int|
        0 <= i < 19 ==> if i % 5 == 4 {
            #[trigger] b[i] == '-'
        } else {
            is_ascii_alnum(b[i])
        }
}

/// Text that starts with `U/` or `u/`.
pub open spec fn has_room_prefix(t: Seq<char>) -> bool {
    &&& t.len() >= 2
    &&& t[0] == 'U' || t[0] == 'u'
    &&& t[1] == '/'
}

/// The canonical form of a room code, or `None` where `code` is not one:
/// surrounding whitespace is dropped, the prefix becomes `U/` and the groups
/// are upper-cased.
pub open spec fn normalized_room_code(code: Seq<char>) -> Option<Seq<char>> {
    let t = trimmed(code);
    if has_room_prefix(t) && is_room_body(t.skip(2)) {
        Some("U/"@ + ascii_upper_seq(t.skip(2)))
    } else {
        None
    }
}

/// A room code in canonical form: `U/` and four upper-case groups.
pub open spec fn is_canonical_room_code(r: Seq<char>) -> bool {
    &&& r.len() == 21
    &&& r[0] == 'U'
    &&& r[1] == '/'
    &&& is_room_body(r.skip(2))
    &&& forall|i: int| 0 <= i < r.len() ==> !('a' <= #[trigger] r[i] <= 'z')
}

/// Checks a room code and brings it to canonical form.
pub fn normalize_room_code(code: &str) -> (r: Result<String, TerracottaError>)
    ensures
        match r {
            Ok(s) => normalized_room_code(code@) == Some(s@),
            Err(e) => normalized_room_code(code@) is None && e is InvalidRoomCode,
        },
{
    let chars = chars_of(code);
    let (lo, hi) = trim_bounds(&chars);
    let ghost t = trimmed(code@);
    assert(t == chars@.subrange(lo as int, hi as int));
    if hi - lo < 2 || !(chars[lo] == 'U' || chars[lo] == 'u') || chars[lo + 1] != '/' {
        return Err(TerracottaError::InvalidRoomCode);
    }
    let start = lo + 2;
    let ghost body = t.skip(2);
    assert(body == chars@.subrange(start as int, hi as int));
    if hi - start != 19 {
        return Err(TerracottaError::InvalidRoomCode);
    }
    let mut i: usize = 0;
    while i < 19
        invariant
            i <= 19,
            start + 19 == hi <= chars@.len(),
            body == chars@.subrange(start as int, hi as int),
            body == trimmed(code@).skip(2),
            forall|k: int|
                0 <= k < i ==> if k % 5 == 4 {
                    #[trigger] body[k] == '-'
                } else {
                    is_ascii_alnum(body[k])
                },
        decreases 19 - i,
    {
        let c = chars[start + i];
        let ok = if i % 5 == 4 {
            c == '-'
        } else {
            is_ascii_alphanumeric(c)
        };
        if !ok {
            assert(body[i as int] == c);
            assert(!is_room_body(body));
            return Err(TerracottaError::InvalidRoomCode);
        }
        i = i + 1;
    }
    assert(is_room_body(body));
    let mut out = String::from_str("U/");
    let mut k: usize = 0;
    while k < 19
        invariant
            k <= 19,
            start + 19 == hi <= chars@.len(),
            body == chars@.subrange(start as int, hi as int),
            out@ == "U/"@ + ascii_upper_seq(body.take(k as int)),
        decreases 19 - k,
    {
        push_char(&mut out, to_ascii_uppercase(chars[start + k]));
        assert(body.take(k + 1) == body.take(k as int).push(body[k as int]));
        assert(ascii_upper_seq(body.take(k + 1)) == ascii_upper_seq(body.take(k as int)).push(
            ascii_upper(body[k as int]),
        ));
        k = k + 1;
    }
    assert(body.take(19) == body);
    Ok(out)
}

/// Upper-casing keeps ASCII letters and digits such, and is idempotent.
proof fn lemma_ascii_upper(c: char)
    ensures
        is_ascii_alnum(ascii_upper(c)) == is_ascii_alnum(c),
        ascii_upper(ascii_upper(c)) == ascii_upper(c),
        !('a' <= ascii_upper(c) <= 'z'),
        c == '-' ==> ascii_upper(c) == '-',
{
}

/// A room body stays one once upper-cased, and upper-casing it again
/// changes nothing.
proof fn lemma_upper_room_body(b: Seq<char>)
    requires
        is_room_body(b),
    ensures
        is_room_body(ascii_upper_seq(b)),
        ascii_upper_seq(ascii_upper_seq(b)) == ascii_upper_seq(b),
{
    let u = ascii_upper_seq(b);
    assert forall|i: int| 0 <= i < 19 implies (if i % 5 == 4 {
        #[trigger] u[i] == '-'
    } else {
        is_ascii_alnum(u[i])
    }) by {
        lemma_ascii_upper(b[i]);
    }
    assert forall|i: int| 0 <= i < u.len() implies #[trigger] ascii_upper_seq(u)[i] == u[i] by {
        lemma_ascii_upper(b[i]);
    }
    assert(ascii_upper_seq(u) =~= u);
}

/// Every accepted room code comes out in canonical form.
pub proof fn lemma_normalized_room_code_canonical(code: Seq<char>)
    requires
        normalized_room_code(code) is Some,
    ensures
        is_canonical_room_code(normalized_room_code(code)->0),
{
    reveal_strlit("U/");
    let t = trimmed(code);
    let body = t.skip(2);
    let r = normalized_room_code(code)->0;
    lemma_upper_room_body(body);
    assert(r.skip(2) =~= ascii_upper_seq(body));
    assert forall|i: int| 0 <= i < r.len() implies !('a' <= #[trigger] r[i] <= 'z') by {
        if i >= 2 {
            assert(r[i] == ascii_upper(body[i - 2]));
            lemma_ascii_upper(body[i - 2]);
        }
    }
}

/// A room code in canonical form is accepted as it is.
pub proof fn lemma_canonical_room_code_fixed(r: Seq<char>)
    requires
        is_canonical_room_code(r),
    ensures
        normalized_room_code(r) == Some(r),
{
    reveal_strlit("U/");
    let body = r.skip(2);
    assert(!is_white_space(r[0]));
    assert(trim_start(r) == r);
    assert(r.last() == body[18]);
    assert(is_ascii_alnum(body[18]));
    assert(!is_white_space(r.last()));
    assert(trim_end(r) == r);
    assert(trimmed(r) == r);
    assert forall|i: int| 0 <= i < body.len() implies #[trigger] ascii_upper_seq(body)[i]
        == body[i] by {
        assert(body[i] == r[i + 2]);
        assert(!('a' <= r[i + 2] <= 'z'));
    }
    assert(ascii_upper_seq(body) =~= body);
    assert("U/"@ + body =~= r);
}

/// Normalising twice gives what normalising once gave.
pub proof fn lemma_normalize_room_code_idempotent(code: Seq<char>)
    requires
        normalized_room_code(code) is Some,
    ensures
        normalized_room_code(normalized_room_code(code)->0) == normalized_room_code(code),
{
    lemma_normalized_room_code_canonical(code);
    lemma_canonical_room_code_fixed(normalized_room_code(code)->0);
}

/// The view of an optional string.
pub open spec fn opt_view(o: Option<String>) -> Option<Seq<char>> {
    match o {
        Some(s) => Some(s@),
        None => None,
    }
}

/// The path of a helper request about a room: `endpoint` (which ends in
/// `?room=`), the encoded room code, and the encoded, trimmed player name.
pub open spec fn room_request_path(endpoint: Seq<char>, room: Seq<char>, player: Seq<char>) -> Seq<
    char,
> {
    endpoint + url_encoded(room) + "&player="@ + url_encoded(trimmed(player))
}

/// The room that a host asks for: none (empty) where the code is absent or
/// blank, else the normalised code; `None` where the code is invalid.
pub open spec fn host_room(room_code: Option<Seq<char>>) -> Option<Seq<char>> {
    let t = trimmed(
        match room_code {
            Some(c) => c,
            None => Seq::empty(),
        },
    );
    if t.len() == 0 {
        Some(Seq::empty())
    } else {
        normalized_room_code(t)
    }
}

/// The room that a guest asks to join, or `None` where the code is invalid.
pub open spec fn join_room(room_code: Seq<char>) -> Option<Seq<char>> {
    normalized_room_code(trimmed(room_code))
}

/// Appends the encoded room and player to a request path.
fn room_path(endpoint: &str, room: &str, player_name: &str) -> (p: String)
    ensures
        p@ == room_request_path(endpoint@, room@, player_name@),
{
    let mut p = String::from_str(endpoint);
    let room_enc = url_encode(room);
    p.append(room_enc.as_str());
    p.append("&player=");
    let player = trim(player_name);
    let player_enc = url_encode(player.as_str());
    p.append(player_enc.as_str());
    p
}

/// The path that asks the helper to host a room: `/state/scanning` with the
/// room (empty for a new room) and the player's name.
pub fn host_request_path(room_code: Option<String>, player_name: &str) -> (r: Result<
    String,
    TerracottaError,
>)
    ensures
        match r {
            Ok(p) => host_room(opt_view(room_code)) is Some && p@ == room_request_path(
                "/state/scanning?room="@,
                host_room(opt_view(room_code))->0,
                player_name@,
            ),
            Err(e) => host_room(opt_view(room_code)) is None && e is InvalidRoomCode,
        },
{
    let room = match &room_code {
        Some(c) => trim(c.as_str()),
        None => String::new(),
    };
    assert(room@ == trimmed(
        match opt_view(room_code) {
            Some(c) => c,
            None => Seq::empty(),
        },
    ));
    let room = if room.as_str().is_empty() {
        String::new()
    } else {
        match normalize_room_code(room.as_str()) {
            Ok(code) => code,
            Err(e) => {
                return Err(e);
            },
        }
    };
    Ok(room_path("/state/scanning?room=", room.as_str(), player_name))
}

/// The path that asks the helper to join a room: `/state/guesting` with the
/// normalised room code and the player's name.
pub fn join_request_path(room_code: &str, player_name: &str) -> (r: Result<
    String,
    TerracottaError,
>)
    ensures
        match r {
            Ok(p) => join_room(room_code@) is Some && p@ == room_request_path(
                "/state/guesting?room="@,
                join_room(room_code@)->0,
                player_name@,
            ),
            Err(e) => join_room(room_code@) is None && e is InvalidRoomCode,
        },
{
    let code = trim(room_code);
    match normalize_room_code(code.as_str()) {
        Ok(code) => Ok(room_path("/state/guesting?room=", code.as_str(), player_name)),
        Err(e) => Err(e),
    }
}

/// A host asks either for a new room (an empty code) or for a room whose
/// code is in canonical form.
pub proof fn lemma_host_room_canonical(room_code: Option<Seq<char>>)
    requires
        host_room(room_code) is Some,
    ensures
        host_room(room_code)->0.len() == 0 || is_canonical_room_code(host_room(room_code)->0),
{
    let t = trimmed(
        match room_code {
            Some(c) => c,
            None => Seq::empty(),
        },
    );
    if t.len() > 0 {
        lemma_normalized_room_code_canonical(t);
    }
}

/// A guest asks to join a room whose code is in canonical form.
pub proof fn lemma_join_room_canonical(room_code: Seq<char>)
    requires
        join_room(room_code) is Some,
    ensures
        is_canonical_room_code(join_room(room_code)->0),
{
    lemma_normalized_room_code_canonical(trimmed(room_code));
}

/// Normalising a code trimmed gives what normalising it as it is gives.
pub proof fn lemma_normalize_room_code_trim(code: Seq<char>)
    ensures
        normalized_room_code(trimmed(code)) == normalized_room_code(code),
{
    lemma_trimmed_idempotent(code);
}

/// A character map that changes at most the ASCII case of letters.
pub open spec fn changes_case_only(f: spec_fn(char) -> char) -> bool {
    forall|c: char|
        {
            &&& is_ascii_alnum(#[trigger] f(c)) == is_ascii_alnum(c)
            &&& (f(c) == '-') == (c == '-')
            &&& (f(c) == '/') == (c == '/')
            &&& (f(c) == 'U' || f(c) == 'u') == (c == 'U' || c == 'u')
            &&& ascii_upper(f(c)) == ascii_upper(c)
        }
}

/// Normalising is blind to any such map.
proof fn lemma_normalize_room_code_map(code: Seq<char>, f: spec_fn(char) -> char)
    requires
        keeps_white_space(f),
        changes_case_only(f),
    ensures
        normalized_room_code(code.map_values(f)) == normalized_room_code(code),
{
    reveal_strlit("U/");
    let t = trimmed(code);
    lemma_trimmed_map(code, f);
    let u = t.map_values(f);
    assert(trimmed(code.map_values(f)) == u);
    if t.len() >= 2 {
        assert(u[0] == f(t[0]) && u[1] == f(t[1]));
    }
    assert(has_room_prefix(u) == has_room_prefix(t));
    if t.len() >= 2 {
        let b = t.skip(2);
        let ub = u.skip(2);
        assert(ub =~= b.map_values(f));
        assert forall|i: int| 0 <= i < b.len() implies #[trigger] ub[i] == f(b[i]) by {}
        if is_room_body(b) {
            assert forall|i: int| 0 <= i < 19 implies (if i % 5 == 4 {
                #[trigger] ub[i] == '-'
            } else {
                is_ascii_alnum(ub[i])
            }) by {
                assert(ub[i] == f(b[i]));
            }
        }
        if is_room_body(ub) {
            assert forall|i: int| 0 <= i < 19 implies (if i % 5 == 4 {
                #[trigger] b[i] == '-'
            } else {
                is_ascii_alnum(b[i])
            }) by {
                assert(ub[i] == f(b[i]));
            }
        }
        assert(is_room_body(ub) == is_room_body(b));
        assert forall|i: int| 0 <= i < b.len() implies #[trigger] ascii_upper_seq(ub)[i]
            == ascii_upper_seq(b)[i] by {
            assert(ub[i] == f(b[i]));
        }
        assert(ascii_upper_seq(ub) =~= ascii_upper_seq(b));
    }
}

/// Normalising is blind to ASCII case: a code upper-cased or lower-cased
/// normalises as the code itself does, so the two agree with each other.
pub proof fn lemma_normalize_room_code_case(code: Seq<char>)
    ensures
        normalized_room_code(ascii_upper_seq(code)) == normalized_room_code(code),
        normalized_room_code(ascii_lower_seq(code)) == normalized_room_code(code),
        normalized_room_code(ascii_lower_seq(code)) == normalized_room_code(ascii_upper_seq(code)),
{
    lemma_case_keeps_white_space();
    let up = |c: char| ascii_upper(c);
    let low = |c: char| ascii_lower(c);
    assert(changes_case_only(up));
    assert(changes_case_only(low));
    lemma_normalize_room_code_map(code, up);
    lemma_normalize_room_code_map(code, low);
    assert(ascii_upper_seq(code) == code.map_values(up));
    assert(ascii_lower_seq(code) == code.map_values(low));
}

/// Which codes are accepted and what they become, in plain terms: once
/// trimmed, a code is accepted exactly when it is `U/` or `u/` followed by
/// four groups of four characters from `0-9`, `A-Z` and `a-z` joined by `-`;
/// it then becomes `U/` followed by the same characters, lower-case letters
/// upper-cased.
pub proof fn lemma_room_code_plain(code: Seq<char>)
    ensures
        normalized_room_code(code) is Some <==> {
            let t = trimmed(code);
            &&& t.len() == 21
            &&& t[0] == 'U' || t[0] == 'u'
            &&& t[1] == '/'
            &&& forall|i: int|
                2 <= i < 21 ==> if (i - 2) % 5 == 4 {
                    #[trigger] t[i] == '-'
                } else {
                    ('0' <= t[i] <= '9') || ('A' <= t[i] <= 'Z') || ('a' <= t[i] <= 'z')
                }
        },
        normalized_room_code(code) is Some ==> {
            let t = trimmed(code);
            let r = normalized_room_code(code)->0;
            &&& r.len() == 21
            &&& r[0] == 'U'
            &&& r[1] == '/'
            &&& forall|i: int|
                2 <= i < 21 ==> #[trigger] r[i] == if 'a' <= t[i] <= 'z' {
                    ((t[i] as u32) - 32) as char
                } else {
                    t[i]
                }
        },
{
    reveal_strlit("U/");
    let t = trimmed(code);
    if t.len() == 21 {
        let b = t.skip(2);
        let plain = forall|i: int|
            2 <= i < 21 ==> if (i - 2) % 5 == 4 {
                #[trigger] t[i] == '-'
            } else {
                ('0' <= t[i] <= '9') || ('A' <= t[i] <= 'Z') || ('a' <= t[i] <= 'z')
            };
        if plain {
            assert forall|j: int| 0 <= j < 19 implies (if j % 5 == 4 {
                #[trigger] b[j] == '-'
            } else {
                is_ascii_alnum(b[j])
            }) by {
                assert(b[j] == t[j + 2]);
                assert((j + 2 - 2) % 5 == j % 5);
            }
        }
        if is_room_body(b) {
            assert forall|i: int| 2 <= i < 21 implies (if (i - 2) % 5 == 4 {
                #[trigger] t[i] == '-'
            } else {
                ('0' <= t[i] <= '9') || ('A' <= t[i] <= 'Z') || ('a' <= t[i] <= 'z')
            }) by {
                assert(t[i] == b[i - 2]);
            }
        }
        if normalized_room_code(code) is Some {
            let r = normalized_room_code(code)->0;
            assert forall|i: int| 2 <= i < 21 implies #[trigger] r[i] == if 'a' <= t[i] <= 'z' {
                ((t[i] as u32) - 32) as char
            } else {
                t[i]
            } by {
                assert(r[i] == ascii_upper_seq(b)[i - 2]);
                assert(b[i - 2] == t[i]);
            }
        }
    } else if has_room_prefix(t) {
        assert(t.skip(2).len() != 19);
    }
}

} // verus!
