//! String-building and escaping utilities shared by the label gate and the
//! patch builder: ASCII lowercasing, JSON string escaping, and JSON Pointer
//! segment escaping, each specified as a pure function on character sequences.

use vstd::prelude::*;

verus! {

/// Relies on `String::push`: appends the given character to the end of the
/// string.
#[verifier::external_body]
pub(crate) fn push_char(s: &mut String, c: char)
    ensures
        final(s)@ == old(s)@.push(c),
{
    s.push(c)
}

/// ASCII lowercasing of a single character; characters outside `A`..`Z` are
/// left as they are.
pub open spec fn lower_char(c: char) -> char {
    if 'A' <= c && c <= 'Z' {
        (((c as u8) + 32) as char)
    } else {
        c
    }
}

/// ASCII lowercasing of a whole string.
pub open spec fn lower(s: Seq<char>) -> Seq<char> {
    s.map_values(|c: char| lower_char(c))
}

/// Executable ASCII lowercasing, used by the label gate for case-insensitive
/// value comparison.
pub fn to_lower(s: &str) -> (r: String)
    ensures
        r@ == lower(s@),
{
    let n = s.unicode_len();
    let mut r = String::new();
    let mut i: usize = 0;
    while i < n
        invariant
            n == s@.len(),
            i <= n,
            r@ == lower(s@.take(i as int)),
        decreases n - i,
    {
        let c = s.get_char(i);
        let u = c as u32;
        let lc = if 65 <= u && u <= 90 {
            ((u + 32) as u8) as char
        } else {
            c
        };
        proof {
            assert(lc == lower_char(s@[i as int]));
            assert(s@.take(i + 1).map_values(|x: char| lower_char(x)) =~= s@.take(
                i as int,
            ).map_values(|x: char| lower_char(x)).push(lower_char(s@[i as int])));
        }
        push_char(&mut r, lc);
        i = i + 1;
    }
    proof {
        assert(s@.take(n as int) =~= s@);
    }
    r
}

/// The hexadecimal digit character for a value below sixteen.
pub open spec fn hex_digit(n: int) -> char
    recommends
        0 <= n < 16,
{
    if n == 0 {
        '0'
    } else if n == 1 {
        '1'
    } else if n == 2 {
        '2'
    } else if n == 3 {
        '3'
    } else if n == 4 {
        '4'
    } else if n == 5 {
        '5'
    } else if n == 6 {
        '6'
    } else if n == 7 {
        '7'
    } else if n == 8 {
        '8'
    } else if n == 9 {
        '9'
    } else if n == 10 {
        'a'
    } else if n == 11 {
        'b'
    } else if n == 12 {
        'c'
    } else if n == 13 {
        'd'
    } else if n == 14 {
        'e'
    } else {
        'f'
    }
}

/// How a single character appears inside a JSON string literal: quotes and
/// backslashes get a backslash escape, control characters become a `\u00XY`
/// escape, and everything else stands for itself.
pub open spec fn json_escaped_char(c: char) -> Seq<char> {
    if c == '"' {
        seq!['\\', '"']
    } else if c == '\\' {
        seq!['\\', '\\']
    } else if (c as u32) < 32 {
        seq!['\\', 'u', '0', '0', hex_digit((c as u32) as int / 16), hex_digit(
            (c as u32) as int % 16,
        )]
    } else {
        seq![c]
    }
}

/// JSON string escaping of a whole string.
pub open spec fn json_escaped(s: Seq<char>) -> Seq<char> {
    s.flat_map(|c: char| json_escaped_char(c))
}

/// How a single character appears inside a JSON Pointer segment: `~` becomes
/// `~0` and `/` becomes `~1`, so that the segment cannot be mistaken for a
/// path separator.
pub open spec fn pointer_escaped_char(c: char) -> Seq<char> {
    if c == '~' {
        seq!['~', '0']
    } else if c == '/' {
        seq!['~', '1']
    } else {
        seq![c]
    }
}

/// JSON Pointer escaping of a whole segment.
pub open spec fn pointer_escaped(s: Seq<char>) -> Seq<char> {
    s.flat_map(|c: char| pointer_escaped_char(c))
}

/// A JSON-escaped string grows by at most a factor of six: the longest
/// escape, `\u00XY`, replaces one character with six.
pub proof fn lemma_json_escaped_len(s: Seq<char>)
    ensures
        json_escaped(s).len() <= 6 * s.len(),
    decreases s.len(),
{
    if s.len() == 0 {
        assert(s.map_values(|c: char| json_escaped_char(c)) =~= Seq::<Seq<char>>::empty());
        assert(json_escaped(s) =~= Seq::<char>::empty());
    } else {
        let f = |c: char| json_escaped_char(c);
        lemma_json_escaped_len(s.drop_last());
        s.drop_last().lemma_flat_map_push(f, s.last());
        assert(s.drop_last().push(s.last()) =~= s);
        assert(f(s.last()).len() <= 6);
    }
}

/// A pointer-escaped segment grows by at most a factor of two.
pub proof fn lemma_pointer_escaped_len(s: Seq<char>)
    ensures
        pointer_escaped(s).len() <= 2 * s.len(),
    decreases s.len(),
{
    if s.len() == 0 {
        assert(s.map_values(|c: char| pointer_escaped_char(c)) =~= Seq::<Seq<char>>::empty());
        assert(pointer_escaped(s) =~= Seq::<char>::empty());
    } else {
        let f = |c: char| pointer_escaped_char(c);
        lemma_pointer_escaped_len(s.drop_last());
        s.drop_last().lemma_flat_map_push(f, s.last());
        assert(s.drop_last().push(s.last()) =~= s);
        assert(f(s.last()).len() <= 2);
    }
}

/// A pointer-escaped segment never contains a path separator: every `/` of
/// the original turns into `~1`, and no escape introduces a new `/`. This is
/// what makes the escaped segment a single JSON Pointer reference token.
pub proof fn lemma_pointer_escaped_no_separator(s: Seq<char>)
    ensures
        forall|i: int| 0 <= i < pointer_escaped(s).len() ==> pointer_escaped(s)[i] != '/',
    decreases s.len(),
{
    if s.len() == 0 {
        assert(s.map_values(|c: char| pointer_escaped_char(c)) =~= Seq::<Seq<char>>::empty());
        assert(pointer_escaped(s) =~= Seq::<char>::empty());
    } else {
        let f = |c: char| pointer_escaped_char(c);
        lemma_pointer_escaped_no_separator(s.drop_last());
        s.drop_last().lemma_flat_map_push(f, s.last());
        assert(s.drop_last().push(s.last()) =~= s);
        let t = f(s.last());
        assert(forall|i: int| 0 <= i < t.len() ==> #[trigger] t[i] != '/');
        assert(pointer_escaped(s) =~= pointer_escaped(s.drop_last()) + t);
    }
}

/// Splitting a flat map at its first element.
proof fn lemma_flat_map_head<A, B>(s: Seq<A>, f: spec_fn(A) -> Seq<B>)
    requires
        s.len() > 0,
    ensures
        s.flat_map(f) == f(s[0]) + s.skip(1).flat_map(f),
{
    assert(s.map_values(f).len() > 0);
    assert(s.map_values(f).first() == f(s[0]));
    assert(s.map_values(f).drop_first() =~= s.skip(1).map_values(f));
    assert(s.flat_map(f) =~= f(s[0]) + s.skip(1).flat_map(f));
}

/// A lowercase hexadecimal digit character.
pub open spec fn is_hex_digit(c: char) -> bool {
    ('0' <= c && c <= '9') || ('a' <= c && c <= 'f')
}

/// A well-formed JSON string body: every backslash starts a complete escape
/// — a quote, a backslash, or a four-hex-digit unicode escape — and no raw
/// quote or control character stands outside one. Every body of this shape
/// is legal between the quotes of a JSON string literal.
pub open spec fn wf_json_string_body(s: Seq<char>) -> bool
    decreases s.len(),
{
    if s.len() == 0 {
        true
    } else if s[0] == '\\' {
        s.len() >= 2 && (((s[1] == '"' || s[1] == '\\') && wf_json_string_body(s.skip(2))) || (s[1]
            == 'u' && s.len() >= 6 && is_hex_digit(s[2]) && is_hex_digit(s[3]) && is_hex_digit(
            s[4],
        ) && is_hex_digit(s[5]) && wf_json_string_body(s.skip(6))))
    } else {
        s[0] != '"' && (s[0] as u32) >= 32 && wf_json_string_body(s.skip(1))
    }
}

/// JSON escaping always yields a well-formed JSON string body, whatever the
/// input holds.
pub proof fn lemma_json_escaped_wf(s: Seq<char>)
    ensures
        wf_json_string_body(json_escaped(s)),
    decreases s.len(),
{
    let f = |c: char| json_escaped_char(c);
    if s.len() == 0 {
        assert(s.map_values(f) =~= Seq::<Seq<char>>::empty());
        assert(json_escaped(s) =~= Seq::<char>::empty());
    } else {
        lemma_json_escaped_wf(s.skip(1));
        lemma_flat_map_head(s, f);
        let c = s[0];
        let e = json_escaped(s);
        let rest = json_escaped(s.skip(1));
        if c == '"' || c == '\\' {
            assert(e.skip(2) =~= rest);
        } else if (c as u32) < 32 {
            assert(e.skip(6) =~= rest);
            assert(is_hex_digit(hex_digit((c as u32) as int / 16)));
            assert(is_hex_digit(hex_digit((c as u32) as int % 16)));
        } else {
            assert(e.skip(1) =~= rest);
            assert(e[0] == c);
        }
    }
}

/// The numeric value of a lowercase hexadecimal digit.
pub open spec fn hex_val(c: char) -> int {
    if c == '0' {
        0
    } else if c == '1' {
        1
    } else if c == '2' {
        2
    } else if c == '3' {
        3
    } else if c == '4' {
        4
    } else if c == '5' {
        5
    } else if c == '6' {
        6
    } else if c == '7' {
        7
    } else if c == '8' {
        8
    } else if c == '9' {
        9
    } else if c == 'a' {
        10
    } else if c == 'b' {
        11
    } else if c == 'c' {
        12
    } else if c == 'd' {
        13
    } else if c == 'e' {
        14
    } else if c == 'f' {
        15
    } else {
        0
    }
}

/// Decoding a JSON string body: `\"` and `\\` drop their backslash, a
/// four-hex-digit unicode escape decodes to its scalar, anything else is
/// taken literally.
pub open spec fn json_unescaped(s: Seq<char>) -> Seq<char>
    decreases s.len(),
{
    if s.len() == 0 {
        Seq::empty()
    } else if s[0] == '\\' && s.len() >= 2 && s[1] == '"' {
        seq!['"'] + json_unescaped(s.skip(2))
    } else if s[0] == '\\' && s.len() >= 2 && s[1] == '\\' {
        seq!['\\'] + json_unescaped(s.skip(2))
    } else if s[0] == '\\' && s.len() >= 6 && s[1] == 'u' {
        seq![
            (((4096 * hex_val(s[2]) + 256 * hex_val(s[3]) + 16 * hex_val(s[4]) + hex_val(
                s[5],
            )) as u32) as char),
        ] + json_unescaped(s.skip(6))
    } else {
        seq![s[0]] + json_unescaped(s.skip(1))
    }
}

/// JSON escaping loses nothing: decoding the escaped body yields the
/// original string, for every input.
pub proof fn lemma_json_escape_round_trip(s: Seq<char>)
    ensures
        json_unescaped(json_escaped(s)) == s,
    decreases s.len(),
{
    let f = |c: char| json_escaped_char(c);
    if s.len() == 0 {
        assert(s.map_values(f) =~= Seq::<Seq<char>>::empty());
        assert(json_escaped(s) =~= Seq::<char>::empty());
    } else {
        lemma_json_escape_round_trip(s.skip(1));
        lemma_flat_map_head(s, f);
        let c = s[0];
        let e = json_escaped(s);
        let rest = json_escaped(s.skip(1));
        if c == '"' {
            assert(e.skip(2) =~= rest);
            assert(seq!['"'] + json_unescaped(rest) =~= s);
        } else if c == '\\' {
            assert(e.skip(2) =~= rest);
            assert(seq!['\\'] + json_unescaped(rest) =~= s);
        } else if (c as u32) < 32 {
            assert(e.skip(6) =~= rest);
            let u = (c as u32) as int;
            assert(e[2] == '0' && e[3] == '0' && e[4] == hex_digit(u / 16) && e[5] == hex_digit(
                u % 16,
            ));
            assert(hex_val(hex_digit(u / 16)) == u / 16);
            assert(hex_val(hex_digit(u % 16)) == u % 16);
            assert(16 * (u / 16) + u % 16 == u);
            vstd::utf8::char_u32_cast(c, c as u32);
            assert(seq![c] + json_unescaped(rest) =~= s);
        } else {
            assert(e.skip(1) =~= rest);
            assert(e[0] == c);
            assert(seq![c] + json_unescaped(rest) =~= s);
        }
    }
}

/// Decoding a pointer-escaped segment: `~0` back to `~`, `~1` back to `/`,
/// anything else taken literally.
pub open spec fn pointer_unescaped(s: Seq<char>) -> Seq<char>
    decreases s.len(),
{
    if s.len() == 0 {
        Seq::empty()
    } else if s[0] == '~' && s.len() >= 2 && s[1] == '0' {
        seq!['~'] + pointer_unescaped(s.skip(2))
    } else if s[0] == '~' && s.len() >= 2 && s[1] == '1' {
        seq!['/'] + pointer_unescaped(s.skip(2))
    } else {
        seq![s[0]] + pointer_unescaped(s.skip(1))
    }
}

/// Pointer escaping loses nothing: decoding the escaped segment yields the
/// original segment, for every input.
pub proof fn lemma_pointer_escape_round_trip(s: Seq<char>)
    ensures
        pointer_unescaped(pointer_escaped(s)) == s,
    decreases s.len(),
{
    let f = |c: char| pointer_escaped_char(c);
    if s.len() == 0 {
        assert(s.map_values(f) =~= Seq::<Seq<char>>::empty());
        assert(pointer_escaped(s) =~= Seq::<char>::empty());
    } else {
        lemma_pointer_escape_round_trip(s.skip(1));
        lemma_flat_map_head(s, f);
        let c = s[0];
        let e = pointer_escaped(s);
        let rest = pointer_escaped(s.skip(1));
        if c == '~' {
            assert(e.skip(2) =~= rest);
            assert(seq!['~'] + pointer_unescaped(rest) =~= s);
        } else if c == '/' {
            assert(e.skip(2) =~= rest);
            assert(seq!['/'] + pointer_unescaped(rest) =~= s);
        } else {
            assert(e.skip(1) =~= rest);
            assert(e[0] == c);
            assert(seq![c] + pointer_unescaped(rest) =~= s);
        }
    }
}

/// The executable hexadecimal digit for a value below sixteen.
fn hex_digit_exec(n: u32) -> (c: char)
    requires
        n < 16,
    ensures
        c == hex_digit(n as int),
{
    if n == 0 {
        '0'
    } else if n == 1 {
        '1'
    } else if n == 2 {
        '2'
    } else if n == 3 {
        '3'
    } else if n == 4 {
        '4'
    } else if n == 5 {
        '5'
    } else if n == 6 {
        '6'
    } else if n == 7 {
        '7'
    } else if n == 8 {
        '8'
    } else if n == 9 {
        '9'
    } else if n == 10 {
        'a'
    } else if n == 11 {
        'b'
    } else if n == 12 {
        'c'
    } else if n == 13 {
        'd'
    } else if n == 14 {
        'e'
    } else {
        'f'
    }
}

/// Appends the JSON-escaped form of one character.
fn push_json_escaped_char(out: &mut String, c: char)
    ensures
        final(out)@ == old(out)@ + json_escaped_char(c),
{
    let ghost prefix = out@;
    let u = c as u32;
    if c == '"' {
        push_char(out, '\\');
        push_char(out, '"');
    } else if c == '\\' {
        push_char(out, '\\');
        push_char(out, '\\');
    } else if u < 32 {
        push_char(out, '\\');
        push_char(out, 'u');
        push_char(out, '0');
        push_char(out, '0');
        push_char(out, hex_digit_exec(u / 16));
        push_char(out, hex_digit_exec(u % 16));
    } else {
        push_char(out, c);
    }
    proof {
        assert(out@ =~= prefix + json_escaped_char(c));
    }
}

/// Executable JSON string escaping, used when a string is written into the
/// serialized patch document.
pub fn escape_json(s: &str) -> (r: String)
    ensures
        r@ == json_escaped(s@),
{
    broadcast use vstd::seq_lib::group_seq_properties;

    let n = s.unicode_len();
    let mut r = String::new();
    let mut i: usize = 0;
    while i < n
        invariant
            n == s@.len(),
            i <= n,
            r@ == json_escaped(s@.take(i as int)),
        decreases n - i,
    {
        let c = s.get_char(i);
        proof {
            s@.lemma_flat_map_take_append(|x: char| json_escaped_char(x), i as int);
        }
        push_json_escaped_char(&mut r, c);
        i = i + 1;
    }
    proof {
        assert(s@.take(n as int) =~= s@);
    }
    r
}

/// Executable JSON Pointer segment escaping, used when a dynamic key is
/// embedded in a patch path.
pub fn escape_pointer(s: &str) -> (r: String)
    ensures
        r@ == pointer_escaped(s@),
{
    broadcast use vstd::seq_lib::group_seq_properties;

    let n = s.unicode_len();
    let mut r = String::new();
    let mut i: usize = 0;
    while i < n
        invariant
            n == s@.len(),
            i <= n,
            r@ == pointer_escaped(s@.take(i as int)),
        decreases n - i,
    {
        let c = s.get_char(i);
        let ghost prefix = r@;
        proof {
            s@.lemma_flat_map_take_append(|x: char| pointer_escaped_char(x), i as int);
        }
        if c == '~' {
            push_char(&mut r, '~');
            push_char(&mut r, '0');
        } else if c == '/' {
            push_char(&mut r, '~');
            push_char(&mut r, '1');
        } else {
            push_char(&mut r, c);
        }
        proof {
            assert(r@ =~= prefix + pointer_escaped_char(s@[i as int]));
        }
        i = i + 1;
    }
    proof {
        assert(s@.take(n as int) =~= s@);
    }
    r
}

} // verus!
