//! Handle tokens and the object paths derived from them.
//!
//! A handle token is the caller-chosen identifier that lets a client
//! predict the object path of an asynchronous reply before issuing the
//! request that triggers it.  The path is built from the bus
//! connection's mangled unique name and the token.

use vstd::prelude::*;

verus! {

/// Number of random bytes behind one freshly generated handle token.
pub const TOKEN_BYTES: usize = 20;

/// The lowercase hexadecimal digit for a value below sixteen.
pub open spec fn hex_digit(d: u8) -> char
    recommends
        d < 16,
{
    if d < 10 {
        (d + ('0' as u8)) as char
    } else {
        (d + 87) as char
    }
}

/// Shortest lowercase hexadecimal rendering of one byte: one digit for
/// values below sixteen, two digits otherwise.
pub open spec fn hex_of_byte(v: u8) -> Seq<char> {
    if v < 16 {
        seq![hex_digit(v)]
    } else {
        seq![hex_digit(v / 16), hex_digit(v % 16)]
    }
}

/// Concatenation of the per-byte hexadecimal renderings.
pub open spec fn hex_join(bytes: Seq<u8>) -> Seq<char>
    decreases bytes.len(),
{
    if bytes.len() == 0 {
        Seq::empty()
    } else {
        hex_join(bytes.drop_last()) + hex_of_byte(bytes.last())
    }
}

/// Whether a character is a lowercase hexadecimal digit.
pub open spec fn is_hex_digit_char(c: char) -> bool {
    ('0' <= c && c <= '9') || ('a' <= c && c <= 'f')
}

proof fn lemma_hex_of_byte_chars(v: u8)
    ensures
        1 <= hex_of_byte(v).len() <= 2,
        forall|i: int| 0 <= i < hex_of_byte(v).len() ==> is_hex_digit_char(#[trigger] hex_of_byte(v)[i]),
{
}

/// A joined rendering is between one and two characters per byte, all
/// of them lowercase hexadecimal digits.
pub proof fn lemma_hex_join_shape(bytes: Seq<u8>)
    ensures
        bytes.len() <= hex_join(bytes).len() <= 2 * bytes.len(),
        forall|i: int| 0 <= i < hex_join(bytes).len() ==> is_hex_digit_char(#[trigger] hex_join(bytes)[i]),
    decreases bytes.len(),
{
    if bytes.len() > 0 {
        lemma_hex_join_shape(bytes.drop_last());
        lemma_hex_of_byte_chars(bytes.last());
    }
}

/// Relies on std's String::push: appends exactly the given character.
#[verifier::external_body]
pub(crate) fn push_char(s: &mut String, c: char)
    ensures
        final(s)@ == old(s)@ + seq![c],
{
    s.push(c);
}

pub(crate) fn hex_digit_char(d: u8) -> (c: char)
    requires
        d < 16,
    ensures
        c == hex_digit(d),
{
    if d < 10 {
        (d + 48) as char
    } else {
        (d + 87) as char
    }
}

/// Renders a byte string as the concatenation of the shortest lowercase
/// hexadecimal form of each byte.
pub fn token_from_bytes(bytes: &Vec<u8>) -> (t: String)
    ensures
        t@ == hex_join(bytes@),
{
    let mut t = String::new();
    let mut i: usize = 0;
    while i < bytes.len()
        invariant
            i <= bytes@.len(),
            t@ == hex_join(bytes@.subrange(0, i as int)),
        decreases bytes@.len() - i,
    {
        let v = bytes[i];
        if v < 16 {
            push_char(&mut t, hex_digit_char(v));
        } else {
            push_char(&mut t, hex_digit_char(v / 16));
            push_char(&mut t, hex_digit_char(v % 16));
            proof {
                assert(t@ =~= hex_join(bytes@.subrange(0, i as int)) + hex_of_byte(v));
            }
        }
        proof {
            assert(bytes@.subrange(0, i + 1).drop_last() =~= bytes@.subrange(0, i as int));
            assert(bytes@.subrange(0, i + 1).last() == v);
        }
        i += 1;
    }
    proof {
        assert(bytes@.subrange(0, bytes@.len() as int) =~= bytes@);
    }
    t
}

/// Relies on rand::fill: overwrites the buffer with random bytes,
/// keeping its length.  Nothing is assumed about the values written.
#[verifier::external_body]
fn fill_random_bytes(buf: &mut Vec<u8>)
    ensures
        final(buf)@.len() == old(buf)@.len(),
{
    rand::fill(buf.as_mut_slice());
}

/// Generates a fresh handle token: the hexadecimal rendering of
/// `TOKEN_BYTES` random bytes.  Uniqueness across outstanding requests
/// rests on the randomness of the bytes and is not claimed here.
pub fn make_dbus_handle_token() -> (t: String)
    ensures
        exists|bytes: Seq<u8>| bytes.len() == TOKEN_BYTES && t@ == hex_join(bytes),
        TOKEN_BYTES <= t@.len() <= 2 * TOKEN_BYTES,
        forall|i: int| 0 <= i < t@.len() ==> is_hex_digit_char(#[trigger] t@[i]),
{
    let mut buf: Vec<u8> = Vec::new();
    let mut i: usize = 0;
    while i < TOKEN_BYTES
        invariant
            buf@.len() == i,
            i <= TOKEN_BYTES,
        decreases TOKEN_BYTES - i,
    {
        buf.push(0);
        i += 1;
    }
    fill_random_bytes(&mut buf);
    let t = token_from_bytes(&buf);
    proof {
        lemma_hex_join_shape(buf@);
        assert(buf@.len() == TOKEN_BYTES && t@ == hex_join(buf@));
    }
    t
}

/// All leading colons of a bus unique name, removed.
pub open spec fn drop_leading_colons(s: Seq<char>) -> Seq<char>
    decreases s.len(),
{
    if s.len() > 0 && s[0] == ':' {
        drop_leading_colons(s.drop_first())
    } else {
        s
    }
}

/// Every dot replaced by an underscore.
pub open spec fn dots_to_underscores(s: Seq<char>) -> Seq<char>
    decreases s.len(),
{
    if s.len() == 0 {
        Seq::empty()
    } else {
        dots_to_underscores(s.drop_last()) + seq![if s.last() == '.' {
            '_'
        } else {
            s.last()
        }]
    }
}

/// A bus unique name as it appears inside a portal request path:
/// leading colons removed, dots turned into underscores.
pub open spec fn mangled_unique_name(s: Seq<char>) -> Seq<char> {
    dots_to_underscores(drop_leading_colons(s))
}

proof fn lemma_drop_leading_colons_at(s: Seq<char>, k: int)
    requires
        0 <= k <= s.len(),
        forall|j: int| 0 <= j < k ==> s[j] == ':',
        k < s.len() ==> s[k] != ':',
    ensures
        drop_leading_colons(s) == s.subrange(k, s.len() as int),
    decreases k,
{
    if k == 0 {
        assert(s.subrange(0, s.len() as int) =~= s);
    } else {
        lemma_drop_leading_colons_at(s.drop_first(), k - 1);
        assert(s.drop_first().subrange(k - 1, s.drop_first().len() as int) =~= s.subrange(
            k,
            s.len() as int,
        ));
    }
}

/// Mangles a raw bus unique name (such as ":1.42") into the form used
/// inside request paths (such as "1_42").
pub fn xdg_unique_name(raw: &str) -> (r: String)
    ensures
        r@ == mangled_unique_name(raw@),
{
    let n = raw.unicode_len();
    let mut k: usize = 0;
    while k < n && raw.get_char(k) == ':'
        invariant
            n == raw@.len(),
            k <= n,
            forall|j: int| 0 <= j < k ==> raw@[j] == ':',
        decreases n - k,
    {
        k += 1;
    }
    proof {
        lemma_drop_leading_colons_at(raw@, k as int);
    }
    let mut r = String::new();
    let mut i: usize = k;
    while i < n
        invariant
            n == raw@.len(),
            k <= i <= n,
            r@ == dots_to_underscores(raw@.subrange(k as int, i as int)),
        decreases n - i,
    {
        let c = raw.get_char(i);
        let m = if c == '.' {
            '_'
        } else {
            c
        };
        push_char(&mut r, m);
        proof {
            assert(raw@.subrange(k as int, i + 1).drop_last() =~= raw@.subrange(
                k as int,
                i as int,
            ));
            assert(raw@.subrange(k as int, i + 1).last() == raw@[i as int]);
        }
        i += 1;
    }
    r
}

/// The object path on which the asynchronous reply to a request made
/// with the given token, from the connection with the given mangled
/// unique name, will arrive.
pub open spec fn request_path_spec(unique_name: Seq<char>, token: Seq<char>) -> Seq<char> {
    "/org/freedesktop/portal/desktop/request/"@ + unique_name + "/"@ + token
}

/// Builds the reply path for a (mangled unique name, token) pair.
pub fn request_path(unique_name: &str, token: &str) -> (p: String)
    ensures
        p@ == request_path_spec(unique_name@, token@),
{
    let mut p = String::from_str("/org/freedesktop/portal/desktop/request/");
    p.append(unique_name);
    p.append("/");
    p.append(token);
    proof {
        assert(p@ =~= request_path_spec(unique_name@, token@));
    }
    p
}

/// For one connection, the reply path determines the token: two
/// requests whose tokens differ wait on different paths.
pub proof fn lemma_request_path_injective(u: Seq<char>, t1: Seq<char>, t2: Seq<char>)
    requires
        request_path_spec(u, t1) == request_path_spec(u, t2),
    ensures
        t1 == t2,
{
    let head = "/org/freedesktop/portal/desktop/request/"@ + u + "/"@;
    let p1 = request_path_spec(u, t1);
    let p2 = request_path_spec(u, t2);
    assert(p1 =~= head + t1);
    assert(p2 =~= head + t2);
    assert(t1.len() == t2.len());
    assert forall|i: int| 0 <= i < t1.len() implies t1[i] == t2[i] by {
        assert(p1[head.len() + i] == t1[i]);
        assert(p2[head.len() + i] == t2[i]);
    }
    assert(t1 =~= t2);
}

} // verus!
