use vstd::prelude::*;

verus! {

/// The Unicode `White_Space` property.
pub open spec fn white_space(c: char) -> bool {
    let u = c as u32;
    (0x09 <= u && u <= 0x0d) || u == 0x20 || u == 0x85 || u == 0xa0 || u == 0x1680 || (0x2000 <= u
        && u <= 0x200a) || u == 0x2028 || u == 0x2029 || u == 0x202f || u == 0x205f || u == 0x3000
}

/// Relies on `char::is_whitespace`, which tests the Unicode `White_Space` property.
#[verifier::external_body]
fn is_whitespace(c: char) -> (r: bool)
    ensures
        r == white_space(c),
{
    c.is_whitespace()
}

/// Relies on `str::chars`: the characters of `s` in order.
#[verifier::external_body]
pub(crate) fn chars_of(s: &str) -> (r: Vec<char>)
    ensures
        r@ == s@,
{
    s.chars().collect()
}

/// Relies on `String::push`: appends one character.
#[verifier::external_body]
pub(crate) fn push_char(s: &mut String, c: char)
    ensures
        final(s)@ == old(s)@.push(c),
{
    s.push(c)
}

/// Whether a double quote left open stands at the end of `s`.
pub open spec fn quoted_after(s: Seq<char>) -> bool
    decreases s.len(),
{
    if s.len() == 0 {
        false
    } else if s.last() == '"' {
        !quoted_after(s.drop_last())
    } else {
        quoted_after(s.drop_last())
    }
}

/// `s` without the whitespace that stands outside double quotes.
pub open spec fn sanitized(s: Seq<char>) -> Seq<char>
    decreases s.len(),
{
    if s.len() == 0 {
        s
    } else if white_space(s.last()) && !quoted_after(s.drop_last()) {
        sanitized(s.drop_last())
    } else {
        sanitized(s.drop_last()).push(s.last())
    }
}

/// `s` without any whitespace.
pub open spec fn strip_white(s: Seq<char>) -> Seq<char>
    decreases s.len(),
{
    if s.len() == 0 {
        s
    } else if white_space(s.last()) {
        strip_white(s.drop_last())
    } else {
        strip_white(s.drop_last()).push(s.last())
    }
}

/// Removes the whitespace of a column list that stands outside double quotes; quoted
/// identifiers and JSON paths keep theirs.
pub fn sanitize_columns(columns: &str) -> (r: String)
    ensures
        r@ == sanitized(columns@),
{
    let cs = chars_of(columns);
    let mut out = String::new();
    let mut quoted = false;
    let mut i: usize = 0;
    while i < cs.len()
        invariant
            i <= cs@.len(),
            cs@ == columns@,
            quoted == quoted_after(cs@.take(i as int)),
            out@ == sanitized(cs@.take(i as int)),
        decreases cs@.len() - i,
    {
        let c = cs[i];
        assert(cs@.take(i + 1).drop_last() =~= cs@.take(i as int));
        if is_whitespace(c) && !quoted {
        } else {
            if c == '"' {
                quoted = !quoted;
            }
            push_char(&mut out, c);
        }
        i += 1;
    }
    assert(cs@.take(i as int) =~= cs@);
    out
}

/// Sanitizing never drops, adds or reorders a character that is not whitespace.
pub proof fn lemma_sanitize_keeps_non_white(s: Seq<char>)
    ensures
        strip_white(sanitized(s)) == strip_white(s),
    decreases s.len(),
{
    if s.len() > 0 {
        lemma_sanitize_keeps_non_white(s.drop_last());
        let p = sanitized(s.drop_last());
        if !(white_space(s.last()) && !quoted_after(s.drop_last())) {
            assert(p.push(s.last()).drop_last() =~= p);
        }
    }
}

/// Whitespace inside double quotes is kept: sanitizing removes a whitespace character
/// only where no quote is open before it.
pub proof fn lemma_sanitize_keeps_quoted(s: Seq<char>, c: char)
    requires
        quoted_after(s),
    ensures
        sanitized(s.push(c)) == sanitized(s).push(c),
{
    assert(s.push(c).drop_last() =~= s);
}

/// Without double quotes, sanitizing removes every whitespace character.
pub proof fn lemma_sanitize_unquoted(s: Seq<char>)
    requires
        forall|i: int| 0 <= i < s.len() ==> s[i] != '"',
    ensures
        !quoted_after(s),
        sanitized(s) == strip_white(s),
    decreases s.len(),
{
    if s.len() > 0 {
        lemma_sanitize_unquoted(s.drop_last());
    }
}

/// The decimal digits of `n`, as `usize`'s `Display` writes them.
pub open spec fn decimal(n: nat) -> Seq<char>
    decreases n,
{
    if n < 10 {
        seq![digit_char(n)]
    } else {
        decimal(n / 10).push(digit_char(n % 10))
    }
}

pub open spec fn digit_char(d: nat) -> char {
    (48 + d) as char
}

/// Writes `n` in decimal.
pub fn render_usize(n: usize) -> (r: String)
    ensures
        r@ == decimal(n as nat),
    decreases n,
{
    let d = (n % 10) as u8;
    let c = (48u8 + d) as char;
    if n < 10 {
        let mut r = String::new();
        push_char(&mut r, c);
        assert(r@ =~= seq![c]);
        r
    } else {
        let mut r = render_usize(n / 10);
        push_char(&mut r, c);
        r
    }
}

} // verus!
