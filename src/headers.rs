use vstd::prelude::*;
use crate::error::QueryError;

verus! {

/// A character that a header name may hold: the token characters of HTTP.
pub open spec fn token_char(c: char) -> bool {
    let u = c as u32;
    u == 33 || (35 <= u && u <= 39) || u == 42 || u == 43 || u == 45 || u == 46 || (48 <= u && u
        <= 57) || (65 <= u && u <= 90) || (94 <= u && u <= 122) || u == 124 || u == 126
}

pub open spec fn lower_char(c: char) -> char {
    if 65 <= c as u32 && c as u32 <= 90 {
        ((c as u32) + 32) as char
    } else {
        c
    }
}

/// What `HeaderName::from_bytes` makes of a name: a name of 1 to 65535 token characters
/// in lower case, or `None` where the name is refused.
pub open spec fn header_name_of(s: Seq<char>) -> Option<Seq<char>> {
    if 1 <= s.len() <= 65535 && forall|i: int| 0 <= i < s.len() ==> token_char(#[trigger] s[i]) {
        Some(s.map_values(|c: char| lower_char(c)))
    } else {
        None
    }
}

/// A header name in normal form: what `header_name_of` makes of itself.
pub open spec fn normal_name(s: Seq<char>) -> bool {
    &&& 1 <= s.len() <= 65535
    &&& forall|i: int| 0 <= i < s.len() ==> token_char(#[trigger] s[i]) && lower_char(s[i]) == s[i]
}

proof fn lemma_header_name_normal(s: Seq<char>)
    requires
        header_name_of(s) is Some,
    ensures
        normal_name(header_name_of(s)->0),
{
}

/// Relies on `reqwest::header::HeaderName::from_bytes` (of the `http` crate) and on
/// `HeaderName::as_str`: a name of 1 to 65535 bytes, each a token character, is accepted
/// and lower-cased; any other is refused.
#[verifier::external_body]
fn header_name(key: &str) -> (r: Result<String, reqwest::header::InvalidHeaderName>)
    ensures
        r is Ok <==> header_name_of(key@) is Some,
        r is Ok ==> header_name_of(key@) == Some(r->Ok_0@),
{
    match reqwest::header::HeaderName::from_bytes(key.as_bytes()) {
        Ok(n) => Ok(n.as_str().to_string()),
        Err(e) => Err(e),
    }
}

/// A character that a header value may hold: visible ASCII, space, tab, or any non-ASCII
/// character (all of whose UTF-8 bytes are at least 0x80).
pub open spec fn header_value_char(c: char) -> bool {
    (c as u32 >= 32 && c as u32 != 127) || c == '\t'
}

pub open spec fn header_value_ok(s: Seq<char>) -> bool {
    forall|i: int| 0 <= i < s.len() ==> header_value_char(#[trigger] s[i])
}

/// Relies on `reqwest::header::HeaderValue::from_str` (of the `http` crate): it accepts a
/// string exactly when each byte is at least 32 and not 127, or is a tab.
#[verifier::external_body]
pub(crate) fn check_header_value(value: &str) -> (r: Result<(), reqwest::header::InvalidHeaderValue>)
    ensures
        r is Ok <==> header_value_ok(value@),
{
    match reqwest::header::HeaderValue::from_str(value) {
        Ok(_) => Ok(()),
        Err(e) => Err(e),
    }
}

/// The header map that a list of entries makes when each is inserted in turn: a later
/// entry replaces an earlier one of the same name.
pub open spec fn entries_map(s: Seq<(String, String)>) -> Map<Seq<char>, Seq<char>>
    decreases s.len(),
{
    if s.len() == 0 {
        Map::empty()
    } else {
        entries_map(s.drop_last()).insert(s.last().0@, s.last().1@)
    }
}

/// Request headers, kept in the order they were set; the last write of a name wins.
#[derive(Debug)]
pub struct Headers {
    pub entries: Vec<(String, String)>,
}

impl Headers {
    pub open spec fn map(&self) -> Map<Seq<char>, Seq<char>> {
        entries_map(self.entries@)
    }

    /// Every name is in normal form, so that names differing in case are one name.
    pub open spec fn wf(&self) -> bool {
        forall|i: int| 0 <= i < self.entries@.len() ==> normal_name(#[trigger] self.entries@[i].0@)
    }

    pub fn new() -> (r: Headers)
        ensures
            r.entries@.len() == 0,
            r.map() == Map::<Seq<char>, Seq<char>>::empty(),
            r.wf(),
    {
        Headers { entries: Vec::new() }
    }

    fn push(&mut self, key: String, value: String)
        ensures
            final(self).map() == old(self).map().insert(key@, value@),
            final(self).entries@ == old(self).entries@.push((key, value)),
    {
        let ghost before = self.entries@;
        self.entries.push((key, value));
        assert(self.entries@.drop_last() =~= before);
    }

    /// Sets `key`, a name in normal form, to `value`, replacing what it held.
    pub fn insert(&mut self, key: String, value: String)
        requires
            normal_name(key@),
        ensures
            final(self).map() == old(self).map().insert(key@, value@),
            old(self).wf() ==> final(self).wf(),
    {
        self.push(key, value);
    }

    /// Sets each header of `other` in turn, so that `other` wins where both name a header.
    pub fn extend(&mut self, other: &Headers)
        ensures
            final(self).map() == old(self).map().union_prefer_right(other.map()),
            old(self).wf() && other.wf() ==> final(self).wf(),
    {
        let ghost start = self.map();
        let ghost was_wf = self.wf();
        let mut i: usize = 0;
        while i < other.entries.len()
            invariant
                i <= other.entries@.len(),
                self.map() == start.union_prefer_right(entries_map(other.entries@.take(i as int))),
                was_wf && other.wf() ==> self.wf(),
            decreases other.entries@.len() - i,
        {
            let ghost prev = entries_map(other.entries@.take(i as int));
            let k = other.entries[i].0.clone();
            let v = other.entries[i].1.clone();
            assert(other.entries@.take(i + 1).drop_last() =~= other.entries@.take(i as int));
            self.push(k, v);
            assert(start.union_prefer_right(prev).insert(k@, v@) =~= start.union_prefer_right(
                prev.insert(k@, v@),
            ));
            i += 1;
        }
        assert(other.entries@.take(i as int) =~= other.entries@);
    }

    pub fn copy(&self) -> (r: Headers)
        ensures
            r.map() == self.map(),
            self.wf() ==> r.wf(),
    {
        let mut r = Headers::new();
        r.extend(self);
        assert(Map::<Seq<char>, Seq<char>>::empty().union_prefer_right(self.map()) =~= self.map());
        r
    }

    /// Sets a header named by a caller: the name is checked and normalised, the value
    /// checked; the headers stay as they were where either is refused.
    pub fn set(&mut self, key: &str, value: &str) -> (r: Result<(), QueryError>)
        ensures
            r is Ok <==> header_name_of(key@) is Some && header_value_ok(value@),
            header_name_of(key@) is None ==> r matches Err(QueryError::InvalidHeaderNameError(_)),
            header_name_of(key@) is Some && !header_value_ok(value@) ==> r matches Err(
                QueryError::InvalidHeaderValueError(_),
            ),
            r is Ok ==> final(self).map() == old(self).map().insert(
                header_name_of(key@)->0,
                value@,
            ),
            r is Err ==> *final(self) == *old(self),
            old(self).wf() ==> final(self).wf(),
    {
        let name = match header_name(key) {
            Ok(n) => n,
            Err(e) => {
                return Err(QueryError::InvalidHeaderNameError(e));
            },
        };
        match check_header_value(value) {
            Ok(()) => {},
            Err(e) => {
                return Err(QueryError::InvalidHeaderValueError(e));
            },
        }
        proof {
            lemma_header_name_normal(key@);
        }
        self.insert(name, String::from_str(value));
        Ok(())
    }
}

} // verus!
