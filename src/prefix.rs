use vstd::prelude::*;
use vstd::utf8::is_ascii_chars;

verus! {

/// The largest ASCII character; a prefix made only of it cannot be bumped.
pub const MAX_ASCII: char = '\x7f';

/// Errors of the prefix range computation.
pub enum ErrorCode {
    /// The prefix holds a character outside ASCII; the message names it.
    OnlySupportAsciiChars(String),
}

impl ErrorCode {
    pub open spec fn message_view(&self) -> Seq<char> {
        match self {
            ErrorCode::OnlySupportAsciiChars(m) => m@,
        }
    }
}

pub open spec fn is_ascii_char(c: char) -> bool {
    '\0' <= c <= MAX_ASCII
}

/// `i` is the position of the leftmost non-ASCII character of `s`.
pub open spec fn is_first_non_ascii(s: Seq<char>, i: int) -> bool {
    &&& 0 <= i < s.len()
    &&& !is_ascii_char(s[i])
    &&& forall|j: int| 0 <= j < i ==> is_ascii_char(#[trigger] s[j])
}

/// The message reported for the offending character `c`.
pub open spec fn ascii_error_message(c: char) -> Seq<char> {
    "Only support ASCII characters: "@ + seq![c]
}

/// The character right after `c` in code point order.
pub open spec fn bump(c: char) -> char {
    ((c as u32) + 1) as char
}

/// The exclusive end of the range of keys that start with `s`: the last
/// character that is not `MAX_ASCII` is bumped by one; when there is none,
/// one `MAX_ASCII` is appended.
pub open spec fn prefix_end(s: Seq<char>) -> Seq<char>
    decreases s.len(),
{
    if s.len() == 0 {
        seq![MAX_ASCII]
    } else if s.last() == MAX_ASCII {
        prefix_end(s.drop_last()).push(MAX_ASCII)
    } else {
        s.drop_last().push(bump(s.last()))
    }
}

/// Every character of `s` from position `from` on is `MAX_ASCII`.
pub open spec fn all_max_from(s: Seq<char>, from: int) -> bool {
    forall|j: int| from <= j < s.len() ==> #[trigger] s[j] == MAX_ASCII
}

/// When position `l` is the last one below `MAX_ASCII`, the end bound bumps it.
proof fn lemma_prefix_end_bumps(s: Seq<char>, l: int)
    requires
        0 <= l < s.len(),
        s[l] != MAX_ASCII,
        all_max_from(s, l + 1),
    ensures
        prefix_end(s) == s.update(l, bump(s[l])),
    decreases s.len(),
{
    if l == s.len() - 1 {
        assert(s.drop_last().push(bump(s.last())) =~= s.update(l, bump(s[l])));
    } else {
        let t = s.drop_last();
        assert(all_max_from(t, l + 1));
        lemma_prefix_end_bumps(t, l);
        assert(t.update(l, bump(t[l])).push(MAX_ASCII) =~= s.update(l, bump(s[l])));
    }
}

/// When every character is `MAX_ASCII`, the end bound appends one more.
proof fn lemma_prefix_end_appends(s: Seq<char>)
    requires
        all_max_from(s, 0),
    ensures
        prefix_end(s) == s.push(MAX_ASCII),
    decreases s.len(),
{
    if s.len() > 0 {
        let t = s.drop_last();
        assert(all_max_from(t, 0));
        lemma_prefix_end_appends(t);
        assert(t.push(MAX_ASCII).push(MAX_ASCII) =~= s.push(MAX_ASCII));
    }
}

/// Relies on std's `ToString` for `char`: the string of that one character.
#[verifier::external_body]
fn char_to_string(c: char) -> (r: String)
    ensures
        r@ == seq![c],
{
    c.to_string()
}

/// Returns a string greater than every string that starts with `s`, which
/// must be ASCII: `"a"` gives `"b"`, `[96, 97, 127]` gives `[96, 98, 127]`,
/// `[127]` gives `[127, 127]`.
pub fn prefix_of_string(s: &str) -> (r: Result<String, ErrorCode>)
    ensures
        r is Ok <==> is_ascii_chars(s@),
        r matches Ok(e) ==> e@ == prefix_end(s@),
        r matches Err(err) ==> exists|i: int|
            is_first_non_ascii(s@, i) && err.message_view() == ascii_error_message(s@[i]),
{
    if !s.is_ascii() {
        let n = s.unicode_len();
        let mut i: usize = 0;
        while i < n
            invariant
                n == s@.len(),
                i <= n,
                forall|j: int| 0 <= j < i ==> is_ascii_char(#[trigger] s@[j]),
            decreases n - i,
        {
            let c = s.get_char(i);
            if c > MAX_ASCII {
                let mut m = String::from_str("Only support ASCII characters: ");
                m.append(char_to_string(c).as_str());
                proof {
                    reveal_strlit("Only support ASCII characters: ");
                    assert(is_first_non_ascii(s@, i as int));
                    assert(m@ =~= ascii_error_message(s@[i as int]));
                }
                return Err(ErrorCode::OnlySupportAsciiChars(m));
            }
            i = i + 1;
        }
    }
    assert(is_ascii_chars(s@));
    let n = s.unicode_len();
    let mut l: usize = n;
    while l > 0
        invariant
            n == s@.len(),
            l <= n,
            is_ascii_chars(s@),
            all_max_from(s@, l as int),
        decreases l,
    {
        l = l - 1;
        let b = s.get_ascii(l);
        if b != 127 {
            let next = (b + 1) as char;
            let mut out = String::from_str(s.substring_ascii(0, l));
            out.append(char_to_string(next).as_str());
            out.append(s.substring_ascii(l + 1, n));
            proof {
                lemma_prefix_end_bumps(s@, l as int);
                assert(out@ =~= s@.update(l as int, bump(s@[l as int])));
            }
            return Ok(out);
        }
    }
    let mut out = String::from_str(s);
    out.append(char_to_string(MAX_ASCII).as_str());
    proof {
        lemma_prefix_end_appends(s@);
    }
    Ok(out)
}

/// Returns the half-open range `[prefix, end)` of the keys that start with
/// `prefix`, where `end` is what `prefix_of_string` gives for it.
pub fn get_start_and_end_of_prefix(prefix: &str) -> (r: Result<(String, String), ErrorCode>)
    ensures
        r is Ok <==> is_ascii_chars(prefix@),
        r matches Ok((start, end)) ==> start@ == prefix@ && end@ == prefix_end(prefix@),
        r matches Err(err) ==> exists|i: int|
            is_first_non_ascii(prefix@, i) && err.message_view() == ascii_error_message(
                prefix@[i],
            ),
{
    match prefix_of_string(prefix) {
        Ok(end) => Ok((String::from_str(prefix), end)),
        Err(err) => Err(err),
    }
}

/// `a` sorts strictly before `b` when characters are compared by code point.
pub open spec fn key_lt(a: Seq<char>, b: Seq<char>) -> bool {
    exists|i: int|
        #![trigger a.subrange(0, i), b.subrange(0, i)]
        0 <= i <= a.len() && i <= b.len() && a.subrange(0, i) == b.subrange(0, i) && (
        (i == a.len() && i < b.len()) || (i < a.len() && i < b.len() && a[i] < b[i]))
}

pub open spec fn key_le(a: Seq<char>, b: Seq<char>) -> bool {
    a == b || key_lt(a, b)
}

/// `s` holds a character below `MAX_ASCII`.
pub open spec fn has_bumpable(s: Seq<char>) -> bool {
    exists|i: int| 0 <= i < s.len() && #[trigger] s[i] != MAX_ASCII
}

proof fn lemma_last_bumpable(s: Seq<char>) -> (l: int)
    requires
        has_bumpable(s),
    ensures
        0 <= l < s.len(),
        s[l] != MAX_ASCII,
        all_max_from(s, l + 1),
    decreases s.len(),
{
    if s.last() != MAX_ASCII {
        s.len() - 1
    } else {
        let t = s.drop_last();
        let w = choose|i: int| 0 <= i < s.len() && #[trigger] s[i] != MAX_ASCII;
        assert(t[w] != MAX_ASCII);
        let l = lemma_last_bumpable(t);
        assert(all_max_from(s, l + 1)) by {
            assert forall|j: int| l + 1 <= j < s.len() implies #[trigger] s[j] == MAX_ASCII by {
                if j < t.len() {
                    assert(t[j] == s[j]);
                }
            }
        }
        l
    }
}

/// Every key that starts with an ASCII prefix `p` lies in `[p, prefix_end(p))`,
/// and no key outside that range starts with `p`. This holds when `p` has a
/// character below `MAX_ASCII`: past a prefix made only of `MAX_ASCII`, a key
/// may continue with further `MAX_ASCII` characters and pass the bound.
pub proof fn lemma_prefix_range_covers(p: Seq<char>, k: Seq<char>)
    requires
        is_ascii_chars(p),
        has_bumpable(p),
    ensures
        p.is_prefix_of(k) ==> key_le(p, k) && key_lt(k, prefix_end(p)),
        !(key_le(p, k) && key_lt(k, prefix_end(p))) ==> !p.is_prefix_of(k),
{
    if p.is_prefix_of(k) {
        let l = lemma_last_bumpable(p);
        lemma_prefix_end_bumps(p, l);
        let e = prefix_end(p);
        assert(p[l] <= MAX_ASCII);
        assert(k[l] == p[l]);
        assert(k.subrange(0, l) =~= e.subrange(0, l));
        assert(k[l] < e[l]);
        assert(key_lt(k, e));
        if p != k {
            if p.len() == k.len() {
                assert(p =~= k);
            }
            assert(p.subrange(0, p.len() as int) =~= k.subrange(0, p.len() as int));
            assert(p.subrange(0, p.len() as int) =~= p);
            assert(key_lt(p, k));
        }
    }
}

proof fn lemma_first_non_ascii_unique(s: Seq<char>, i: int, j: int)
    requires
        is_first_non_ascii(s, i),
        is_first_non_ascii(s, j),
    ensures
        i == j,
{
    if i < j {
        assert(is_ascii_char(s[i]));
    } else if j < i {
        assert(is_ascii_char(s[j]));
    }
}

/// Two calls of `prefix_of_string` on the same input give the same result:
/// the same string on ASCII input, an error with the same message otherwise.
pub proof fn lemma_prefix_of_string_deterministic(
    s: &str,
    r1: Result<String, ErrorCode>,
    r2: Result<String, ErrorCode>,
)
    requires
        call_ensures(prefix_of_string, (s,), r1),
        call_ensures(prefix_of_string, (s,), r2),
    ensures
        r1 is Ok <==> r2 is Ok,
        r1 is Ok <==> is_ascii_chars(s@),
        r1 matches Ok(a) ==> r2 matches Ok(b) && a@ == b@,
        r1 matches Err(x) ==> r2 matches Err(y) && x.message_view() == y.message_view(),
{
    if let (Err(x), Err(y)) = (r1, r2) {
        let i = choose|i: int|
            is_first_non_ascii(s@, i) && x.message_view() == ascii_error_message(s@[i]);
        let j = choose|j: int|
            is_first_non_ascii(s@, j) && y.message_view() == ascii_error_message(s@[j]);
        lemma_first_non_ascii_unique(s@, i, j);
    }
}

/// `get_start_and_end_of_prefix(p)` is exactly `(p, prefix_of_string(p))`.
pub proof fn lemma_start_and_end_round_trip(
    p: &str,
    r: Result<(String, String), ErrorCode>,
    q: Result<String, ErrorCode>,
)
    requires
        call_ensures(get_start_and_end_of_prefix, (p,), r),
        call_ensures(prefix_of_string, (p,), q),
    ensures
        r is Ok <==> q is Ok,
        r matches Ok((start, end)) ==> q matches Ok(e) && start@ == p@ && end@ == e@,
        r matches Err(x) ==> q matches Err(y) && x.message_view() == y.message_view(),
{
    if let (Err(x), Err(y)) = (r, q) {
        let i = choose|i: int|
            is_first_non_ascii(p@, i) && x.message_view() == ascii_error_message(p@[i]);
        let j = choose|j: int|
            is_first_non_ascii(p@, j) && y.message_view() == ascii_error_message(p@[j]);
        lemma_first_non_ascii_unique(p@, i, j);
    }
}

} // verus!
