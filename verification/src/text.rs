//! Text normalization: whitespace collapsing, trimming and joining, as applied
//! to text extracted from a document. Normalization is deterministic and
//! idempotent; the idempotence proof stands at the end of this module.

use vstd::prelude::*;

verus! {

/// Relies on std's String::push: appends the given char to the end of the
/// string.
pub assume_specification[ String::push ](s: &mut String, c: char)
    ensures
        final(s)@ == old(s)@.push(c),
;

/// The whitespace characters that normalization collapses and trims:
/// space, tab, carriage return and newline.
pub open spec fn is_ws(c: char) -> bool {
    c == ' ' || c == '\t' || c == '\r' || c == '\n'
}

/// `s` with every run of whitespace replaced by one space.
pub open spec fn collapsed(s: Seq<char>) -> Seq<char>
    decreases s.len(),
{
    if s.len() == 0 {
        Seq::<char>::empty()
    } else if s.len() >= 2 && is_ws(s[s.len() - 2]) && is_ws(s[s.len() - 1]) {
        collapsed(s.drop_last())
    } else {
        collapsed(s.drop_last()).push(
            if is_ws(s[s.len() - 1]) {
                ' '
            } else {
                s[s.len() - 1]
            },
        )
    }
}

/// `s` without its leading whitespace.
pub open spec fn trimmed_start(s: Seq<char>) -> Seq<char>
    decreases s.len(),
{
    if s.len() == 0 {
        s
    } else if is_ws(s[0]) {
        trimmed_start(s.drop_first())
    } else {
        s
    }
}

/// `s` without its trailing whitespace.
pub open spec fn trimmed_end(s: Seq<char>) -> Seq<char>
    decreases s.len(),
{
    if s.len() == 0 {
        s
    } else if is_ws(s[s.len() - 1]) {
        trimmed_end(s.drop_last())
    } else {
        s
    }
}

/// `s` without leading and trailing whitespace.
pub open spec fn trimmed(s: Seq<char>) -> Seq<char> {
    trimmed_end(trimmed_start(s))
}

/// Single-string normalization: collapse whitespace runs, then trim.
pub open spec fn normalized(s: Seq<char>) -> Seq<char> {
    trimmed(collapsed(s))
}

/// The parts joined with the separator between consecutive parts.
pub open spec fn joined_with(parts: Seq<Seq<char>>, sep: Seq<char>) -> Seq<char>
    decreases parts.len(),
{
    if parts.len() == 0 {
        Seq::<char>::empty()
    } else if parts.len() == 1 {
        parts[0]
    } else {
        joined_with(parts.drop_last(), sep) + sep + parts[parts.len() - 1]
    }
}

/// Replaces every run of whitespace in `s` by a single space.
pub fn collapse_str(s: &str) -> (r: String)
    ensures
        r@ == collapsed(s@),
{
    let n = s.unicode_len();
    let mut out = String::new();
    let mut i: usize = 0;
    while i < n
        invariant
            i <= n,
            n == s@.len(),
            out@ == collapsed(s@.take(i as int)),
        decreases n - i,
    {
        let c = s.get_char(i);
        let prev_ws = if i >= 1 {
            is_ws_char(s.get_char(i - 1))
        } else {
            false
        };
        proof {
            assert(s@.take(i + 1).drop_last() =~= s@.take(i as int));
        }
        if !(prev_ws && is_ws_char(c)) {
            let c2 = if is_ws_char(c) {
                ' '
            } else {
                c
            };
            out.push(c2);
        }
        i = i + 1;
    }
    proof {
        assert(s@.take(n as int) =~= s@);
    }
    out
}

/// Decides `is_ws` on a concrete character.
pub fn is_ws_char(c: char) -> (r: bool)
    ensures
        r == is_ws(c),
{
    c == ' ' || c == '\t' || c == '\r' || c == '\n'
}

proof fn lemma_trimmed_start_skip(s: Seq<char>, k: int)
    requires
        0 <= k <= s.len(),
        forall|m: int| 0 <= m < k ==> is_ws(s[m]),
        k == s.len() || !is_ws(s[k]),
    ensures
        trimmed_start(s) == s.skip(k),
    decreases k,
{
    if k == 0 {
        assert(s.skip(0) =~= s);
        if s.len() > 0 {
            assert(!is_ws(s[0]));
        }
    } else {
        assert(is_ws(s[0]));
        let t = s.drop_first();
        assert(forall|m: int| 0 <= m < k - 1 ==> is_ws(t[m]));
        lemma_trimmed_start_skip(t, k - 1);
        assert(t.skip(k - 1) =~= s.skip(k));
    }
}

proof fn lemma_trimmed_end_take(s: Seq<char>, j: int)
    requires
        0 <= j <= s.len(),
        forall|m: int| j <= m < s.len() ==> is_ws(s[m]),
        j == 0 || !is_ws(s[j - 1]),
    ensures
        trimmed_end(s) == s.take(j),
    decreases s.len() - j,
{
    if j == s.len() {
        if s.len() == 0 || !is_ws(s[s.len() - 1]) {
            assert(s.take(j) =~= s);
        } else {
            assert(!is_ws(s[j - 1]));
            assert(false);
        }
    } else {
        assert(is_ws(s[s.len() - 1]));
        let t = s.drop_last();
        assert(forall|m: int| j <= m < t.len() ==> is_ws(t[m]));
        lemma_trimmed_end_take(t, j);
        assert(t.take(j) =~= s.take(j));
    }
}

/// Removes leading and trailing whitespace from `s`.
pub fn trim_str(s: &str) -> (r: String)
    ensures
        r@ == trimmed(s@),
{
    let n = s.unicode_len();
    let mut i: usize = 0;
    while i < n && is_ws_char(s.get_char(i))
        invariant
            i <= n,
            n == s@.len(),
            forall|m: int| 0 <= m < i ==> is_ws(s@[m]),
        decreases n - i,
    {
        i = i + 1;
    }
    if i == n {
        // all whitespace
        proof {
            lemma_trimmed_start_skip(s@, n as int);
            assert(s@.skip(n as int) =~= Seq::<char>::empty());
        }
        return String::new();
    }
    let mut j: usize = n;
    while j > i && is_ws_char(s.get_char(j - 1))
        invariant
            i <= j <= n,
            n == s@.len(),
            forall|m: int| j <= m < n ==> is_ws(s@[m]),
        decreases j,
    {
        j = j - 1;
    }
    // s[i] is not whitespace, so the loop on j stopped at some j > i with
    // s[j - 1] not whitespace.
    let sub = s.substring_char(i, j);
    proof {
        lemma_trimmed_start_skip(s@, i as int);
        let t = s@.skip(i as int);
        assert(forall|m: int| j - i <= m < t.len() ==> is_ws(t[m]));
        assert(t[j - i - 1] == s@[j - 1]);
        lemma_trimmed_end_take(t, j - i);
        assert(t.take(j - i) =~= s@.subrange(i as int, j as int));
    }
    sub.to_owned()
}

/// Collapses whitespace runs and trims the ends of `s`.
pub fn normalize_str(s: &str) -> (r: String)
    ensures
        r@ == normalized(s@),
{
    let c = collapse_str(s);
    trim_str(c.as_str())
}

/// Joins the parts with the separator between consecutive parts.
pub fn join_parts(parts: &Vec<String>, sep: &str) -> (r: String)
    ensures
        r@ == joined_with(parts.deep_view(), sep@),
{
    let mut out = String::new();
    let mut i: usize = 0;
    while i < parts.len()
        invariant
            i <= parts@.len(),
            out@ == joined_with(parts.deep_view().take(i as int), sep@),
        decreases parts@.len() - i,
    {
        if i > 0 {
            out.append(sep);
        }
        out.append(parts[i].as_str());
        proof {
            let pv = parts.deep_view();
            assert(pv.take(i + 1).drop_last() =~= pv.take(i as int));
            assert(pv.take(i + 1)[i as int] == pv[i as int]);
            if i == 0 {
                assert(out@ == pv[0]);
            }
        }
        i = i + 1;
    }
    proof {
        assert(parts.deep_view().take(parts@.len() as int) =~= parts.deep_view());
    }
    out
}

/// The pieces of `s` split at every ", " from position `i` on, with `cur`
/// the piece read so far.
pub open spec fn split_cs_acc(s: Seq<char>, i: int, cur: Seq<char>) -> Seq<Seq<char>>
    decreases s.len() - i,
{
    if i < 0 || i >= s.len() {
        seq![cur]
    } else if i + 1 < s.len() && s[i] == ',' && s[i + 1] == ' ' {
        seq![cur] + split_cs_acc(s, i + 2, Seq::<char>::empty())
    } else {
        split_cs_acc(s, i + 1, cur.push(s[i]))
    }
}

/// The pieces of `s` split at every ", ".
pub open spec fn split_comma_space(s: Seq<char>) -> Seq<Seq<char>> {
    split_cs_acc(s, 0, Seq::<char>::empty())
}

/// Splits `s` at every ", ".
pub fn split_cs_str(s: &str) -> (r: Vec<String>)
    ensures
        r.deep_view() == split_comma_space(s@),
{
    let n = s.unicode_len();
    let mut out: Vec<String> = Vec::new();
    let mut cur = String::new();
    let mut i: usize = 0;
    while i < n
        invariant
            i <= n,
            n == s@.len(),
            split_comma_space(s@) == out.deep_view() + split_cs_acc(s@, i as int, cur@),
        decreases n - i,
    {
        let ghost curv = cur@;
        let c = s.get_char(i);
        proof {
            assert(s@[i as int] == c);
        }
        if i + 1 < n && c == ',' && s.get_char(i + 1) == ' ' {
            let ghost prev = out.deep_view();
            out.push(cur);
            cur = String::new();
            i = i + 2;
            proof {
                assert(out@[out@.len() - 1]@ == curv);
                assert(out.deep_view() =~= prev.push(curv));
                assert(split_cs_acc(s@, i - 2, curv) == seq![curv] + split_cs_acc(
                    s@,
                    i as int,
                    Seq::<char>::empty(),
                ));
                assert(prev.push(curv) + split_cs_acc(s@, i as int, Seq::<char>::empty()) =~= prev
                    + (seq![curv] + split_cs_acc(s@, i as int, Seq::<char>::empty())));
                assert(cur@ =~= Seq::<char>::empty());
            }
        } else {
            cur.push(c);
            i = i + 1;
            proof {
                assert(cur@ == curv.push(c));
                assert(split_cs_acc(s@, i - 1, curv) == split_cs_acc(s@, i as int, curv.push(c)));
            }
        }
    }
    let ghost curv = cur@;
    let ghost prev = out.deep_view();
    out.push(cur);
    proof {
        assert(out@[out@.len() - 1]@ == curv);
        assert(split_cs_acc(s@, n as int, curv) == seq![curv]);
        assert(out.deep_view() =~= prev + seq![curv]);
    }
    out
}

/// A raw optional string resolved to its trimmed form, with a blank or
/// absent value resolving to `None`.
pub open spec fn owned_or_none(o: Option<Seq<char>>) -> Option<Seq<char>> {
    match o {
        None => None,
        Some(s) => if trimmed(s).len() == 0 {
            None
        } else {
            Some(trimmed(s))
        },
    }
}

/// An optional raw string becomes an owned, trimmed string, with blank or
/// absent values resolving to `None`.
pub trait ToOwnedOrNone: Sized {
    spec fn raw_view(&self) -> Option<Seq<char>>;

    fn to_owned_or_none(self) -> (r: Option<String>)
        ensures
            match r {
                Some(t) => owned_or_none(self.raw_view()) == Some(t@),
                None => owned_or_none(self.raw_view()) is None,
            },
    ;
}

impl<'a> ToOwnedOrNone for Option<&'a str> {
    open spec fn raw_view(&self) -> Option<Seq<char>> {
        match self {
            Some(s) => Some(s@),
            None => None,
        }
    }

    fn to_owned_or_none(self) -> (r: Option<String>) {
        match self {
            None => None,
            Some(s) => {
                let t = trim_str(s);
                if t.as_str().is_empty() {
                    None
                } else {
                    Some(t)
                }
            },
        }
    }
}

/// Whitespace runs collapse to single spaces.
pub trait FixHtmlWhitespace: Sized {
    spec fn text_view(&self) -> Seq<char>;

    fn fix_html_whitespace(self) -> (r: Self)
        ensures
            r.text_view() == collapsed(self.text_view()),
    ;
}

impl FixHtmlWhitespace for String {
    open spec fn text_view(&self) -> Seq<char> {
        self@
    }

    fn fix_html_whitespace(self) -> (r: String) {
        collapse_str(self.as_str())
    }
}

/// Parts join with newlines and the ends are trimmed.
pub trait JoinWithNewline: Sized {
    spec fn parts_view(&self) -> Seq<Seq<char>>;

    fn join_with_newline(self) -> (r: String)
        ensures
            r@ == trimmed(joined_with(self.parts_view(), "\n"@)),
    ;
}

impl JoinWithNewline for Vec<String> {
    open spec fn parts_view(&self) -> Seq<Seq<char>> {
        self.deep_view()
    }

    fn join_with_newline(self) -> (r: String) {
        let j = join_parts(&self, "\n");
        trim_str(j.as_str())
    }
}

// ---------------------------------------------------------------------------
// Idempotence of normalization.
// ---------------------------------------------------------------------------
/// Every whitespace character in `s` is a plain space.
pub open spec fn space_only(s: Seq<char>) -> bool {
    forall|i: int| 0 <= i < s.len() && is_ws(s[i]) ==> s[i] == ' '
}

/// No two adjacent whitespace characters in `s`.
pub open spec fn no_double_ws(s: Seq<char>) -> bool {
    forall|i: int| #![trigger s[i]] 0 <= i < s.len() - 1 ==> !(is_ws(s[i]) && is_ws(s[i + 1]))
}

proof fn lemma_collapsed_last(s: Seq<char>)
    requires
        s.len() > 0,
    ensures
        collapsed(s).len() > 0,
        collapsed(s)[collapsed(s).len() - 1] == if is_ws(s[s.len() - 1]) {
            ' '
        } else {
            s[s.len() - 1]
        },
    decreases s.len(),
{
    if s.len() >= 2 && is_ws(s[s.len() - 2]) && is_ws(s[s.len() - 1]) {
        lemma_collapsed_last(s.drop_last());
    }
}

proof fn lemma_collapsed_shape(s: Seq<char>)
    ensures
        space_only(collapsed(s)),
        no_double_ws(collapsed(s)),
    decreases s.len(),
{
    if s.len() == 0 {
    } else if s.len() >= 2 && is_ws(s[s.len() - 2]) && is_ws(s[s.len() - 1]) {
        lemma_collapsed_shape(s.drop_last());
    } else {
        lemma_collapsed_shape(s.drop_last());
        let t = collapsed(s.drop_last());
        let c = if is_ws(s[s.len() - 1]) {
            ' '
        } else {
            s[s.len() - 1]
        };
        if t.len() > 0 && is_ws(c) {
            // s does not end in two whitespace characters, so its last
            // character before the end is not whitespace, and neither is the
            // last character of the collapsed prefix.
            if s.len() >= 2 {
                lemma_collapsed_last(s.drop_last());
            }
        }
        assert(space_only(t.push(c)));
        assert(no_double_ws(t.push(c)));
    }
}

proof fn lemma_collapsed_fixed(s: Seq<char>)
    requires
        space_only(s),
        no_double_ws(s),
    ensures
        collapsed(s) == s,
    decreases s.len(),
{
    if s.len() == 0 {
        assert(collapsed(s) =~= s);
    } else if s.len() >= 2 && is_ws(s[s.len() - 2]) && is_ws(s[s.len() - 1]) {
        assert(false);
    } else {
        let t = s.drop_last();
        assert(space_only(t));
        assert(no_double_ws(t));
        lemma_collapsed_fixed(t);
        assert(collapsed(s) =~= s);
    }
}

proof fn lemma_trimmed_start_shape(s: Seq<char>)
    ensures
        trimmed_start(s).len() > 0 ==> !is_ws(trimmed_start(s)[0]),
        space_only(s) ==> space_only(trimmed_start(s)),
        no_double_ws(s) ==> no_double_ws(trimmed_start(s)),
        s.len() > 0 && !is_ws(s[s.len() - 1]) ==> trimmed_start(s).len() > 0 && trimmed_start(s)[
            trimmed_start(s).len() - 1
        ] == s[s.len() - 1],
    decreases s.len(),
{
    if s.len() == 0 {
    } else if is_ws(s[0]) {
        let t = s.drop_first();
        assert(space_only(s) ==> space_only(t));
        assert(no_double_ws(s) ==> forall|i: int|
            #![trigger t[i]]
            0 <= i < t.len() - 1 ==> !(is_ws(t[i]) && is_ws(t[i + 1])));
        lemma_trimmed_start_shape(t);
    }
}

proof fn lemma_trimmed_end_shape(s: Seq<char>)
    ensures
        trimmed_end(s).len() > 0 ==> !is_ws(trimmed_end(s)[trimmed_end(s).len() - 1]),
        space_only(s) ==> space_only(trimmed_end(s)),
        no_double_ws(s) ==> no_double_ws(trimmed_end(s)),
        s.len() > 0 && !is_ws(s[0]) ==> trimmed_end(s).len() > 0 && trimmed_end(s)[0] == s[0],
    decreases s.len(),
{
    if s.len() == 0 {
    } else if is_ws(s[s.len() - 1]) {
        let t = s.drop_last();
        assert(space_only(s) ==> space_only(t));
        assert(no_double_ws(s) ==> no_double_ws(t));
        lemma_trimmed_end_shape(t);
    }
}

proof fn lemma_trimmed_fixed(s: Seq<char>)
    requires
        s.len() > 0 ==> !is_ws(s[0]),
        s.len() > 0 ==> !is_ws(s[s.len() - 1]),
    ensures
        trimmed(s) == s,
{
    assert(trimmed_start(s) == s);
    assert(trimmed_end(s) == s);
}

/// Trimming is idempotent: trimming already-trimmed text returns the same
/// text unchanged.
pub proof fn lemma_trimmed_idempotent(s: Seq<char>)
    ensures
        trimmed(trimmed(s)) == trimmed(s),
{
    let ts = trimmed_start(s);
    lemma_trimmed_start_shape(s);
    lemma_trimmed_end_shape(ts);
    let t = trimmed_end(ts);
    if t.len() > 0 {
        assert(!is_ws(t[0]));
        assert(!is_ws(t[t.len() - 1]));
    }
    lemma_trimmed_fixed(t);
}

/// Normalization is idempotent: normalizing already-normalized text returns
/// the same text unchanged.
pub proof fn lemma_normalized_idempotent(s: Seq<char>)
    ensures
        normalized(normalized(s)) == normalized(s),
{
    let c = collapsed(s);
    lemma_collapsed_shape(s);
    lemma_trimmed_start_shape(c);
    let ts = trimmed_start(c);
    lemma_trimmed_end_shape(ts);
    let t = trimmed_end(ts);
    // t == normalized(s); it is space-only, has no double whitespace, and no
    // whitespace at either end.
    lemma_collapsed_fixed(t);
    if t.len() > 0 {
        assert(!is_ws(t[t.len() - 1]));
        assert(!is_ws(t[0]));
    }
    lemma_trimmed_fixed(t);
}

} // verus!
