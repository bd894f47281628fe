//! Paths as text, read and joined the way `std::path` does on Unix.

use vstd::prelude::*;

use crate::text;

verus! {

/// `base` with `part` pushed on: an absolute `part` replaces `base`; else a
/// separator goes between them unless `base` is empty or already ends in one.
pub open spec fn joined(base: Seq<char>, part: Seq<char>) -> Seq<char> {
    if part.len() > 0 && part[0] == '/' {
        part
    } else if base.len() == 0 {
        part
    } else if base.last() == '/' {
        base + part
    } else {
        base + seq!['/'] + part
    }
}

/// Joins `part` onto `base`.
pub fn join_chars(base: &[char], part: &[char]) -> (r: Vec<char>)
    ensures
        r@ == joined(base@, part@),
{
    let mut v: Vec<char> = Vec::new();
    if part.len() > 0 && part[0] == '/' {
        text::append_chars(&mut v, part);
    } else if base.len() == 0 {
        text::append_chars(&mut v, part);
    } else if base[base.len() - 1] == '/' {
        text::append_chars(&mut v, base);
        text::append_chars(&mut v, part);
    } else {
        text::append_chars(&mut v, base);
        v.push('/');
        text::append_chars(&mut v, part);
    }
    v
}

/// Joins `part` onto `base`.
pub fn join(base: &str, part: &str) -> (r: String)
    ensures
        r@ == joined(base@, part@),
{
    let b = text::chars_of(base);
    let p = text::chars_of(part);
    text::string_of(join_chars(b.as_slice(), p.as_slice()).as_slice())
}

/// What `Components::as_path` drops from the front of a path's remainder:
/// empty components (repeated separators) and `.` components.
pub open spec fn trim_leading(s: Seq<char>) -> Seq<char>
    decreases s.len(),
{
    if s.len() > 0 && s[0] == '/' {
        trim_leading(s.skip(1))
    } else if s == seq!['.'] {
        Seq::empty()
    } else if s.len() >= 2 && s[0] == '.' && s[1] == '/' {
        trim_leading(s.skip(2))
    } else {
        s
    }
}

/// What `Components::as_path` drops from the back: trailing separators and
/// `.` components.
pub open spec fn trim_trailing(s: Seq<char>) -> Seq<char>
    decreases s.len(),
{
    if s.len() > 0 && s.last() == '/' {
        trim_trailing(s.drop_last())
    } else if s == seq!['.'] {
        Seq::empty()
    } else if s.len() >= 2 && s.last() == '.' && s[s.len() - 2] == '/' {
        trim_trailing(s.take(s.len() - 2))
    } else {
        s
    }
}

/// Whether the first component of a path is `~`.
pub open spec fn leads_with_tilde(raw: Seq<char>) -> bool {
    raw == seq!['~'] || (raw.len() >= 2 && raw[0] == '~' && raw[1] == '/')
}

/// Where a path written in the settings points: a leading `~` component
/// stands for `home`; an absolute path stays as it is; anything else hangs
/// off `home`, never off the working directory.
pub open spec fn expanded(raw: Seq<char>, home: Seq<char>) -> Seq<char> {
    if leads_with_tilde(raw) {
        joined(home, trim_trailing(trim_leading(raw.skip(if raw.len() >= 2 { 2 } else { 1 }))))
    } else if raw.len() > 0 && raw[0] == '/' {
        raw
    } else {
        joined(home, raw)
    }
}

/// Where `trim_leading` leaves off, from `start` on.
fn leading_end(s: &[char], start: usize) -> (r: usize)
    requires
        start <= s.len(),
    ensures
        start <= r <= s.len(),
        s@.skip(r as int) == trim_leading(s@.skip(start as int)),
{
    let mut i = start;
    while i < s.len()
        invariant
            start <= i <= s.len(),
            trim_leading(s@.skip(i as int)) == trim_leading(s@.skip(start as int)),
        decreases s.len() - i,
    {
        let ghost t = s@.skip(i as int);
        if s[i] == '/' {
            assert(t.skip(1) =~= s@.skip(i + 1));
            i = i + 1;
        } else if s[i] == '.' && i + 1 == s.len() {
            assert(t =~= seq!['.']);
            assert(s@.skip(s.len() as int) =~= Seq::<char>::empty());
            i = s.len();
            assert(trim_leading(t) =~= Seq::<char>::empty());
        } else if s[i] == '.' && i + 1 < s.len() && s[i + 1] == '/' {
            assert(t.skip(2) =~= s@.skip(i + 2));
            i = i + 2;
        } else {
            return i;
        }
    }
    assert(s@.skip(i as int) =~= Seq::<char>::empty());
    i
}

/// Where `trim_trailing` leaves off, looking at the first `end` characters.
fn trailing_end(s: &[char], start: usize, end: usize) -> (r: usize)
    requires
        start <= end <= s.len(),
    ensures
        start <= r <= end,
        s@.subrange(start as int, r as int) == trim_trailing(s@.subrange(start as int, end as int)),
{
    let mut j = end;
    while j > start
        invariant
            start <= j <= end <= s.len(),
            trim_trailing(s@.subrange(start as int, j as int)) == trim_trailing(
                s@.subrange(start as int, end as int),
            ),
        decreases j,
    {
        let ghost t = s@.subrange(start as int, j as int);
        if s[j - 1] == '/' {
            assert(t.drop_last() =~= s@.subrange(start as int, j - 1));
            j = j - 1;
        } else if s[j - 1] == '.' && j - 1 == start {
            assert(t =~= seq!['.']);
            assert(s@.subrange(start as int, start as int) =~= Seq::<char>::empty());
            j = start;
            assert(trim_trailing(t) =~= Seq::<char>::empty());
        } else if s[j - 1] == '.' && j - 1 > start && s[j - 2] == '/' {
            assert(t.take(t.len() - 2) =~= s@.subrange(start as int, j - 2));
            j = j - 2;
        } else {
            return j;
        }
    }
    assert(s@.subrange(start as int, j as int) =~= Seq::<char>::empty());
    j
}

/// Maps a path written in the settings to where it points; see [`expanded`].
pub fn expand(raw: &str, home: &str) -> (r: String)
    ensures
        r@ == expanded(raw@, home@),
{
    let s = text::chars_of(raw);
    let s = s.as_slice();
    let h = text::chars_of(home);
    if s.len() > 0 && s[0] == '~' && (s.len() == 1 || s[1] == '/') {
        let skip: usize = if s.len() >= 2 { 2 } else { 1 };
        proof {
            if s.len() == 1 {
                assert(s@ =~= seq!['~']);
            }
        }
        let from = leading_end(s, skip);
        let to = trailing_end(s, from, s.len());
        assert(s@.skip(from as int) =~= s@.subrange(from as int, s.len() as int));
        let rest = text::slice_chars(s, from, to);
        text::string_of(join_chars(h.as_slice(), rest.as_slice()).as_slice())
    } else if s.len() > 0 && s[0] == '/' {
        proof {
            if s@ == seq!['~'] {
                assert(s@[0] == '~');
            }
        }
        raw.to_owned()
    } else {
        proof {
            if s.len() > 0 && s@ == seq!['~'] {
                assert(s@[0] == '~');
            }
        }
        text::string_of(join_chars(h.as_slice(), s).as_slice())
    }
}

/// The position of the last separator, or -1 when there is none.
pub open spec fn last_separator(s: Seq<char>) -> int
    decreases s.len(),
{
    if s.len() == 0 {
        -1
    } else if s.last() == '/' {
        s.len() - 1
    } else {
        last_separator(s.drop_last())
    }
}

/// The last component of a path when it is a name, as `Path::file_name`
/// gives it: none for a path that ends in `..` or has no name at all.
pub open spec fn file_name(p: Seq<char>) -> Option<Seq<char>> {
    let t = trim_trailing(p);
    let name = t.skip(last_separator(t) + 1);
    if t.len() == 0 || name == seq!['.', '.'] {
        None
    } else {
        Some(name)
    }
}

proof fn lemma_last_separator(s: Seq<char>)
    ensures
        -1 <= last_separator(s) < s.len(),
        last_separator(s) >= 0 ==> s[last_separator(s)] == '/',
        forall|i: int| last_separator(s) < i < s.len() ==> s[i] != '/',
    decreases s.len(),
{
    if s.len() > 0 && s.last() != '/' {
        let t = s.drop_last();
        lemma_last_separator(t);
        assert forall|i: int| last_separator(s) < i < s.len() implies s[i] != '/' by {
            if i < s.len() - 1 {
                assert(s[i] == t[i]);
            }
        }
    }
}

/// The last component of `p` when it is a name; see [`file_name`].
pub fn file_name_of(p: &[char]) -> (r: Option<Vec<char>>)
    ensures
        match r {
            Some(v) => file_name(p@) == Some(v@),
            None => file_name(p@) is None,
        },
{
    let end = trailing_end(p, 0, p.len());
    assert(p@.subrange(0, p.len() as int) =~= p@);
    let ghost t = p@.subrange(0, end as int);
    let mut k: usize = end;
    while k > 0 && p[k - 1] != '/'
        invariant
            k <= end <= p.len(),
            forall|i: int| k <= i < end ==> p@[i] != '/',
        decreases k,
    {
        k = k - 1;
    }
    proof {
        lemma_last_separator(t);
        if k > 0 {
            assert(t[k - 1] == '/');
        }
        assert(last_separator(t) == k - 1) by {
            if last_separator(t) < k - 1 {
                assert(t[k - 1] != '/');
            }
            if last_separator(t) > k - 1 {
                assert(t[last_separator(t)] == '/');
            }
        }
    }
    let name = text::slice_chars(p, k, end);
    assert(name@ =~= t.skip(last_separator(t) + 1));
    if end == 0 || (name.len() == 2 && name[0] == '.' && name[1] == '.') {
        proof {
            if end != 0 {
                assert(name@ =~= seq!['.', '.']);
            }
        }
        None
    } else {
        proof {
            if name@ == seq!['.', '.'] {
                assert(name@.len() == 2 && name@[0] == '.' && name@[1] == '.');
            }
        }
        Some(name)
    }
}

} // verus!
