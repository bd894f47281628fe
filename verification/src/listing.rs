//! What the list of items shows: a headline per item, cut to the column
//! where it may be cut.
//!
//! A media item's title is its headline, in full. A post's headline is the
//! first line of its body, and only that is cut to the column's width:
//! where to cut is the screen's business, so the headline itself is always
//! whole and says which of the two it is.

use vstd::prelude::*;

use crate::handover::Handover;
use crate::text;
use crate::timestamp::{local_date_text, Timestamp};

verus! {

/// A headline, and where it came from.
#[derive(Debug, Clone, PartialEq, Eq)]
pub enum Headline {
    /// A media item's title: shown in full.
    Title(String),
    /// The first line of a post's body.
    Opening(String),
}

/// How many characters of a post's opening line the list shows before
/// cutting it short.
pub const HEADLINE_CHARS: usize = 60;

/// The first line of a text, as `str::lines` gives it: up to the first line
/// feed, without a carriage return just before it.
pub open spec fn first_line(s: Seq<char>) -> Seq<char> {
    if exists|i: int| 0 <= i < s.len() && s[i] == '\n' {
        let i = choose|i: int|
            0 <= i < s.len() && s[i] == '\n' && forall|j: int| 0 <= j < i ==> s[j] != '\n';
        let l = s.take(i);
        if l.len() > 0 && l.last() == '\r' {
            l.drop_last()
        } else {
            l
        }
    } else {
        s
    }
}

/// The first line of a text.
pub fn first_line_of(s: &str) -> (r: String)
    ensures
        r@ == first_line(s@),
{
    let v = text::chars_of(s);
    let v = v.as_slice();
    let mut i: usize = 0;
    while i < v.len() && v[i] != '\n'
        invariant
            i <= v.len(),
            forall|j: int| 0 <= j < i ==> v@[j] != '\n',
        decreases v.len() - i,
    {
        i = i + 1;
    }
    if i == v.len() {
        assert(!exists|k: int| 0 <= k < v@.len() && v@[k] == '\n');
        return text::string_of(v);
    }
    proof {
        let k = choose|k: int|
            0 <= k < v@.len() && v@[k] == '\n' && forall|j: int| 0 <= j < k ==> v@[j] != '\n';
        assert(v@[i as int] == '\n');
        if k < i {
            assert(v@[k] != '\n');
        }
        if k > i {
            assert(v@[i as int] != '\n');
        }
        assert(k == i);
    }
    let end = if i > 0 && v[i - 1] == '\r' { i - 1 } else { i };
    let l = text::slice_chars(v, 0, end);
    proof {
        let line = v@.take(i as int);
        if i > 0 && v@[i - 1] == '\r' {
            assert(l@ =~= line.drop_last());
        } else {
            assert(l@ =~= line);
        }
    }
    text::string_of(l.as_slice())
}

/// The headline of an item: its title when it has one, else the first line
/// of its body; an empty opening when it has neither.
pub fn headline(title: Option<&str>, body: Option<&str>) -> (r: Headline)
    ensures
        title matches Some(t) ==> r matches Headline::Title(x) && x@ == t@,
        title is None ==> (r matches Headline::Opening(x) && x@ == match body {
            Some(b) => first_line(b@),
            None => Seq::<char>::empty(),
        }),
{
    match (title, body) {
        (Some(t), _) => Headline::Title(t.to_owned()),
        (None, Some(b)) => Headline::Opening(first_line_of(b)),
        (None, None) => Headline::Opening(String::new()),
    }
}

/// What the list shows of a headline: a title whole; an opening of more
/// than [`HEADLINE_CHARS`] characters cut there, with an ellipsis.
pub open spec fn shown_text(h: Headline) -> Seq<char> {
    match h {
        Headline::Title(t) => t@,
        Headline::Opening(o) => if o@.len() > HEADLINE_CHARS {
            o@.take(HEADLINE_CHARS as int).push('…')
        } else {
            o@
        },
    }
}

/// What the list shows of a headline. The cut is at a character, never
/// inside one.
pub fn shown(headline: &Headline) -> (r: String)
    ensures
        r@ == shown_text(*headline),
{
    match headline {
        Headline::Title(title) => title.clone(),
        Headline::Opening(opening) => cut(opening.as_str()),
    }
}

fn cut(opening: &str) -> (r: String)
    ensures
        r@ == (if opening@.len() > HEADLINE_CHARS {
            opening@.take(HEADLINE_CHARS as int).push('…')
        } else {
            opening@
        }),
{
    let v = text::chars_of(opening);
    if v.len() > HEADLINE_CHARS {
        let mut w = text::slice_chars(v.as_slice(), 0, HEADLINE_CHARS);
        w.push('…');
        assert(w@ =~= opening@.take(HEADLINE_CHARS as int).push('…'));
        text::string_of(w.as_slice())
    } else {
        text::string_of(v.as_slice())
    }
}

/// The text of a chain of failures: each message, then its cause's after a
/// colon, down to the root cause.
pub open spec fn chained(messages: Seq<Seq<char>>) -> Seq<char>
    decreases messages.len(),
{
    if messages.len() == 0 {
        Seq::empty()
    } else if messages.len() == 1 {
        messages[0]
    } else {
        chained(messages.drop_last()) + ": "@ + messages.last()
    }
}

/// The views of a run of strings.
pub open spec fn texts(v: Seq<String>) -> Seq<Seq<char>> {
    Seq::new(v.len(), |i: int| v[i]@)
}

/// Why something failed, read down to its cause: the messages of a failure
/// and of each cause under it, in order, joined by a colon.
pub fn why(messages: &Vec<String>) -> (r: String)
    ensures
        r@ == chained(texts(messages@)),
{
    let mut v: Vec<char> = Vec::new();
    let mut i: usize = 0;
    while i < messages.len()
        invariant
            i <= messages@.len(),
            v@ == chained(texts(messages@).take(i as int)),
        decreases messages@.len() - i,
    {
        let ghost before = texts(messages@).take(i as int);
        if i > 0 {
            text::append(&mut v, ": ");
        }
        text::append(&mut v, messages[i].as_str());
        i = i + 1;
        proof {
            let now = texts(messages@).take(i as int);
            assert(now.drop_last() =~= before);
            if i == 1 {
                assert(v@ =~= now[0]);
            }
        }
    }
    assert(texts(messages@).take(messages@.len() as int) =~= texts(messages@));
    text::string_of(v.as_slice())
}

/// A failure handed to the embedding side: one sentence with its causes
/// chained, since a screen shows only the reason.
#[derive(Debug, Clone, PartialEq, Eq)]
pub enum FfiError {
    Failed(String),
}

impl FfiError {
    /// The failure of a chain of causes, outermost first.
    pub fn from_causes(messages: &Vec<String>) -> (r: FfiError)
        ensures
            r matches FfiError::Failed(s) && s@ == chained(texts(messages@)),
    {
        FfiError::Failed(why(messages))
    }

    /// The sentence.
    pub fn message(&self) -> (r: &str)
        ensures
            self matches FfiError::Failed(s) && r@ == s@,
    {
        match self {
            FfiError::Failed(s) => s.as_str(),
        }
    }
}

/// One line of the list: the date, the headline, the state and the type.
///
/// State and type are spelt as the handover spells them, so that the screen
/// and the outside never read two different values.
#[derive(Debug, Clone, PartialEq, Eq)]
pub struct Listed {
    published_at: Timestamp,
    headline: Headline,
    state: String,
    content_type: String,
}

impl Listed {
    pub closed spec fn moment(self) -> Timestamp {
        self.published_at
    }

    pub closed spec fn headline_of(self) -> Headline {
        self.headline
    }

    pub closed spec fn state_text(self) -> Seq<char> {
        self.state@
    }

    pub closed spec fn type_text(self) -> Seq<char> {
        self.content_type@
    }

    /// The line of a handed-over item; the date comes from the instant
    /// itself, not from the handover's text.
    pub fn new(published_at: Timestamp, handed: &Handover) -> (r: Listed)
        ensures
            r.moment() == published_at,
            r.state_text() == handed.state@,
            r.type_text() == handed.content_type@,
            handed.title matches Some(t) ==> r.headline_of() matches Headline::Title(x) && x@ == t@,
            handed.title is None ==> (r.headline_of() matches Headline::Opening(x) && x@ == match handed.body {
                Some(b) => first_line(b@),
                None => Seq::<char>::empty(),
            }),
    {
        let title = match &handed.title {
            Some(t) => Some(t.as_str()),
            None => None,
        };
        let body = match &handed.body {
            Some(b) => Some(b.as_str()),
            None => None,
        };
        Listed {
            published_at,
            headline: headline(title, body),
            state: handed.state.clone(),
            content_type: handed.content_type.clone(),
        }
    }

    /// The date shown, read in the offset the source gave.
    pub fn published_on(&self) -> (r: String)
        ensures
            r@ == local_date_text(
                self.moment().instant() as i64,
                self.moment().offset_secs() as i32,
            ),
    {
        self.published_at.date_text()
    }

    pub fn headline(&self) -> (r: &Headline)
        ensures
            *r == self.headline_of(),
    {
        &self.headline
    }

    /// The state, as the state table spells it.
    pub fn state(&self) -> (r: &str)
        ensures
            r@ == self.state_text(),
    {
        self.state.as_str()
    }

    /// The type, as the type table spells it.
    pub fn content_type(&self) -> (r: &str)
        ensures
            r@ == self.type_text(),
    {
        self.content_type.as_str()
    }
}

/// The test that picks the lines published at one moment.
pub open spec fn at_moment(t: int) -> spec_fn(Listed) -> bool {
    |l: Listed| l.moment().order_key() == t
}

/// Newest first.
pub open spec fn newest_first_order(s: Seq<Listed>) -> bool {
    forall|i: int, j: int|
        0 <= i < j < s.len() ==> (#[trigger] s[j]).moment().order_key() <= (#[trigger] s[i]).moment().order_key()
}

/// The lines, newest first by the moment (not by the text, whose offsets
/// make the spelling order differ from the order in time). Lines of the
/// same moment keep the order they came in.
pub fn newest_first(v: Vec<Listed>) -> (r: Vec<Listed>)
    ensures
        newest_first_order(r@),
        forall|t: int| #[trigger] r@.filter(at_moment(t)) == v@.filter(at_moment(t)),
{
    broadcast use vstd::seq_lib::group_filter_ensures;
    broadcast use vstd::seq::group_seq_axioms;

    let mut rest = v;
    let ghost whole = rest@;
    let ghost mut moved: Seq<Listed> = Seq::empty();
    let mut out: Vec<Listed> = Vec::new();
    assert(moved + rest@ =~= whole);
    while rest.len() > 0
        invariant
            newest_first_order(out@),
            forall|t: int| #[trigger] out@.filter(at_moment(t)) == moved.filter(at_moment(t)),
            moved + rest@ == whole,
        decreases rest@.len(),
    {
        let ghost rest_before = rest@;
        let ghost out_before = out@;
        let x = rest.remove(0);
        assert(rest@ =~= rest_before.drop_first());
        let mut k: usize = 0;
        let mut going = true;
        while k < out.len() && going
            invariant
                k <= out@.len(),
                out@ == out_before,
                newest_first_order(out_before),
                forall|j: int| 0 <= j < k ==> x.moment().order_key() <= (#[trigger] out_before[j]).moment().order_key(),
                !going ==> k < out@.len() && out_before[k as int].moment().order_key() < x.moment().order_key(),
            decreases out@.len() - k + (if going { 1int } else { 0int }),
        {
            if out[k].published_at.is_before(&x.published_at) {
                going = false;
            } else {
                k = k + 1;
            }
        }
        let ghost xv = x;
        out.insert(k, x);
        proof {
            let s = out@;
            assert(s =~= out_before.insert(k as int, xv));
            assert forall|i: int, j: int| 0 <= i < j < s.len() implies (#[trigger] s[j]).moment().order_key()
                <= (#[trigger] s[i]).moment().order_key() by {
                if j < k {
                    assert(s[i] == out_before[i] && s[j] == out_before[j]);
                } else if j == k {
                    assert(s[i] == out_before[i]);
                } else if i < k {
                    assert(s[i] == out_before[i] && s[j] == out_before[j - 1]);
                    assert(out_before[k as int].moment().order_key() < xv.moment().order_key());
                    assert(out_before[j - 1].moment().order_key() <= out_before[k as int].moment().order_key());
                } else if i == k {
                    assert(s[j] == out_before[j - 1]);
                    assert(out_before[j - 1].moment().order_key() <= out_before[k as int].moment().order_key());
                } else {
                    assert(s[i] == out_before[i - 1] && s[j] == out_before[j - 1]);
                }
            }
            let front = out_before.take(k as int);
            let back = out_before.skip(k as int);
            assert(out_before =~= front + back);
            assert(s =~= front + seq![xv] + back);
            assert forall|t: int| #[trigger] s.filter(at_moment(t)) == moved.push(xv).filter(at_moment(t)) by {
                Seq::filter_distributes_over_add(front, back, at_moment(t));
                Seq::filter_distributes_over_add(front + seq![xv], back, at_moment(t));
                Seq::filter_distributes_over_add(front, seq![xv], at_moment(t));
                moved.lemma_filter_push(xv, at_moment(t));
                Seq::<Listed>::empty().lemma_filter_push(xv, at_moment(t));
                assert(seq![xv] =~= Seq::<Listed>::empty().push(xv));
                assert(Seq::<Listed>::empty().filter(at_moment(t)) =~= Seq::<Listed>::empty()) by {
                    reveal(Seq::filter);
                }
                if t == xv.moment().order_key() {
                    assert(back.all(|l: Listed| !at_moment(t)(l))) by {
                        assert forall|i: int| 0 <= i < back.len() implies !at_moment(t)(#[trigger] back[i]) by {
                            assert(back[i] == out_before[k + i]);
                            if i > 0 {
                                assert(out_before[k + i].moment().order_key() <= out_before[k as int].moment().order_key());
                            }
                        }
                    }
                    back.lemma_all_neg_filter_empty(at_moment(t));
                    assert(back.filter(at_moment(t)) =~= Seq::<Listed>::empty());
                }
            }
            moved = moved.push(xv);
            assert(moved + rest@ =~= whole);
        }
    }
    assert(moved + rest@ =~= moved);
    out
}

} // verus!
