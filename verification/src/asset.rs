//! The files an item holds, named `<kind>.<ordinal>.<ext>` under the item's
//! own directory.

use vstd::prelude::*;

use crate::decimal::{self, decimal, is_positive_decimal, value};
use crate::item::ItemId;
use crate::paths::{self, joined};
use crate::order::{self, lex_le};
use crate::text;

verus! {

/// What a file is.
#[derive(Debug, Clone, Copy, PartialEq, Eq, Structural, Hash, PartialOrd, Ord)]
pub enum AssetKind {
    Video,
    Audio,
    Image,
    Transcript,
}

/// One file of an item.
#[derive(Debug, PartialEq, Eq, PartialOrd, Ord)]
pub struct Asset {
    pub(crate) kind: AssetKind,
    /// Counts from 1 within a kind; a stream cut off and resumed goes on counting.
    pub(crate) ordinal: u32,
    /// As the tool wrote it.
    pub(crate) extension: String,
}

impl AssetKind {
    pub open spec fn name(self) -> Seq<char> {
        match self {
            AssetKind::Video => "video"@,
            AssetKind::Audio => "audio"@,
            AssetKind::Image => "image"@,
            AssetKind::Transcript => "transcript"@,
        }
    }

    pub open spec fn named(s: Seq<char>) -> Option<AssetKind> {
        if s == "video"@ {
            Some(AssetKind::Video)
        } else if s == "audio"@ {
            Some(AssetKind::Audio)
        } else if s == "image"@ {
            Some(AssetKind::Image)
        } else if s == "transcript"@ {
            Some(AssetKind::Transcript)
        } else {
            None
        }
    }

    /// The word the kind is written as in a file name.
    pub fn as_str(self) -> (r: &'static str)
        ensures
            r@ == self.name(),
    {
        match self {
            AssetKind::Video => "video",
            AssetKind::Audio => "audio",
            AssetKind::Image => "image",
            AssetKind::Transcript => "transcript",
        }
    }

    /// The kind a word names.
    pub fn parse(s: &str) -> (r: Option<AssetKind>)
        ensures
            r == Self::named(s@),
    {
        let v = text::chars_of(s);
        Self::parse_chars(v.as_slice())
    }

    fn parse_chars(s: &[char]) -> (r: Option<AssetKind>)
        ensures
            r == Self::named(s@),
    {
        if text::spells(s, "video") {
            Some(AssetKind::Video)
        } else if text::spells(s, "audio") {
            Some(AssetKind::Audio)
        } else if text::spells(s, "image") {
            Some(AssetKind::Image)
        } else if text::spells(s, "transcript") {
            Some(AssetKind::Transcript)
        } else {
            None
        }
    }

    pub open spec fn of_lowered_extension(e: Seq<char>) -> Option<AssetKind> {
        if e == "mp4"@ || e == "webm"@ || e == "mkv"@ || e == "mov"@ || e == "m4v"@ {
            Some(AssetKind::Video)
        } else if e == "m4a"@ || e == "mp3"@ || e == "aac"@ || e == "ogg"@ || e == "opus"@ || e
            == "wav"@ {
            Some(AssetKind::Audio)
        } else if e == "jpg"@ || e == "jpeg"@ || e == "png"@ || e == "webp"@ || e == "gif"@ || e
            == "avif"@ {
            Some(AssetKind::Image)
        } else if e == "vtt"@ {
            Some(AssetKind::Transcript)
        } else {
            None
        }
    }

    /// The kind an extension suggests, in any ASCII case.
    pub fn of_extension(extension: &str) -> (r: Option<AssetKind>)
        ensures
            r == Self::of_lowered_extension(text::ascii_lowered(extension@)),
    {
        let e = text::ascii_lowercase(text::chars_of(extension).as_slice());
        let e = e.as_slice();
        if text::spells(e, "mp4") || text::spells(e, "webm") || text::spells(e, "mkv")
            || text::spells(e, "mov") || text::spells(e, "m4v") {
            Some(AssetKind::Video)
        } else if text::spells(e, "m4a") || text::spells(e, "mp3") || text::spells(e, "aac")
            || text::spells(e, "ogg") || text::spells(e, "opus") || text::spells(e, "wav") {
            Some(AssetKind::Audio)
        } else if text::spells(e, "jpg") || text::spells(e, "jpeg") || text::spells(e, "png")
            || text::spells(e, "webp") || text::spells(e, "gif") || text::spells(e, "avif") {
            Some(AssetKind::Image)
        } else if text::spells(e, "vtt") {
            Some(AssetKind::Transcript)
        } else {
            None
        }
    }
}

/// The positions of the dots in a text, in order.
pub open spec fn dots(s: Seq<char>) -> Seq<int>
    decreases s.len(),
{
    if s.len() == 0 {
        Seq::empty()
    } else if s.last() == '.' {
        dots(s.drop_last()).push(s.len() - 1)
    } else {
        dots(s.drop_last())
    }
}

/// The three dot-separated pieces of a name with exactly two dots.
pub open spec fn three_pieces(s: Seq<char>) -> Option<(Seq<char>, Seq<char>, Seq<char>)> {
    let d = dots(s);
    if d.len() == 2 {
        Some((s.take(d[0]), s.subrange(d[0] + 1, d[1]), s.skip(d[1] + 1)))
    } else {
        None
    }
}

/// What a file name says: kind, ordinal and extension, when it follows the rule.
pub open spec fn reading_of_name(s: Seq<char>) -> Option<(AssetKind, nat, Seq<char>)> {
    match three_pieces(s) {
        Some((k, o, e)) => match AssetKind::named(k) {
            Some(kind) => if e.len() > 0 && is_positive_decimal(o) && value(o) <= u32::MAX {
                Some((kind, value(o), e))
            } else {
                None
            },
            None => None,
        },
        None => None,
    }
}

impl Clone for Asset {
    fn clone(&self) -> (r: Asset)
        ensures
            r == *self,
    {
        proof {
            use_type_invariant(self);
        }
        Asset { kind: self.kind, ordinal: self.ordinal, extension: self.extension.clone() }
    }
}

impl Asset {
    /// Ordinals count from 1.
    #[verifier::type_invariant]
    spec fn counted(self) -> bool {
        self.ordinal >= 1
    }

    pub closed spec fn kind_of(self) -> AssetKind {
        self.kind
    }

    pub closed spec fn ordinal_of(self) -> u32 {
        self.ordinal
    }

    pub closed spec fn extension_of(self) -> Seq<char> {
        self.extension@
    }

    /// What the file is.
    pub fn kind(&self) -> (r: AssetKind)
        ensures
            r == self.kind_of(),
    {
        self.kind
    }

    /// Its number within its kind, from 1.
    pub fn ordinal(&self) -> (r: u32)
        ensures
            r == self.ordinal_of(),
            r >= 1,
    {
        proof {
            use_type_invariant(self);
        }
        self.ordinal
    }

    /// The extension, as the tool wrote it.
    pub fn extension(&self) -> (r: &str)
        ensures
            r@ == self.extension_of(),
    {
        self.extension.as_str()
    }

    /// The file name: `<kind>.<ordinal>.<ext>`.
    pub open spec fn name(self) -> Seq<char> {
        self.kind_of().name() + "."@ + decimal(self.ordinal_of() as nat) + "."@ + self.extension_of()
    }

    pub fn new(kind: AssetKind, ordinal: u32, extension: String) -> (r: Asset)
        requires
            ordinal >= 1,
        ensures
            r.kind_of() == kind && r.ordinal_of() == ordinal && r.extension_of() == extension@,
    {
        Asset { kind, ordinal, extension }
    }

    /// The file name: `<kind>.<ordinal>.<ext>`. With an extension that is
    /// not empty and holds no dot, the name reads back as this asset.
    pub fn file_name(&self) -> (r: String)
        ensures
            r@ == self.name(),
            self.extension_of().len() > 0 && (forall|i: int|
                0 <= i < self.extension_of().len() ==> self.extension_of()[i] != '.')
                ==> reading_of_name(r@) == Some(
                (self.kind_of(), self.ordinal_of() as nat, self.extension_of()),
            ),
    {
        proof {
            use_type_invariant(self);
            if self.extension_of().len() > 0 && (forall|i: int|
                0 <= i < self.extension_of().len() ==> self.extension_of()[i] != '.') {
                lemma_file_name_round_trip(*self);
            }
        }
        let mut v: Vec<char> = Vec::new();
        text::append(&mut v, self.kind.as_str());
        text::append(&mut v, ".");
        let n = decimal::decimal_of(self.ordinal as u64);
        text::append_chars(&mut v, n.as_slice());
        text::append(&mut v, ".");
        text::append(&mut v, self.extension.as_str());
        text::string_of(v.as_slice())
    }

    /// Where the file lives: in the item's directory under `media_dir`.
    pub fn path(&self, media_dir: &str, item: ItemId) -> (r: String)
        ensures
            r@ == joined(item_dir_of(media_dir@, item), self.name()),
    {
        let dir = item_dir(media_dir, item);
        paths::join(dir.as_str(), self.file_name().as_str())
    }

    /// Reads a file name that follows the rule; nothing for anything else —
    /// a file being written, a name with more or fewer pieces, an ordinal not
    /// written as `to_string` writes it.
    pub fn parse_file_name(file_name: &str) -> (r: Option<Asset>)
        ensures
            match r {
                Some(a) => reading_of_name(file_name@) == Some(
                    (a.kind_of(), a.ordinal_of() as nat, a.extension_of()),
                ),
                None => reading_of_name(file_name@) is None,
            },
            r matches Some(a) ==> a.name() == file_name@,
    {
        proof {
            if reading_of_name(file_name@) is Some {
                lemma_read_name_is_written(file_name@);
            }
        }
        let s = text::chars_of(file_name);
        let s = s.as_slice();
        let mut found: Vec<usize> = Vec::new();
        let mut i: usize = 0;
        while i < s.len()
            invariant
                i <= s.len(),
                s@ == file_name@,
                found@.map_values(|p: usize| p as int) == dots(s@.take(i as int)),
                forall|j: int| 0 <= j < found.len() ==> found@[j] < i,
            decreases s.len() - i,
        {
            assert(s@.take(i + 1).drop_last() =~= s@.take(i as int));
            if s[i] == '.' {
                if found.len() == 2 {
                    // a third dot: more than three pieces
                    proof {
                        lemma_dots_grow(s@, (i + 1) as int);
                        assert(dots(s@.take(i as int)).len() == 2);
                        assert(dots(s@.take(i + 1)).len() == 3);
                        lemma_dots_prefix(s@, (i + 1) as int);
                        assert(dots(s@).len() >= 3);
                        assert(three_pieces(s@) is None);
                        assert(s@ == file_name@);
                    }
                    return None;
                }
                found.push(i);
            }
            i = i + 1;
            assert(found@.map_values(|p: usize| p as int) =~= dots(s@.take(i as int)));
        }
        assert(s@.take(s.len() as int) =~= s@);
        if found.len() != 2 {
            return None;
        }
        let first = found[0];
        let second = found[1];
        proof {
            lemma_dots_ordered(s@);
        }
        let kind_text = text::slice_chars(s, 0, first);
        let ordinal_text = text::slice_chars(s, first + 1, second);
        let extension = text::slice_chars(s, second + 1, s.len());
        assert(kind_text@ =~= s@.take(first as int));
        assert(extension@ =~= s@.skip(second + 1));
        let kind = match AssetKind::parse_chars(kind_text.as_slice()) {
            Some(k) => k,
            None => return None,
        };
        if extension.len() == 0 {
            return None;
        }
        let ordinal = match decimal::positive_u32(ordinal_text.as_slice()) {
            Some(n) => n,
            None => return None,
        };
        Some(Asset { kind, ordinal, extension: text::string_of(extension.as_slice()) })
    }
}

/// The directory of an item: its identifier under `media_dir`.
pub open spec fn item_dir_of(media_dir: Seq<char>, item: ItemId) -> Seq<char> {
    joined(media_dir, decimal::signed_decimal(item.value() as int))
}

/// The directory of an item: its identifier under `media_dir`.
pub fn item_dir(media_dir: &str, item: ItemId) -> (r: String)
    ensures
        r@ == item_dir_of(media_dir@, item),
{
    let id = decimal::signed_decimal_of(item.get());
    let base = text::chars_of(media_dir);
    text::string_of(paths::join_chars(base.as_slice(), id.as_slice()).as_slice())
}

/// Positions found are increasing, and each is a dot.
proof fn lemma_dots_ordered(s: Seq<char>)
    ensures
        forall|j: int| 0 <= j < dots(s).len() ==> 0 <= #[trigger] dots(s)[j] < s.len() && s[dots(s)[j]] == '.',
        forall|j: int, k: int| 0 <= j < k < dots(s).len() ==> dots(s)[j] < dots(s)[k],
        forall|p: int| 0 <= p < s.len() && s[p] == '.' ==> dots(s).contains(p),
    decreases s.len(),
{
    if s.len() > 0 {
        let t = s.drop_last();
        lemma_dots_ordered(t);
        assert forall|p: int| 0 <= p < s.len() && s[p] == '.' implies dots(s).contains(p) by {
            if p < s.len() - 1 {
                assert(t[p] == s[p]);
                let j = choose|j: int| 0 <= j < dots(t).len() && dots(t)[j] == p;
                if s.last() == '.' {
                    assert(dots(s)[j] == p);
                } else {
                    assert(dots(s)[j] == p);
                }
            } else {
                assert(dots(s).last() == p);
            }
        }
    }
}

/// The dots of a prefix are the first dots of the whole.
proof fn lemma_dots_prefix(s: Seq<char>, n: int)
    requires
        0 <= n <= s.len(),
    ensures
        dots(s.take(n)).len() <= dots(s).len(),
    decreases s.len() - n,
{
    if n < s.len() {
        lemma_dots_prefix(s, n + 1);
        assert(s.take(n + 1).drop_last() =~= s.take(n));
    } else {
        assert(s.take(n) =~= s);
    }
}

proof fn lemma_dots_grow(s: Seq<char>, n: int)
    requires
        0 < n <= s.len(),
    ensures
        s[n - 1] == '.' ==> dots(s.take(n)).len() == dots(s.take(n - 1)).len() + 1,
{
    assert(s.take(n).drop_last() =~= s.take(n - 1));
}

/// The dots of a concatenation are those of each part, the second shifted.
proof fn lemma_dots_concat(x: Seq<char>, y: Seq<char>)
    ensures
        dots(x + y) == dots(x) + dots(y).map_values(|p: int| p + x.len()),
    decreases y.len(),
{
    if y.len() == 0 {
        assert(x + y =~= x);
        assert(dots(y).map_values(|p: int| p + x.len()) =~= Seq::<int>::empty());
        assert(dots(x) + Seq::<int>::empty() =~= dots(x));
    } else {
        lemma_dots_concat(x, y.drop_last());
        assert((x + y).drop_last() =~= x + y.drop_last());
        assert((x + y).last() == y.last());
        if y.last() == '.' {
            assert(dots(y).map_values(|p: int| p + x.len()) =~= dots(y.drop_last()).map_values(
                |p: int| p + x.len(),
            ).push(y.len() - 1 + x.len()));
        } else {
            assert(dots(y).map_values(|p: int| p + x.len()) =~= dots(y.drop_last()).map_values(
                |p: int| p + x.len(),
            ));
        }
    }
}

/// Each kind's word names that kind and no other.
pub proof fn lemma_kind_named(kind: AssetKind)
    ensures
        AssetKind::named(kind.name()) == Some(kind),
{
    reveal_strlit("video");
    reveal_strlit("audio");
    reveal_strlit("image");
    reveal_strlit("transcript");
    assert("video"@[0] != "audio"@[0]);
    assert("video"@[0] != "image"@[0]);
    assert("audio"@[0] != "image"@[0]);
    assert("transcript"@.len() != "video"@.len());
}

/// A text with no dot has no dot positions.
proof fn lemma_no_dots(s: Seq<char>)
    requires
        forall|i: int| 0 <= i < s.len() ==> s[i] != '.',
    ensures
        dots(s) == Seq::<int>::empty(),
    decreases s.len(),
{
    if s.len() > 0 {
        lemma_no_dots(s.drop_last());
    }
}

/// A name that reads as an asset is written exactly as that asset's name:
/// no other spelling (a zero-padded ordinal, another case of the kind) reads.
pub proof fn lemma_read_name_is_written(s: Seq<char>)
    requires
        reading_of_name(s) is Some,
    ensures
        reading_of_name(s) matches Some((kind, n, e)) && kind.name() + "."@ + decimal(n) + "."@ + e
            == s,
{
    let d = dots(s);
    lemma_dots_ordered(s);
    let k = s.take(d[0]);
    let o = s.subrange(d[0] + 1, d[1]);
    let e = s.skip(d[1] + 1);
    let kind = AssetKind::named(k)->0;
    assert(kind.name() == k);
    decimal::lemma_value_decimal(o);
    reveal_strlit(".");
    assert(s[d[0]] == '.');
    assert(s[d[1]] == '.');
    assert(k + "."@ + decimal(value(o)) + "."@ + e =~= s);
}

/// Every asset whose extension is non-empty and holds no dot reads back from
/// its own file name as itself.
pub proof fn lemma_file_name_round_trip(a: Asset)
    requires
        a.ordinal_of() >= 1,
        a.extension_of().len() > 0,
        forall|i: int| 0 <= i < a.extension_of().len() ==> a.extension_of()[i] != '.',
    ensures
        reading_of_name(a.name()) == Some((a.kind_of(), a.ordinal_of() as nat, a.extension_of())),
{
    let k = a.kind.name();
    let o = decimal(a.ordinal as nat);
    let e = a.extension@;
    let dot = "."@;
    reveal_strlit(".");
    reveal_strlit("video");
    reveal_strlit("audio");
    reveal_strlit("image");
    reveal_strlit("transcript");
    decimal::lemma_decimal(a.ordinal as nat);
    decimal::lemma_value_decimal(o);
    assert forall|i: int| 0 <= i < k.len() implies k[i] != '.' by {}
    assert forall|i: int| 0 <= i < o.len() implies o[i] != '.' by {
        assert('0' <= o[i] && o[i] <= '9');
    }
    lemma_no_dots(k);
    lemma_no_dots(o);
    lemma_no_dots(e);
    assert(dots(dot) =~= seq![0int]) by {
        reveal_with_fuel(dots, 2);
        assert(dot.drop_last() =~= Seq::<char>::empty());
    }
    let s1 = k + dot;
    let s2 = s1 + o;
    let s3 = s2 + dot;
    let s4 = s3 + e;
    lemma_dots_concat(k, dot);
    lemma_dots_concat(s1, o);
    lemma_dots_concat(s2, dot);
    lemma_dots_concat(s3, e);
    assert(Seq::<int>::empty().map_values(|p: int| p + s1.len()) =~= Seq::<int>::empty());
    assert(Seq::<int>::empty().map_values(|p: int| p + s3.len()) =~= Seq::<int>::empty());
    assert(dots(s4) =~= seq![k.len() as int, s2.len() as int]);
    assert(a.name() =~= s4);
    assert(s4.take(k.len() as int) =~= k);
    assert(s4.subrange((k.len() + 1) as int, s2.len() as int) =~= o);
    assert(s4.skip((s2.len() + 1) as int) =~= e);
    assert(three_pieces(s4) == Some((k, o, e)));
    lemma_kind_named(a.kind);
    assert(is_positive_decimal(o));
    assert(value(o) == a.ordinal);
}

impl AssetKind {
    /// The kind's place in the order files are listed in.
    pub open spec fn rank(self) -> int {
        match self {
            AssetKind::Video => 0,
            AssetKind::Audio => 1,
            AssetKind::Image => 2,
            AssetKind::Transcript => 3,
        }
    }

    fn rank_of(self) -> (r: u8)
        ensures
            r == self.rank(),
    {
        match self {
            AssetKind::Video => 0,
            AssetKind::Audio => 1,
            AssetKind::Image => 2,
            AssetKind::Transcript => 3,
        }
    }
}

/// An asset as plain values: kind, ordinal, extension.
pub open spec fn asset_view(a: Asset) -> (AssetKind, u32, Seq<char>) {
    (a.kind_of(), a.ordinal_of(), a.extension_of())
}

/// The order files are listed in: by kind, then ordinal, then extension.
pub open spec fn asset_le(a: (AssetKind, u32, Seq<char>), b: (AssetKind, u32, Seq<char>)) -> bool {
    a.0.rank() < b.0.rank() || (a.0.rank() == b.0.rank() && (a.1 < b.1 || (a.1 == b.1 && lex_le(
        a.2,
        b.2,
    ))))
}

proof fn lemma_asset_total(a: (AssetKind, u32, Seq<char>), b: (AssetKind, u32, Seq<char>))
    ensures
        asset_le(a, b) || asset_le(b, a),
{
    order::lemma_lex_total(a.2, b.2);
}

proof fn lemma_asset_transitive(
    a: (AssetKind, u32, Seq<char>),
    b: (AssetKind, u32, Seq<char>),
    c: (AssetKind, u32, Seq<char>),
)
    requires
        asset_le(a, b),
        asset_le(b, c),
    ensures
        asset_le(a, c),
{
    if a.0.rank() == b.0.rank() && b.0.rank() == c.0.rank() && a.1 == b.1 && b.1 == c.1 {
        order::lemma_lex_transitive(a.2, b.2, c.2);
    }
}

/// Whether a run of assets is in listing order.
pub open spec fn assets_sorted(s: Seq<(AssetKind, u32, Seq<char>)>) -> bool {
    forall|i: int, j: int| 0 <= i < j < s.len() ==> asset_le(#[trigger] s[i], #[trigger] s[j])
}

/// The plain values of a run of assets.
pub open spec fn asset_views(v: Seq<Asset>) -> Seq<(AssetKind, u32, Seq<char>)> {
    Seq::new(v.len(), |i: int| asset_view(v[i]))
}

fn asset_le_exec(a: &Asset, b: &Asset) -> (r: bool)
    ensures
        r == asset_le(asset_view(*a), asset_view(*b)),
{
    let ra = a.kind.rank_of();
    let rb = b.kind.rank_of();
    if ra != rb {
        return ra < rb;
    }
    if a.ordinal != b.ordinal {
        return a.ordinal < b.ordinal;
    }
    let x = text::chars_of(a.extension.as_str());
    let y = text::chars_of(b.extension.as_str());
    order::lex_le_chars(x.as_slice(), y.as_slice())
}

/// The assets in listing order; the same assets, each as often as before.
pub fn sort_assets(v: Vec<Asset>) -> (r: Vec<Asset>)
    ensures
        assets_sorted(asset_views(r@)),
        asset_views(r@).to_multiset() == asset_views(v@).to_multiset(),
{
    broadcast use vstd::seq_lib::group_to_multiset_ensures;

    let mut rest = v;
    let ghost whole = asset_views(rest@);
    let ghost mut moved: Seq<(AssetKind, u32, Seq<char>)> = Seq::empty();
    let mut out: Vec<Asset> = Vec::new();
    assert(asset_views(out@) =~= Seq::<(AssetKind, u32, Seq<char>)>::empty());
    assert(moved + asset_views(rest@) =~= whole);
    while rest.len() > 0
        invariant
            assets_sorted(asset_views(out@)),
            asset_views(out@).to_multiset() == moved.to_multiset(),
            moved + asset_views(rest@) == whole,
        decreases rest@.len(),
    {
        let ghost rest_before = asset_views(rest@);
        let ghost out_before = asset_views(out@);
        let x = rest.remove(0);
        let ghost xv = asset_view(x);
        assert(asset_views(rest@) =~= rest_before.drop_first());
        assert(rest_before[0] == xv);
        let mut k: usize = 0;
        let mut going = true;
        while k < out.len() && going
            invariant
                k <= out@.len(),
                asset_views(out@) == out_before,
                assets_sorted(out_before),
                asset_view(x) == xv,
                forall|j: int| 0 <= j < k ==> asset_le(#[trigger] out_before[j], xv),
                !going ==> k < out@.len() && !asset_le(out_before[k as int], xv),
            decreases out@.len() - k + (if going { 1int } else { 0int }),
        {
            assert(asset_view(out@[k as int]) == out_before[k as int]);
            if asset_le_exec(&out[k], &x) {
                k = k + 1;
            } else {
                going = false;
            }
        }
        proof {
            if k < out@.len() {
                lemma_asset_total(out_before[k as int], xv);
            }
        }
        out.insert(k, x);
        assert(asset_views(out@) =~= out_before.insert(k as int, xv));
        proof {
            let s = asset_views(out@);
            assert forall|i: int, j: int| 0 <= i < j < s.len() implies asset_le(
                #[trigger] s[i],
                #[trigger] s[j],
            ) by {
                if j < k {
                    assert(s[i] == out_before[i] && s[j] == out_before[j]);
                } else if j == k {
                    assert(s[i] == out_before[i]);
                } else if i == k {
                    assert(s[j] == out_before[j - 1]);
                    if j - 1 > k {
                        assert(asset_le(out_before[k as int], out_before[j - 1]));
                        lemma_asset_transitive(xv, out_before[k as int], out_before[j - 1]);
                    }
                } else if i < k {
                    assert(s[i] == out_before[i] && s[j] == out_before[j - 1]);
                    if j - 1 > k {
                        assert(asset_le(out_before[k as int], out_before[j - 1]));
                        lemma_asset_transitive(xv, out_before[k as int], out_before[j - 1]);
                    }
                    lemma_asset_transitive(out_before[i], xv, out_before[j - 1]);
                } else {
                    assert(s[i] == out_before[i - 1] && s[j] == out_before[j - 1]);
                }
            }
            vstd::seq_lib::to_multiset_insert(out_before, k as int, xv);
            let old_moved = moved;
            vstd::seq_lib::to_multiset_build(old_moved, xv);
            moved = moved.push(xv);
            assert(asset_views(out@).to_multiset() == moved.to_multiset());
            assert(moved + asset_views(rest@) =~= whole);
        }
    }
    assert(asset_views(rest@) =~= Seq::<(AssetKind, u32, Seq<char>)>::empty());
    assert(moved =~= whole);
    out
}

/// The assets a run of file names reads as, in the names' order; names that
/// do not follow the rule are passed over.
pub open spec fn readings(names: Seq<Seq<char>>) -> Seq<(AssetKind, u32, Seq<char>)>
    decreases names.len(),
{
    if names.len() == 0 {
        Seq::empty()
    } else {
        match reading_of_name(names.last()) {
            Some((k, o, e)) => readings(names.drop_last()).push((k, o as u32, e)),
            None => readings(names.drop_last()),
        }
    }
}

/// The assets among a directory's file names, in listing order: what a
/// look into an item's directory finds.
pub fn assets_named(names: &Vec<String>) -> (r: Vec<Asset>)
    ensures
        assets_sorted(asset_views(r@)),
        asset_views(r@).to_multiset() == readings(order::texts(names@)).to_multiset(),
{
    let mut found: Vec<Asset> = Vec::new();
    let mut i: usize = 0;
    while i < names.len()
        invariant
            i <= names@.len(),
            asset_views(found@) == readings(order::texts(names@).take(i as int)),
        decreases names@.len() - i,
    {
        let ghost before = found@;
        assert(order::texts(names@).take(i + 1).drop_last() =~= order::texts(names@).take(i as int));
        assert(order::texts(names@).take(i + 1).last() == names@[i as int]@);
        match Asset::parse_file_name(names[i].as_str()) {
            Some(a) => {
                found.push(a);
                assert(asset_views(found@) =~= asset_views(before).push(asset_view(a)));
            },
            None => {},
        }
        i = i + 1;
    }
    assert(order::texts(names@).take(names@.len() as int) =~= order::texts(names@));
    sort_assets(found)
}

} // verus!
