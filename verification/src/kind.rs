//! Glyph styles: each kind is an immutable table of eight glyphs (four
//! straight, four corner) plus a display-width declaration, and a `KindSet`
//! is a non-empty collection of kinds without duplicates from which each
//! pipe picks its style.

use vstd::prelude::*;

use crate::rng::Rng;

verus! {

#[derive(Clone, Copy, PartialEq, Eq, Structural, Debug)]
pub enum Kind {
    Heavy,
    Light,
    Curved,
    Knobby,
    Emoji,
    Outline,
    Dots,
}

/// How many terminal columns a kind's glyphs occupy: measured from the
/// glyphs themselves, or a fixed override for glyphs whose measured width
/// undercounts what terminals render.
#[derive(Clone, Copy, PartialEq, Eq, Structural, Debug)]
pub enum KindWidth {
    Auto,
    Custom(u16),
}

impl Kind {
    /// The kind's glyph table, in the order: up, down, left, right,
    /// top-left, top-right, bottom-left, bottom-right.
    pub open spec fn chars_spec(self) -> Seq<char> {
        match self {
            Kind::Heavy => seq!['┃', '┃', '━', '━', '┏', '┓', '┗', '┛'],
            Kind::Light => seq!['│', '│', '─', '─', '┌', '┐', '└', '┘'],
            Kind::Curved => seq!['│', '│', '─', '─', '╭', '╮', '╰', '╯'],
            Kind::Knobby => seq!['╽', '╿', '╼', '╾', '┎', '┒', '┖', '┚'],
            Kind::Emoji => seq!['👆', '👇', '👈', '👉', '👌', '👌', '👌', '👌'],
            Kind::Outline => seq!['║', '║', '═', '═', '╔', '╗', '╚', '╝'],
            Kind::Dots => seq!['•', '•', '•', '•', '•', '•', '•', '•'],
        }
    }

    pub open spec fn width_spec(self) -> KindWidth {
        if self == Kind::Dots {
            KindWidth::Custom(2)
        } else {
            KindWidth::Auto
        }
    }

    /// The kind parsed from its lower-case name, if the name is known.
    pub open spec fn from_name_spec(s: Seq<char>) -> Option<Kind> {
        if s == "heavy"@ {
            Some(Kind::Heavy)
        } else if s == "light"@ {
            Some(Kind::Light)
        } else if s == "curved"@ {
            Some(Kind::Curved)
        } else if s == "knobby"@ {
            Some(Kind::Knobby)
        } else if s == "emoji"@ {
            Some(Kind::Emoji)
        } else if s == "outline"@ {
            Some(Kind::Outline)
        } else if s == "dots"@ {
            Some(Kind::Dots)
        } else {
            None
        }
    }

    pub fn chars(self) -> (v: Vec<char>)
        ensures
            v@ == self.chars_spec(),
    {
        match self {
            Kind::Heavy => glyph_row('┃', '┃', '━', '━', '┏', '┓', '┗', '┛'),
            Kind::Light => glyph_row('│', '│', '─', '─', '┌', '┐', '└', '┘'),
            Kind::Curved => glyph_row('│', '│', '─', '─', '╭', '╮', '╰', '╯'),
            Kind::Knobby => glyph_row('╽', '╿', '╼', '╾', '┎', '┒', '┖', '┚'),
            Kind::Emoji => glyph_row('👆', '👇', '👈', '👉', '👌', '👌', '👌', '👌'),
            Kind::Outline => glyph_row('║', '║', '═', '═', '╔', '╗', '╚', '╝'),
            Kind::Dots => glyph_row('•', '•', '•', '•', '•', '•', '•', '•'),
        }
    }

    pub fn up(self) -> (c: char)
        ensures
            c == self.chars_spec()[0],
    {
        let v = self.chars();
        v[0]
    }

    pub fn down(self) -> (c: char)
        ensures
            c == self.chars_spec()[1],
    {
        let v = self.chars();
        v[1]
    }

    pub fn left(self) -> (c: char)
        ensures
            c == self.chars_spec()[2],
    {
        let v = self.chars();
        v[2]
    }

    pub fn right(self) -> (c: char)
        ensures
            c == self.chars_spec()[3],
    {
        let v = self.chars();
        v[3]
    }

    pub fn top_left(self) -> (c: char)
        ensures
            c == self.chars_spec()[4],
    {
        let v = self.chars();
        v[4]
    }

    pub fn top_right(self) -> (c: char)
        ensures
            c == self.chars_spec()[5],
    {
        let v = self.chars();
        v[5]
    }

    pub fn bottom_left(self) -> (c: char)
        ensures
            c == self.chars_spec()[6],
    {
        let v = self.chars();
        v[6]
    }

    pub fn bottom_right(self) -> (c: char)
        ensures
            c == self.chars_spec()[7],
    {
        let v = self.chars();
        v[7]
    }

    pub fn width(self) -> (w: KindWidth)
        ensures
            w == self.width_spec(),
    {
        if self == Kind::Dots {
            KindWidth::Custom(2)
        } else {
            KindWidth::Auto
        }
    }

    /// Parses a kind from its lower-case name.
    pub fn from_name(s: &str) -> (r: Option<Kind>)
        ensures
            r == Kind::from_name_spec(s@),
    {
        if str_eq(s, "heavy") {
            Some(Kind::Heavy)
        } else if str_eq(s, "light") {
            Some(Kind::Light)
        } else if str_eq(s, "curved") {
            Some(Kind::Curved)
        } else if str_eq(s, "knobby") {
            Some(Kind::Knobby)
        } else if str_eq(s, "emoji") {
            Some(Kind::Emoji)
        } else if str_eq(s, "outline") {
            Some(Kind::Outline)
        } else if str_eq(s, "dots") {
            Some(Kind::Dots)
        } else {
            None
        }
    }
}

/// The glyph tables of a sequence of kinds, concatenated in order.
pub open spec fn kinds_chars_spec(s: Seq<Kind>) -> Seq<char>
    decreases s.len(),
{
    if s.len() == 0 {
        Seq::empty()
    } else {
        kinds_chars_spec(s.drop_last()) + s.last().chars_spec()
    }
}

/// The declared custom widths of a sequence of kinds, in order.
pub open spec fn custom_widths_spec(s: Seq<Kind>) -> Seq<u16>
    decreases s.len(),
{
    if s.len() == 0 {
        Seq::empty()
    } else {
        custom_widths_spec(s.drop_last()) + (match s.last().width_spec() {
            KindWidth::Custom(n) => seq![n],
            KindWidth::Auto => Seq::empty(),
        })
    }
}

/// The largest element of `s`, or `None` when `s` is empty.
pub open spec fn seq_max_u16_spec(s: Seq<u16>) -> Option<u16>
    decreases s.len(),
{
    if s.len() == 0 {
        None
    } else {
        match seq_max_u16_spec(s.drop_last()) {
            None => Some(s.last()),
            Some(v) => if s.last() > v {
                Some(s.last())
            } else {
                Some(v)
            },
        }
    }
}

/// `s` with every later repetition of an element removed, keeping the order
/// of first occurrences.
pub open spec fn dedup_spec(s: Seq<Kind>) -> Seq<Kind>
    decreases s.len(),
{
    if s.len() == 0 {
        Seq::empty()
    } else {
        let d = dedup_spec(s.drop_last());
        if d.contains(s.last()) {
            d
        } else {
            d.push(s.last())
        }
    }
}

/// Deduplication keeps exactly the members of the input, without repeats,
/// and never grows the sequence.
pub proof fn lemma_dedup_spec(s: Seq<Kind>)
    ensures
        dedup_spec(s).no_duplicates(),
        forall|k: Kind| dedup_spec(s).contains(k) <==> s.contains(k),
        dedup_spec(s).len() <= s.len(),
    decreases s.len(),
{
    if s.len() == 0 {
    } else {
        lemma_dedup_spec(s.drop_last());
        let d = dedup_spec(s.drop_last());
        assert forall|k: Kind| dedup_spec(s).contains(k) implies s.contains(k) by {
            if d.contains(k) {
                assert(s.drop_last().contains(k));
                let i = choose|i: int| 0 <= i < s.drop_last().len() && s.drop_last()[i] == k;
                assert(s[i] == k);
            } else {
                assert(dedup_spec(s) == d.push(s.last()));
                assert(k == s.last());
                assert(s[s.len() - 1] == k);
            }
        }
        assert forall|k: Kind| s.contains(k) implies dedup_spec(s).contains(k) by {
            let i = choose|i: int| 0 <= i < s.len() && s[i] == k;
            if i < s.len() - 1 {
                assert(s.drop_last()[i] == k);
                assert(s.drop_last().contains(k));
                if !d.contains(s.last()) {
                    assert(d.push(s.last())[choose|j: int|
                        0 <= j < d.len() && d[j] == k] == k);
                }
            } else {
                if d.contains(s.last()) {
                } else {
                    assert(d.push(s.last()).last() == k);
                }
            }
        }
    }
}

/// A non-empty, duplicate-free, ordered collection of glyph kinds.
#[derive(Clone, Debug)]
pub struct KindSet(Vec<Kind>);

impl KindSet {
    pub closed spec fn kinds_spec(self) -> Seq<Kind> {
        self.0@
    }

    /// Well-formedness: at least one kind, and no kind twice.
    pub open spec fn wf(self) -> bool {
        &&& self.kinds_spec().len() > 0
        &&& self.kinds_spec().no_duplicates()
    }

    /// The set holding exactly one kind.
    pub fn from_one(kind: Kind) -> (r: KindSet)
        ensures
            r.wf(),
            r.kinds_spec() == seq![kind],
    {
        let mut v: Vec<Kind> = Vec::new();
        v.push(kind);
        proof {
            assert(v@ =~= seq![kind]);
        }
        KindSet(v)
    }

    /// Builds a set from the given kinds, dropping every later repetition.
    pub fn new(kinds: Vec<Kind>) -> (r: KindSet)
        requires
            kinds@.len() > 0,
        ensures
            r.wf(),
            r.kinds_spec() == dedup_spec(kinds@),
    {
        let mut out: Vec<Kind> = Vec::new();
        let n = kinds.len();
        let mut i: usize = 0;
        while i < n
            invariant
                i <= n,
                n == kinds@.len(),
                out@ == dedup_spec(kinds@.subrange(0, i as int)),
            decreases n - i,
        {
            proof {
                assert(kinds@.subrange(0, i as int + 1).drop_last() =~= kinds@.subrange(
                    0,
                    i as int,
                ));
            }
            if !kinds_contains(&out, kinds[i]) {
                out.push(kinds[i]);
            }
            i = i + 1;
        }
        proof {
            assert(kinds@.subrange(0, n as int) =~= kinds@);
            lemma_dedup_spec(kinds@);
            assert(kinds@.contains(kinds@[0]));
        }
        KindSet(out)
    }

    /// An exact copy of the set.
    pub fn duplicate(&self) -> (r: KindSet)
        ensures
            r.kinds_spec() == self.kinds_spec(),
    {
        KindSet(self.iter())
    }

    /// The kinds of the set, in order.
    pub fn iter(&self) -> (r: Vec<Kind>)
        ensures
            r@ == self.kinds_spec(),
    {
        let n = self.0.len();
        let mut r: Vec<Kind> = Vec::new();
        let mut i: usize = 0;
        while i < n
            invariant
                i <= n,
                n == self.0@.len(),
                r@ == self.0@.subrange(0, i as int),
            decreases n - i,
        {
            r.push(self.0[i]);
            proof {
                assert(r@ =~= self.0@.subrange(0, i as int + 1));
            }
            i = i + 1;
        }
        proof {
            assert(r@ =~= self.0@);
        }
        r
    }

    /// All glyphs of all member kinds, concatenated in order.
    pub fn chars(&self) -> (r: Vec<char>)
        ensures
            r@ == kinds_chars_spec(self.kinds_spec()),
    {
        let n = self.0.len();
        let mut r: Vec<char> = Vec::new();
        let mut i: usize = 0;
        while i < n
            invariant
                i <= n,
                n == self.0@.len(),
                r@ == kinds_chars_spec(self.0@.subrange(0, i as int)),
            decreases n - i,
        {
            proof {
                assert(self.0@.subrange(0, i as int + 1).drop_last() =~= self.0@.subrange(
                    0,
                    i as int,
                ));
            }
            let mut cs = self.0[i].chars();
            r.append(&mut cs);
            i = i + 1;
        }
        proof {
            assert(self.0@.subrange(0, n as int) =~= self.0@);
        }
        r
    }

    /// The custom display widths declared by member kinds, in order.
    pub fn custom_widths(&self) -> (r: Vec<u16>)
        ensures
            r@ == custom_widths_spec(self.kinds_spec()),
    {
        let n = self.0.len();
        let mut r: Vec<u16> = Vec::new();
        let mut i: usize = 0;
        while i < n
            invariant
                i <= n,
                n == self.0@.len(),
                r@ == custom_widths_spec(self.0@.subrange(0, i as int)),
            decreases n - i,
        {
            proof {
                assert(self.0@.subrange(0, i as int + 1).drop_last() =~= self.0@.subrange(
                    0,
                    i as int,
                ));
            }
            match self.0[i].width() {
                KindWidth::Custom(w) => {
                    r.push(w);
                    proof {
                        assert(r@ =~= custom_widths_spec(self.0@.subrange(0, i as int)) + seq![w]);
                    }
                },
                KindWidth::Auto => {
                    proof {
                        assert(r@ =~= custom_widths_spec(self.0@.subrange(0, i as int))
                            + Seq::<u16>::empty());
                    }
                },
            }
            i = i + 1;
        }
        proof {
            assert(self.0@.subrange(0, n as int) =~= self.0@);
        }
        r
    }

    /// The largest custom display width any member kind declares, if any.
    pub fn max_custom_width(&self) -> (r: Option<u16>)
        ensures
            r == seq_max_u16_spec(custom_widths_spec(self.kinds_spec())),
    {
        let ws = self.custom_widths();
        let n = ws.len();
        let mut m: Option<u16> = None;
        let mut i: usize = 0;
        while i < n
            invariant
                i <= n,
                n == ws@.len(),
                m == seq_max_u16_spec(ws@.subrange(0, i as int)),
            decreases n - i,
        {
            proof {
                assert(ws@.subrange(0, i as int + 1).drop_last() =~= ws@.subrange(0, i as int));
            }
            m = match m {
                None => Some(ws[i]),
                Some(v) => if ws[i] > v {
                    Some(ws[i])
                } else {
                    Some(v)
                },
            };
            i = i + 1;
        }
        proof {
            assert(ws@.subrange(0, n as int) =~= ws@);
        }
        m
    }

    /// Uniform random choice of a member kind.
    pub fn choose_random(&self, rng: &mut Rng) -> (r: Kind)
        requires
            self.wf(),
        ensures
            self.kinds_spec().contains(r),
    {
        let n = self.0.len();
        proof {
            lemma_no_duplicate_kinds_len(self.0@);
        }
        let idx = rng.gen_range(0, n as u32) as usize;
        let r = self.0[idx];
        proof {
            assert(self.0@[idx as int] == r);
            assert(self.0@.contains(r));
        }
        r
    }
}

/// A sequence of kinds without repeats holds at most one of each of the
/// seven kinds.
pub proof fn lemma_no_duplicate_kinds_len(s: Seq<Kind>)
    requires
        s.no_duplicates(),
    ensures
        s.len() <= 7,
{
    broadcast use vstd::set::group_set_axioms;

    s.unique_seq_to_set();
    let all = set![
        Kind::Heavy,
        Kind::Light,
        Kind::Curved,
        Kind::Knobby,
        Kind::Emoji,
        Kind::Outline,
        Kind::Dots,
    ];
    assert forall|k: Kind| s.to_set().contains(k) implies all.contains(k) by {
        match k {
            Kind::Heavy => {},
            Kind::Light => {},
            Kind::Curved => {},
            Kind::Knobby => {},
            Kind::Emoji => {},
            Kind::Outline => {},
            Kind::Dots => {},
        }
    }
    assert(all.len() <= 7);
    vstd::set_lib::lemma_len_subset(s.to_set(), all);
}

/// Whether `v` already holds `k`.
fn kinds_contains(v: &Vec<Kind>, k: Kind) -> (r: bool)
    ensures
        r == v@.contains(k),
{
    let n = v.len();
    let mut i: usize = 0;
    while i < n
        invariant
            i <= n,
            n == v@.len(),
            forall|j: int| 0 <= j < i ==> v@[j] != k,
        decreases n - i,
    {
        if v[i] == k {
            proof {
                assert(v@.contains(k));
            }
            return true;
        }
        i = i + 1;
    }
    false
}

/// Builds one kind's glyph table as a vector.
fn glyph_row(c0: char, c1: char, c2: char, c3: char, c4: char, c5: char, c6: char, c7: char) -> (v:
    Vec<char>)
    ensures
        v@ == seq![c0, c1, c2, c3, c4, c5, c6, c7],
{
    let mut v: Vec<char> = Vec::new();
    v.push(c0);
    v.push(c1);
    v.push(c2);
    v.push(c3);
    v.push(c4);
    v.push(c5);
    v.push(c6);
    v.push(c7);
    proof {
        assert(v@ =~= seq![c0, c1, c2, c3, c4, c5, c6, c7]);
    }
    v
}

/// Whether two string slices hold the same characters.
fn str_eq(s: &str, t: &str) -> (r: bool)
    ensures
        r <==> s@ == t@,
{
    let n = s.unicode_len();
    if n != t.unicode_len() {
        return false;
    }
    let mut i: usize = 0;
    while i < n
        invariant
            i <= n,
            n == s@.len(),
            n == t@.len(),
            forall|j: int| 0 <= j < i ==> s@[j] == t@[j],
        decreases n - i,
    {
        if s.get_char(i) != t.get_char(i) {
            return false;
        }
        i = i + 1;
    }
    proof {
        assert(s@ =~= t@);
    }
    true
}

} // verus!
