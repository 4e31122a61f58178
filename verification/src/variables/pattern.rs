use vstd::prelude::*;
use crate::text::chars_of;

verus! {

/// What one element of a pattern accepts.
#[derive(Clone, Copy, Debug)]
pub enum AtomKind {
    /// Any one character.
    Any,
    /// Exactly this character.
    Literal(char),
}

/// One element of a pattern: a character class, taken once or any number of times.
#[derive(Clone, Copy, Debug)]
pub struct Atom {
    pub kind: AtomKind,
    pub starred: bool,
}

/// A pattern as plain values.
pub struct PatternModel {
    pub anchored_start: bool,
    pub anchored_end: bool,
    pub atoms: Seq<Atom>,
}

/// A compiled key pattern.
///
/// The pattern language: `.` stands for any one character; `*` after an element
/// repeats it zero or more times; `\` takes the next character literally; `^` as
/// the first character ties the match to the start of the key and `$` as the last
/// one ties it to the end; every other character stands for itself. A `*` with no
/// element before it and a `\` with nothing after it stand for themselves.
/// Matching is case-sensitive, and a pattern without anchors matches when any
/// part of the key matches.
pub struct Pattern {
    anchored_start: bool,
    anchored_end: bool,
    atoms: Vec<Atom>,
}

pub open spec fn accepts(a: Atom, c: char) -> bool {
    match a.kind {
        AtomKind::Any => true,
        AtomKind::Literal(l) => l == c,
    }
}

/// Every character of `s[from..to]` is accepted by `a`.
pub open spec fn all_accepted(a: Atom, s: Seq<char>, from: int, to: int) -> bool {
    forall|i: int| from <= i < to ==> accepts(a, #[trigger] s[i])
}

/// The first `k` elements, in order, match `s[from..to]` exactly.
pub open spec fn atoms_match(atoms: Seq<Atom>, k: int, s: Seq<char>, from: int, to: int) -> bool
    decreases k,
{
    if k <= 0 {
        from == to
    } else if atoms[k - 1].starred {
        exists|mid: int|
            from <= mid <= to && #[trigger] all_accepted(atoms[k - 1], s, mid, to) && atoms_match(
                atoms,
                k - 1,
                s,
                from,
                mid,
            )
    } else {
        from < to && accepts(atoms[k - 1], s[to - 1]) && atoms_match(atoms, k - 1, s, from, to - 1)
    }
}

/// Where a match may start: anywhere, or only at the start of the key.
pub open spec fn start_allowed(p: PatternModel, from: int) -> bool {
    0 <= from && (p.anchored_start ==> from == 0)
}

/// Where a match may end: anywhere, or only at the end of the key.
pub open spec fn end_allowed(p: PatternModel, s: Seq<char>, to: int) -> bool {
    to <= s.len() && (p.anchored_end ==> to == s.len())
}

/// The first `k` elements match some part of `s` that starts where the
/// pattern allows and ends just before position `to`.
pub open spec fn reaches(p: PatternModel, k: int, s: Seq<char>, to: int) -> bool {
    exists|from: int|
        start_allowed(p, from) && from <= to && #[trigger] atoms_match(p.atoms, k, s, from, to)
}

/// The pattern matches the key `s`: all its elements match some part of the
/// key that starts and ends where the pattern allows.
pub open spec fn found_in(p: PatternModel, s: Seq<char>) -> bool {
    exists|to: int| end_allowed(p, s, to) && #[trigger] reaches(p, p.atoms.len() as int, s, to)
}

/// What is read from position `i` of a pattern's text on: the elements, and
/// whether the text ends in the end anchor.
pub struct Scanned {
    pub atoms: Seq<Atom>,
    pub anchored_end: bool,
}

/// The class that the element at position `i` stands for.
pub open spec fn kind_at(t: Seq<char>, i: int) -> AtomKind {
    if t[i] == '\\' && i + 1 < t.len() {
        AtomKind::Literal(t[i + 1])
    } else if t[i] == '.' {
        AtomKind::Any
    } else {
        AtomKind::Literal(t[i])
    }
}

/// How many characters the class at position `i` takes.
pub open spec fn width_at(t: Seq<char>, i: int) -> int {
    if t[i] == '\\' && i + 1 < t.len() {
        2
    } else {
        1
    }
}

/// Whether a `*` follows the class at position `i`.
pub open spec fn starred_at(t: Seq<char>, i: int) -> bool {
    i + width_at(t, i) < t.len() && t[i + width_at(t, i)] == '*'
}

pub open spec fn scan(t: Seq<char>, i: int) -> Scanned
    decreases t.len() - i,
{
    if i < 0 || i >= t.len() {
        Scanned { atoms: Seq::empty(), anchored_end: false }
    } else if t[i] == '$' && i == t.len() - 1 {
        Scanned { atoms: Seq::empty(), anchored_end: true }
    } else {
        let atom = Atom { kind: kind_at(t, i), starred: starred_at(t, i) };
        let next = i + width_at(t, i) + if starred_at(t, i) { 1int } else { 0int };
        let rest = scan(t, next);
        Scanned { atoms: seq![atom] + rest.atoms, anchored_end: rest.anchored_end }
    }
}

/// The pattern that the text `t` writes.
pub open spec fn parsed(t: Seq<char>) -> PatternModel {
    let anchored_start = t.len() > 0 && t[0] == '^';
    let body = scan(t, if anchored_start { 1int } else { 0int });
    PatternModel { anchored_start, anchored_end: body.anchored_end, atoms: body.atoms }
}

/// The pattern with no element and no anchor matches every key.
pub proof fn empty_pattern_matches_every_key(s: Seq<char>)
    ensures
        found_in(parsed(Seq::empty()), s),
{
    let p = parsed(Seq::empty());
    assert(p.atoms.len() == 0 && !p.anchored_start && !p.anchored_end);
    assert(start_allowed(p, 0) && atoms_match(p.atoms, 0, s, 0, 0));
    assert(end_allowed(p, s, 0) && reaches(p, 0, s, 0));
}

/// A pattern tied to both ends of the key matches the key as a whole or not at all.
pub proof fn anchored_pattern_takes_the_whole_key(p: PatternModel, s: Seq<char>)
    requires
        p.anchored_start,
        p.anchored_end,
    ensures
        found_in(p, s) == atoms_match(p.atoms, p.atoms.len() as int, s, 0, s.len() as int),
{
    let m = p.atoms.len() as int;
    if found_in(p, s) {
        let to = choose|to: int| end_allowed(p, s, to) && #[trigger] reaches(p, m, s, to);
        let from = choose|from: int|
            start_allowed(p, from) && from <= to && #[trigger] atoms_match(p.atoms, m, s, from, to);
        assert(from == 0 && to == s.len());
    }
    if atoms_match(p.atoms, m, s, 0, s.len() as int) {
        assert(start_allowed(p, 0));
        assert(reaches(p, m, s, s.len() as int));
        assert(end_allowed(p, s, s.len() as int));
    }
}

proof fn lemma_reaches_none(p: PatternModel, s: Seq<char>, to: int)
    requires
        0 <= to,
    ensures
        reaches(p, 0, s, to) == (!p.anchored_start || to == 0),
{
    if !p.anchored_start || to == 0 {
        assert(start_allowed(p, to) && atoms_match(p.atoms, 0, s, to, to));
    }
}

proof fn lemma_reaches_plain(p: PatternModel, k: int, s: Seq<char>, to: int)
    requires
        1 <= k <= p.atoms.len(),
        !p.atoms[k - 1].starred,
        0 <= to <= s.len(),
    ensures
        reaches(p, k, s, to) == (to > 0 && accepts(p.atoms[k - 1], s[to - 1]) && reaches(
            p,
            k - 1,
            s,
            to - 1,
        )),
{
    if reaches(p, k, s, to) {
        let from = choose|from: int|
            start_allowed(p, from) && from <= to && #[trigger] atoms_match(p.atoms, k, s, from, to);
        assert(atoms_match(p.atoms, k - 1, s, from, to - 1));
    }
    if to > 0 && accepts(p.atoms[k - 1], s[to - 1]) && reaches(p, k - 1, s, to - 1) {
        let from = choose|from: int|
            start_allowed(p, from) && from <= to - 1 && #[trigger] atoms_match(
                p.atoms,
                k - 1,
                s,
                from,
                to - 1,
            );
        assert(atoms_match(p.atoms, k, s, from, to));
    }
}

/// A starred element is reached either with no character taken for it, or
/// with one more accepted character behind a place where it was reached.
proof fn lemma_reaches_star(p: PatternModel, k: int, s: Seq<char>, to: int)
    requires
        1 <= k <= p.atoms.len(),
        p.atoms[k - 1].starred,
        0 <= to <= s.len(),
    ensures
        reaches(p, k, s, to) == (reaches(p, k - 1, s, to) || (to > 0 && accepts(
            p.atoms[k - 1],
            s[to - 1],
        ) && reaches(p, k, s, to - 1))),
{
    let a = p.atoms[k - 1];
    if reaches(p, k, s, to) {
        let from = choose|from: int|
            start_allowed(p, from) && from <= to && #[trigger] atoms_match(p.atoms, k, s, from, to);
        let mid = choose|mid: int|
            from <= mid <= to && #[trigger] all_accepted(a, s, mid, to) && atoms_match(
                p.atoms,
                k - 1,
                s,
                from,
                mid,
            );
        if mid == to {
            assert(atoms_match(p.atoms, k - 1, s, from, to));
        } else {
            assert(accepts(a, s[to - 1]));
            assert(all_accepted(a, s, mid, to - 1));
            assert(atoms_match(p.atoms, k, s, from, to - 1));
        }
    }
    if reaches(p, k - 1, s, to) {
        let from = choose|from: int|
            start_allowed(p, from) && from <= to && #[trigger] atoms_match(
                p.atoms,
                k - 1,
                s,
                from,
                to,
            );
        assert(all_accepted(a, s, to, to));
        assert(atoms_match(p.atoms, k, s, from, to));
    }
    if to > 0 && accepts(a, s[to - 1]) && reaches(p, k, s, to - 1) {
        let from = choose|from: int|
            start_allowed(p, from) && from <= to - 1 && #[trigger] atoms_match(
                p.atoms,
                k,
                s,
                from,
                to - 1,
            );
        let mid = choose|mid: int|
            from <= mid <= to - 1 && #[trigger] all_accepted(a, s, mid, to - 1) && atoms_match(
                p.atoms,
                k - 1,
                s,
                from,
                mid,
            );
        assert(all_accepted(a, s, mid, to));
        assert(atoms_match(p.atoms, k, s, from, to));
    }
}

impl View for Pattern {
    type V = PatternModel;

    closed spec fn view(&self) -> PatternModel {
        PatternModel {
            anchored_start: self.anchored_start,
            anchored_end: self.anchored_end,
            atoms: self.atoms@,
        }
    }
}

fn atom_accepts(a: Atom, c: char) -> (r: bool)
    ensures
        r == accepts(a, c),
{
    match a.kind {
        AtomKind::Any => true,
        AtomKind::Literal(l) => l == c,
    }
}

impl Pattern {
    /// Compiles the text of a pattern. Every text is a pattern.
    pub fn parse(text: &str) -> (p: Pattern)
        ensures
            p@ == parsed(text@),
    {
        let t = chars_of(text);
        let n = t.len();
        let anchored_start = n > 0 && t[0] == '^';
        let start: usize = if anchored_start { 1 } else { 0 };
        let mut atoms: Vec<Atom> = Vec::new();
        let mut anchored_end = false;
        let mut i: usize = start;
        while i < n
            invariant
                n == t@.len(),
                start <= i <= n,
                scan(t@, start as int).atoms == atoms@ + scan(t@, i as int).atoms,
                scan(t@, start as int).anchored_end == (anchored_end || scan(
                    t@,
                    i as int,
                ).anchored_end),
            decreases n - i,
        {
            if t[i] == '$' && i == n - 1 {
                anchored_end = true;
                i = n;
                continue;
            }
            let escaped = t[i] == '\\' && i + 1 < n;
            let kind = if escaped {
                AtomKind::Literal(t[i + 1])
            } else if t[i] == '.' {
                AtomKind::Any
            } else {
                AtomKind::Literal(t[i])
            };
            let width: usize = if escaped { 2 } else { 1 };
            let starred = i + width < n && t[i + width] == '*';
            let ghost before = atoms@;
            let ghost rest = scan(t@, i + width + if starred { 1int } else { 0int });
            atoms.push(Atom { kind, starred });
            assert(before + (seq![Atom { kind, starred }] + rest.atoms) =~= atoms@ + rest.atoms);
            i = i + width + if starred { 1 } else { 0 };
        }
        assert(atoms@ + Seq::<Atom>::empty() =~= atoms@);
        Pattern { anchored_start, anchored_end, atoms }
    }

    /// Moves the row of reached elements from position `to - 1` to position
    /// `to`; `row[k - 1]` says whether the first `k` elements are reached.
    fn advance(&self, s: &Vec<char>, to: usize, row: &mut Vec<bool>)
        requires
            to <= s@.len(),
            old(row)@.len() == self@.atoms.len(),
            to > 0 ==> forall|k: int|
                1 <= k <= self@.atoms.len() ==> old(row)@[k - 1] == #[trigger] reaches(
                    self@,
                    k,
                    s@,
                    to - 1,
                ),
        ensures
            final(row)@.len() == self@.atoms.len(),
            forall|k: int|
                1 <= k <= self@.atoms.len() ==> final(row)@[k - 1] == #[trigger] reaches(
                    self@,
                    k,
                    s@,
                    to as int,
                ),
    {
        let m = self.atoms.len();
        // What the element before the current one reached, before and after this step.
        let mut before: bool = to > 0 && (!self.anchored_start || to == 1);
        let mut now: bool = !self.anchored_start || to == 0;
        proof {
            lemma_reaches_none(self@, s@, to as int);
            if to > 0 {
                lemma_reaches_none(self@, s@, to - 1);
            }
        }
        let mut k: usize = 0;
        while k < m
            invariant
                m == self@.atoms.len(),
                row@.len() == m,
                k <= m,
                to <= s@.len(),
                now == reaches(self@, k as int, s@, to as int),
                to > 0 ==> before == reaches(self@, k as int, s@, to - 1),
                forall|j: int|
                    1 <= j <= k ==> row@[j - 1] == #[trigger] reaches(self@, j, s@, to as int),
                to > 0 ==> forall|j: int|
                    k < j <= m ==> row@[j - 1] == #[trigger] reaches(self@, j, s@, to - 1),
            decreases m - k,
        {
            let a = self.atoms[k];
            let was = row[k];
            let taken = to > 0 && atom_accepts(a, s[to - 1]);
            let next = if a.starred {
                now || (taken && was)
            } else {
                taken && before
            };
            proof {
                if a.starred {
                    lemma_reaches_star(self@, k + 1, s@, to as int);
                } else {
                    lemma_reaches_plain(self@, k + 1, s@, to as int);
                }
            }
            row[k] = next;
            before = was;
            now = next;
            k = k + 1;
        }
    }

    /// Whether the pattern matches the key given by its characters. The time
    /// taken grows with the length of the key times the length of the pattern.
    pub fn is_match_chars(&self, s: &Vec<char>) -> (r: bool)
        ensures
            r == found_in(self@, s@),
    {
        let m = self.atoms.len();
        let n = s.len();
        let mut row: Vec<bool> = Vec::new();
        while row.len() < m
            invariant
                row@.len() <= m,
            decreases m - row.len(),
        {
            row.push(false);
        }
        let mut to: usize = 0;
        loop
            invariant
                m == self@.atoms.len(),
                n == s@.len(),
                row@.len() == m,
                to <= n,
                to > 0 ==> forall|k: int|
                    1 <= k <= m ==> row@[k - 1] == #[trigger] reaches(self@, k, s@, to - 1),
                forall|t: int|
                    0 <= t < to ==> !(end_allowed(self@, s@, t) && #[trigger] reaches(
                        self@,
                        m as int,
                        s@,
                        t,
                    )),
            decreases n - to,
        {
            self.advance(s, to, &mut row);
            let all = if m == 0 {
                !self.anchored_start || to == 0
            } else {
                row[m - 1]
            };
            proof {
                lemma_reaches_none(self@, s@, to as int);
            }
            if all && (!self.anchored_end || to == n) {
                assert(end_allowed(self@, s@, to as int));
                assert(reaches(self@, m as int, s@, to as int));
                return true;
            }
            if to == n {
                proof {
                    if found_in(self@, s@) {
                        let t = choose|t: int|
                            end_allowed(self@, s@, t) && #[trigger] reaches(self@, m as int, s@, t);
                        let from = choose|from: int|
                            start_allowed(self@, from) && from <= t && #[trigger] atoms_match(
                                self@.atoms,
                                m as int,
                                s@,
                                from,
                                t,
                            );
                        assert(0 <= t <= to);
                    }
                }
                return false;
            }
            to = to + 1;
        }
    }

    /// Whether the pattern matches `key`.
    pub fn is_match(&self, key: &str) -> (r: bool)
        ensures
            r == found_in(self@, key@),
    {
        let s = chars_of(key);
        self.is_match_chars(&s)
    }
}

} // verus!
