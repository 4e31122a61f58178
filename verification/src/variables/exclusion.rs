use vstd::prelude::*;
use vstd::string::StringExecFns;
use crate::text::same_text;
use crate::variables::pattern::{found_in, parsed, Pattern, PatternModel};

verus! {

/// A predicate on keys: a key that it matches is left out of bulk resolution.
pub trait KeyExclusion {
    /// The keys that this predicate matches.
    spec fn excludes(&self, key: Seq<char>) -> bool;

    fn m_match(&self, key: &str) -> (r: bool)
        ensures
            r == self.excludes(key@),
    ;
}

/// Matches the keys that a pattern matches.
pub struct KeyExclusionRegex {
    m_pattern: Pattern,
}

/// Matches one key, character for character.
pub struct KeyExclusionString {
    m_key: String,
}

impl KeyExclusionRegex {
    pub fn new(pattern: &str) -> (e: KeyExclusionRegex)
        ensures
            e.pattern() == parsed(pattern@),
    {
        KeyExclusionRegex { m_pattern: Pattern::parse(pattern) }
    }

    pub closed spec fn pattern(&self) -> PatternModel {
        self.m_pattern@
    }
}

impl KeyExclusionString {
    pub fn new(key: &str) -> (e: KeyExclusionString)
        ensures
            e.key() == key@,
    {
        KeyExclusionString { m_key: String::from_str(key) }
    }

    pub closed spec fn key(&self) -> Seq<char> {
        self.m_key@
    }
}

impl KeyExclusion for KeyExclusionRegex {
    open spec fn excludes(&self, key: Seq<char>) -> bool {
        found_in(self.pattern(), key)
    }

    fn m_match(&self, key: &str) -> (r: bool) {
        self.m_pattern.is_match(key)
    }
}

impl KeyExclusion for KeyExclusionString {
    open spec fn excludes(&self, key: Seq<char>) -> bool {
        key == self.key()
    }

    fn m_match(&self, key: &str) -> (r: bool) {
        same_text(key, self.m_key.as_str())
    }
}

/// One predicate of either kind.
pub enum Exclusion {
    Exact(KeyExclusionString),
    Pattern(KeyExclusionRegex),
}

impl Exclusion {
    pub open spec fn excludes(&self, key: Seq<char>) -> bool {
        match self {
            Exclusion::Exact(e) => e.excludes(key),
            Exclusion::Pattern(e) => e.excludes(key),
        }
    }

    pub fn m_match(&self, key: &str) -> (r: bool)
        ensures
            r == self.excludes(key@),
    {
        match self {
            Exclusion::Exact(e) => e.m_match(key),
            Exclusion::Pattern(e) => e.m_match(key),
        }
    }
}

/// Whether at least one of the predicates matches `key`.
pub open spec fn omitted(exclusions: Seq<Exclusion>, key: Seq<char>) -> bool {
    exists|i: int| 0 <= i < exclusions.len() && (#[trigger] exclusions[i]).excludes(key)
}

/// The empty list of predicates leaves no key out.
pub proof fn empty_never_omits(key: Seq<char>)
    ensures
        !omitted(Seq::empty(), key),
{
}

/// A key is left out by a list with one more predicate exactly when the list
/// left it out already or the new predicate matches it.
pub proof fn omitted_with_one_more(exclusions: Seq<Exclusion>, exclusion: Exclusion, key: Seq<char>)
    ensures
        omitted(exclusions.push(exclusion), key) == (omitted(exclusions, key) || exclusion.excludes(
            key,
        )),
{
    let more = exclusions.push(exclusion);
    if omitted(exclusions, key) {
        let i = choose|i: int|
            0 <= i < exclusions.len() && (#[trigger] exclusions[i]).excludes(key);
        assert(more[i].excludes(key));
    }
    if exclusion.excludes(key) {
        assert(more[exclusions.len() as int].excludes(key));
    }
    if omitted(more, key) {
        let i = choose|i: int| 0 <= i < more.len() && (#[trigger] more[i]).excludes(key);
        if i < exclusions.len() {
            assert(exclusions[i].excludes(key));
        }
    }
}

/// An ordered list of predicates; a key is left out when any of them matches.
pub struct KeyExclusions(Vec<Exclusion>);

impl View for KeyExclusions {
    type V = Seq<Exclusion>;

    closed spec fn view(&self) -> Seq<Exclusion> {
        self.0@
    }
}

impl KeyExclusions {
    /// The empty list, which leaves no key out.
    pub fn new() -> (ke: KeyExclusions)
        ensures
            ke@ == Seq::<Exclusion>::empty(),
    {
        KeyExclusions(Vec::new())
    }

    /// Adds a predicate behind those already there.
    pub fn push(&mut self, exclusion: Exclusion)
        ensures
            final(self)@ == old(self)@.push(exclusion),
    {
        self.0.push(exclusion);
    }

    /// Adds the predicate that matches exactly `key`.
    pub fn push_exact(&mut self, key: &str)
        ensures
            final(self)@.len() == old(self)@.len() + 1,
            final(self)@.drop_last() == old(self)@,
            final(self)@.last() matches Exclusion::Exact(e) && e.key() == key@,
    {
        self.0.push(Exclusion::Exact(KeyExclusionString::new(key)));
        assert(self.0@.drop_last() =~= old(self).0@);
    }

    /// Adds the predicate that matches the keys that `pattern` matches.
    pub fn push_pattern(&mut self, pattern: &str)
        ensures
            final(self)@.len() == old(self)@.len() + 1,
            final(self)@.drop_last() == old(self)@,
            final(self)@.last() matches Exclusion::Pattern(e) && e.pattern() == parsed(pattern@),
    {
        self.0.push(Exclusion::Pattern(KeyExclusionRegex::new(pattern)));
        assert(self.0@.drop_last() =~= old(self).0@);
    }

    /// Whether `key` is left out: whether any predicate matches it.
    pub fn to_omit(&self, key: &str) -> (r: bool)
        ensures
            r == omitted(self@, key@),
    {
        let mut i: usize = 0;
        while i < self.0.len()
            invariant
                i <= self.0@.len(),
                forall|j: int| 0 <= j < i ==> !(#[trigger] self.0@[j]).excludes(key@),
            decreases self.0.len() - i,
        {
            if self.0[i].m_match(key) {
                return true;
            }
            i = i + 1;
        }
        false
    }
}

} // verus!
