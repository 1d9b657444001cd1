//! Matching advisory URLs against known prefixes to name the issuing organisation.

use vstd::prelude::*;
use crate::text::{has_prefix, starts_with};

verus! {

/// One known URL prefix and the organisation it belongs to.
pub struct PrefixMapping {
    pub prefix: String,
    pub name: String,
}

/// An ordered list of prefix mappings; the first matching mapping wins.
pub struct PrefixMatcher {
    prefixes: Vec<PrefixMapping>,
}

/// The name of the first mapping, in order, whose prefix starts `input`.
pub open spec fn first_match(mappings: Seq<(Seq<char>, Seq<char>)>, input: Seq<char>) -> Option<Seq<char>>
    decreases mappings.len(),
{
    if mappings.len() == 0 {
        None
    } else if has_prefix(input, mappings[0].0) {
        Some(mappings[0].1)
    } else {
        first_match(mappings.drop_first(), input)
    }
}

impl View for PrefixMatcher {
    type V = Seq<(Seq<char>, Seq<char>)>;

    closed spec fn view(&self) -> Seq<(Seq<char>, Seq<char>)> {
        self.prefixes@.map_values(|m: PrefixMapping| (m.prefix@, m.name@))
    }
}

impl PrefixMatcher {
    /// What `detect` answers for `input`.
    pub open spec fn spec_detect(&self, input: Seq<char>) -> Option<Seq<char>> {
        first_match(self@, input)
    }

    /// An empty matcher: it detects nothing.
    pub fn new() -> (m: Self)
        ensures
            m@ == Seq::<(Seq<char>, Seq<char>)>::empty(),
    {
        let m = PrefixMatcher { prefixes: Vec::new() };
        assert(m@ =~= Seq::<(Seq<char>, Seq<char>)>::empty());
        m
    }

    /// Appends a mapping after all existing ones.
    pub fn add(&mut self, prefix: String, name: String)
        ensures
            final(self)@ == old(self)@.push((prefix@, name@)),
    {
        self.prefixes.push(PrefixMapping { prefix, name });
        assert(self@ =~= old(self)@.push((prefix@, name@)));
    }

    /// The name of the first mapping whose prefix starts `input`, if any.
    pub fn detect(&self, input: &str) -> (res: Option<String>)
        ensures
            res.deep_view() == self.spec_detect(input@),
    {
        let n = self.prefixes.len();
        let mut i: usize = 0;
        assert(self@.skip(0) =~= self@);
        while i < n
            invariant
                n == self.prefixes@.len(),
                n == self@.len(),
                i <= n,
                first_match(self@, input@) == first_match(self@.skip(i as int), input@),
            decreases n - i,
        {
            let mapping = &self.prefixes[i];
            assert(self@[i as int] == (mapping.prefix@, mapping.name@));
            assert(self@.skip(i as int)[0] == self@[i as int]);
            if starts_with(input, mapping.prefix.as_str()) {
                return Some(mapping.name.clone());
            }
            assert(self@.skip(i as int).drop_first() =~= self@.skip(i + 1));
            i = i + 1;
        }
        None
    }
}

/// Adding a mapping keeps every earlier answer, and otherwise answers with
/// the new mapping exactly when its prefix starts the input.
pub proof fn lemma_add_then_detect(
    mappings: Seq<(Seq<char>, Seq<char>)>,
    prefix: Seq<char>,
    name: Seq<char>,
    input: Seq<char>,
)
    ensures
        first_match(mappings.push((prefix, name)), input) == match first_match(mappings, input) {
            Some(found) => Some(found),
            None => if has_prefix(input, prefix) { Some(name) } else { None },
        },
    decreases mappings.len(),
{
    if mappings.len() > 0 {
        assert(mappings.push((prefix, name)).drop_first() =~= mappings.drop_first().push((prefix, name)));
        assert(mappings.push((prefix, name))[0] == mappings[0]);
        lemma_add_then_detect(mappings.drop_first(), prefix, name, input);
    } else {
        assert(mappings.push((prefix, name)).drop_first() =~= Seq::<(Seq<char>, Seq<char>)>::empty());
        assert(first_match(Seq::<(Seq<char>, Seq<char>)>::empty(), input) is None);
    }
}

/// A detected name always belongs to a mapping whose prefix starts the input,
/// and no earlier mapping's prefix does.
pub proof fn lemma_detect_is_first_match(mappings: Seq<(Seq<char>, Seq<char>)>, input: Seq<char>)
    ensures
        first_match(mappings, input) matches Some(found) ==> exists|i: int|
            0 <= i < mappings.len() && has_prefix(input, #[trigger] mappings[i].0) && mappings[i].1 == found
                && forall|j: int| 0 <= j < i ==> !has_prefix(input, #[trigger] mappings[j].0),
        first_match(mappings, input) is None ==> forall|j: int|
            0 <= j < mappings.len() ==> !has_prefix(input, #[trigger] mappings[j].0),
    decreases mappings.len(),
{
    if mappings.len() > 0 && !has_prefix(input, mappings[0].0) {
        let rest = mappings.drop_first();
        lemma_detect_is_first_match(rest, input);
        if let Some(found) = first_match(rest, input) {
            let k = choose|k: int|
                0 <= k < rest.len() && has_prefix(input, #[trigger] rest[k].0) && rest[k].1 == found
                    && forall|j: int| 0 <= j < k ==> !has_prefix(input, #[trigger] rest[j].0);
            assert(mappings[k + 1] == rest[k]);
            assert forall|j: int| 0 <= j < k + 1 implies !has_prefix(input, #[trigger] mappings[j].0) by {
                if j > 0 {
                    assert(mappings[j] == rest[j - 1]);
                }
            }
        } else {
            assert forall|j: int| 0 <= j < mappings.len() implies !has_prefix(input, #[trigger] mappings[j].0) by {
                if j > 0 {
                    assert(mappings[j] == rest[j - 1]);
                }
            }
        }
    }
}

} // verus!
