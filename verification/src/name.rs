//! Plant names: ordered syllable lists, rendering, and the random
//! recombination of two parents' syllables into a child's name.

use vstd::prelude::*;
use crate::rng::RandomSource;

verus! {

/// What `str::to_lowercase` returns for a given character sequence.
pub uninterp spec fn lower_of(s: Seq<char>) -> Seq<char>;

/// What `char::to_uppercase` yields, collected, for a given character.
pub uninterp spec fn upper_of(c: char) -> Seq<char>;

/// Relies on str::to_lowercase: the result depends on the characters alone.
#[verifier::external_body]
fn lowercase(s: &str) -> (r: String)
    ensures
        r@ == lower_of(s@),
{
    s.to_lowercase()
}

/// Relies on char::to_uppercase: the result depends on the character alone.
#[verifier::external_body]
fn uppercase_char(c: char) -> (r: String)
    ensures
        r@ == upper_of(c),
{
    c.to_uppercase().collect()
}

/// Appends a string to a vector, tracking the effect on the deep view.
fn push_string(out: &mut Vec<String>, s: String)
    ensures
        final(out).deep_view() == old(out).deep_view().push(s@),
        final(out)@.len() == old(out)@.len() + 1,
{
    let ghost prev = out.deep_view();
    let ghost prev_v = out@;
    out.push(s);
    proof {
        assert forall|j: int| 0 <= j < prev.len() implies #[trigger] out.deep_view()[j]
            == prev[j] by {
            assert(out@[j] == prev_v[j]);
        }
        assert(out.deep_view() =~= prev.push(s@));
    }
}

/// A plant's name: an ordered sequence of lowercase syllables, rendered by
/// concatenating them and capitalizing the first character.
pub struct PlantName {
    syllables: Vec<String>,
}

impl View for PlantName {
    type V = Seq<Seq<char>>;

    closed spec fn view(&self) -> Seq<Seq<char>> {
        self.syllables.deep_view()
    }
}

/// The concatenation of a name's syllables.
pub open spec fn concat_syllables(s: Seq<Seq<char>>) -> Seq<char>
    decreases s.len(),
{
    if s.len() <= 0 {
        Seq::empty()
    } else {
        s[0] + concat_syllables(s.drop_first())
    }
}

/// A character sequence with its first character capitalized.
pub open spec fn capitalized(s: Seq<char>) -> Seq<char> {
    if s.len() == 0 {
        s
    } else {
        upper_of(s[0]) + s.skip(1)
    }
}

proof fn lemma_concat_push(s: Seq<Seq<char>>, x: Seq<char>)
    ensures
        concat_syllables(s.push(x)) == concat_syllables(s) + x,
    decreases s.len(),
{
    if s.len() == 0 {
        assert(s.push(x).drop_first() =~= s);
        assert(concat_syllables(s.push(x)) =~= concat_syllables(s) + x);
    } else {
        assert(s.push(x).drop_first() =~= s.drop_first().push(x));
        lemma_concat_push(s.drop_first(), x);
        assert(concat_syllables(s.push(x)) =~= concat_syllables(s) + x);
    }
}

/// Capitalizes the first character of a string, leaving the rest unchanged.
pub fn uppercase_first_letter(s: &str) -> (r: String)
    ensures
        r@ == capitalized(s@),
{
    let n = s.unicode_len();
    if n == 0 {
        String::new()
    } else {
        let c = s.get_char(0);
        let mut out = uppercase_char(c);
        let rest = s.substring_char(1, n);
        proof {
            assert(rest@ =~= s@.skip(1));
        }
        out.append(rest);
        out
    }
}

impl PlantName {
    /// Builds a name from syllables that are already lowercase.
    pub fn new(syllables: Vec<String>) -> (r: PlantName)
        ensures
            r@ == syllables.deep_view(),
    {
        PlantName { syllables }
    }

    /// Builds a name from arbitrary syllables, lowercasing each one.
    pub fn from_syllables(syllables: &Vec<String>) -> (r: PlantName)
        ensures
            r@ == syllables.deep_view().map_values(|s: Seq<char>| lower_of(s)),
    {
        let mut lowered: Vec<String> = Vec::new();
        let mut idx: usize = 0;
        while idx < syllables.len()
            invariant
                idx <= syllables.len(),
                lowered.deep_view() =~= syllables.deep_view().take(idx as int).map_values(
                    |s: Seq<char>| lower_of(s),
                ),
            decreases syllables.len() - idx,
        {
            let s = lowercase(syllables[idx].as_str());
            proof {
                assert(syllables[idx as int]@ == syllables.deep_view()[idx as int]);
            }
            push_string(&mut lowered, s);
            proof {
                assert(lowered.deep_view() =~= syllables.deep_view().take(
                    idx as int + 1,
                ).map_values(|s: Seq<char>| lower_of(s)));
            }
            idx += 1;
        }
        proof {
            assert(syllables.deep_view().take(syllables.len() as int) =~= syllables.deep_view());
        }
        PlantName { syllables: lowered }
    }

    /// The number of syllables in the name.
    pub fn syllable_count(&self) -> (n: usize)
        ensures
            n == self@.len(),
    {
        self.syllables.len()
    }

    /// Renders the name: syllables concatenated, first character capitalized.
    pub fn render(&self) -> (r: String)
        ensures
            r@ == capitalized(concat_syllables(self@)),
    {
        let mut joined = String::new();
        let mut idx: usize = 0;
        while idx < self.syllables.len()
            invariant
                idx <= self.syllables.len(),
                joined@ == concat_syllables(self@.take(idx as int)),
            decreases self.syllables.len() - idx,
        {
            proof {
                assert(self.syllables[idx as int]@ == self@[idx as int]);
                assert(self@.take(idx as int).push(self@[idx as int]) =~= self@.take(
                    idx as int + 1,
                ));
                lemma_concat_push(self@.take(idx as int), self@[idx as int]);
            }
            joined.append(self.syllables[idx].as_str());
            idx += 1;
        }
        proof {
            assert(self@.take(self.syllables.len() as int) =~= self@);
        }
        uppercase_first_letter(joined.as_str())
    }
}

impl Clone for PlantName {
    /// Clones the name, preserving its syllables.
    fn clone(&self) -> (r: Self)
        ensures
            r@ == self@,
    {
        let mut copied: Vec<String> = Vec::new();
        let mut idx: usize = 0;
        while idx < self.syllables.len()
            invariant
                idx <= self.syllables.len(),
                copied.deep_view() =~= self@.take(idx as int),
            decreases self.syllables.len() - idx,
        {
            let s = self.syllables[idx].clone();
            proof {
                assert(s@ == self@[idx as int]);
            }
            push_string(&mut copied, s);
            proof {
                assert(copied.deep_view() =~= self@.take(idx as int + 1));
            }
            idx += 1;
        }
        proof {
            assert(self@.take(self.syllables.len() as int) =~= self@);
        }
        PlantName { syllables: copied }
    }
}

/// What holds of a child name produced by recombining two parents' names:
/// the child has `max(len1, len2)` syllables (but at least one from each
/// non-empty parent), the first picks come from each parent in turn, and
/// every further syllable comes from the two parents' combined syllables.
pub open spec fn combined_name_ok(out: Seq<Seq<char>>, n1: Seq<Seq<char>>, n2: Seq<Seq<char>>) -> bool {
    let picks_1: int = if n1.len() > 0 { 1 } else { 0 };
    let picks_2: int = if n2.len() > 0 { 1 } else { 0 };
    let target: int = if n1.len() >= n2.len() { n1.len() as int } else { n2.len() as int };
    &&& out.len() == (if picks_1 + picks_2 >= target { picks_1 + picks_2 } else { target })
    &&& (n1.len() > 0 ==> n1.contains(out[0]))
    &&& (n2.len() > 0 ==> n2.contains(out[picks_1]))
    &&& (forall|i: int| picks_1 + picks_2 <= i < out.len() ==> (n1 + n2).contains(#[trigger] out[i]))
}

/// Combines the provided names into a new name with syllables from both.
///
/// One syllable is picked from each non-empty parent, then further
/// syllables are picked from the union of both parents' syllables until the
/// child is as long as the longer parent. Both parents empty yield an empty
/// name.
pub fn combine_names(name_1: &PlantName, name_2: &PlantName, rng: &mut RandomSource) -> (r: PlantName)
    ensures
        combined_name_ok(r@, name_1@, name_2@),
        *final(rng) == *old(rng),
{
    let len_1 = name_1.syllables.len();
    let len_2 = name_2.syllables.len();
    let num_syllables: usize = if len_1 >= len_2 {
        len_1
    } else {
        len_2
    };

    let mut syllables: Vec<String> = Vec::new();

    if len_1 > 0 {
        let pick = rng.pick_index(len_1);
        let s = name_1.syllables[pick].clone();
        proof {
            assert(s@ == name_1@[pick as int]);
            assert(name_1@.contains(name_1@[pick as int]));
        }
        push_string(&mut syllables, s);
    }
    let ghost picks_1: int = syllables.deep_view().len() as int;

    if len_2 > 0 {
        let pick = rng.pick_index(len_2);
        let s = name_2.syllables[pick].clone();
        proof {
            assert(s@ == name_2@[pick as int]);
            assert(name_2@.contains(name_2@[pick as int]));
        }
        push_string(&mut syllables, s);
    }

    let mut all_syllables: Vec<String> = Vec::new();
    let mut idx: usize = 0;
    while idx < len_1
        invariant
            idx <= len_1,
            len_1 == name_1@.len(),
            all_syllables.deep_view() =~= name_1@.take(idx as int),
        decreases len_1 - idx,
    {
        let s = name_1.syllables[idx].clone();
        proof {
            assert(s@ == name_1@[idx as int]);
        }
        push_string(&mut all_syllables, s);
        proof {
            assert(all_syllables.deep_view() =~= name_1@.take(idx as int + 1));
        }
        idx += 1;
    }
    let mut idx2: usize = 0;
    proof {
        assert(name_1@.take(len_1 as int) =~= name_1@);
    }
    while idx2 < len_2
        invariant
            idx2 <= len_2,
            len_2 == name_2@.len(),
            all_syllables.deep_view() =~= name_1@ + name_2@.take(idx2 as int),
        decreases len_2 - idx2,
    {
        let s = name_2.syllables[idx2].clone();
        proof {
            assert(s@ == name_2@[idx2 as int]);
        }
        push_string(&mut all_syllables, s);
        proof {
            assert(all_syllables.deep_view() =~= name_1@ + name_2@.take(idx2 as int + 1));
        }
        idx2 += 1;
    }
    proof {
        assert(name_2@.take(len_2 as int) =~= name_2@);
        assert(all_syllables.deep_view() =~= name_1@ + name_2@);
    }

    let ghost initial: int = syllables.deep_view().len() as int;
    while syllables.len() < num_syllables
        invariant
            initial <= syllables.deep_view().len(),
            syllables.deep_view().len() <= (if initial >= num_syllables as int {
                initial
            } else {
                num_syllables as int
            }),
            syllables.deep_view().len() == syllables@.len(),
            all_syllables.deep_view() == name_1@ + name_2@,
            all_syllables@.len() == name_1@.len() + name_2@.len(),
            num_syllables as int <= all_syllables@.len(),
            len_1 == name_1@.len() && len_2 == name_2@.len(),
            picks_1 == (if name_1@.len() > 0 { 1int } else { 0int }),
            initial == picks_1 + (if name_2@.len() > 0 { 1int } else { 0int }),
            name_1@.len() > 0 ==> name_1@.contains(syllables.deep_view()[0]),
            name_2@.len() > 0 ==> name_2@.contains(syllables.deep_view()[picks_1]),
            forall|i: int|
                initial <= i < syllables.deep_view().len() ==> (name_1@ + name_2@).contains(
                    #[trigger] syllables.deep_view()[i],
                ),
            *rng == *old(rng),
        decreases num_syllables - syllables.len(),
    {
        let pick = rng.pick_index(all_syllables.len());
        let s = all_syllables[pick].clone();
        proof {
            assert(s@ == all_syllables.deep_view()[pick as int]);
            assert((name_1@ + name_2@).contains((name_1@ + name_2@)[pick as int]));
        }
        push_string(&mut syllables, s);
    }

    PlantName { syllables }
}

} // verus!
