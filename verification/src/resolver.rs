//! The candidate identifiers tried for one user input.
//!
//! The market names its products inconsistently, so what the user typed is
//! first normalized and then tried in eight forms, in a fixed order: as it
//! is, and with one of seven affixes. Every form is derived from the
//! normalized input, never from another form.

use crate::text::{replace_char, to_upper_case, trim_end};
use crate::text::{replaced, trimmed, upper_case};
use vstd::prelude::*;

verus! {

/// The number of forms tried for one input: the stages 0 to 7.
pub const STAGE_COUNT: u8 = 8;

/// Whether `c` separates words in what a user types.
pub open spec fn is_separator(c: char) -> bool {
    c == ' ' || c == '-'
}

/// `text` with every space and every hyphen turned into an underscore.
pub open spec fn underscored(text: Seq<char>) -> Seq<char> {
    text.map_values(
        |c: char|
            if is_separator(c) {
                '_'
            } else {
                c
            },
    )
}

/// The normalized form of an input: its trailing white space is cut off,
/// it is put in upper case, and its separators are turned into underscores.
pub open spec fn normalized(raw: Seq<char>) -> Seq<char> {
    underscored(upper_case(trimmed(raw)))
}

/// What a stage puts in front of the normalized input.
pub open spec fn stage_prefix(stage: nat) -> Seq<char> {
    if stage == 2 {
        "ENCHANTMENT_ULTIMATE_"@
    } else if stage == 3 {
        "ENCHANTMENT_"@
    } else if stage == 7 {
        "DUNGEON_"@
    } else {
        Seq::empty()
    }
}

/// What a stage puts behind the normalized input.
pub open spec fn stage_suffix(stage: nat) -> Seq<char> {
    if stage == 1 {
        "_ITEM"@
    } else if stage == 4 {
        "_SCROLL"@
    } else if stage == 5 {
        "_GEM"@
    } else if stage == 6 {
        "_ORE"@
    } else {
        Seq::empty()
    }
}

/// The identifier that a stage makes of the normalized input `base`.
pub open spec fn candidate_id(base: Seq<char>, stage: nat) -> Seq<char> {
    stage_prefix(stage) + base + stage_suffix(stage)
}

/// Replacing first the spaces and then the hyphens of a text by an
/// underscore turns each of its separators into an underscore.
proof fn lemma_replaced_twice(text: Seq<char>)
    ensures
        replaced(replaced(text, ' ', seq!['_']), '-', seq!['_']) == underscored(text),
    decreases text.len(),
{
    let spaces_done = replaced(text, ' ', seq!['_']);
    if text.len() == 0 {
        assert(replaced(spaces_done, '-', seq!['_']) =~= underscored(text));
    } else {
        let front = text.drop_last();
        lemma_replaced_twice(front);
        let front_done = replaced(front, ' ', seq!['_']);
        let last = if text.last() == ' ' {
            '_'
        } else {
            text.last()
        };
        assert(spaces_done =~= front_done.push(last));
        assert(spaces_done.drop_last() =~= front_done);
        assert(replaced(spaces_done, '-', seq!['_']) =~= underscored(text));
    }
}

/// Turns every space and every hyphen of `text` into an underscore.
pub fn underscore_separators(text: &str) -> (result: String)
    ensures
        result@ == underscored(text@),
{
    let spaces_done = replace_char(text, ' ', "_");
    let result = replace_char(spaces_done.as_str(), '-', "_");
    proof {
        reveal_strlit("_");
        assert("_"@ =~= seq!['_']);
        lemma_replaced_twice(text@);
    }
    result
}

/// Normalizes what the user typed: cuts off trailing white space, puts the
/// rest in upper case, and turns spaces and hyphens into underscores.
pub fn normalize(raw_input: &str) -> (base: String)
    ensures
        base@ == normalized(raw_input@),
{
    let upper = to_upper_case(trim_end(raw_input));
    underscore_separators(upper.as_str())
}

/// The affixes of a stage: what it puts in front of the normalized input
/// and what it puts behind it. Stage 0 and every stage past the last put
/// nothing.
pub fn stage_affixes(stage: u8) -> (affixes: (&'static str, &'static str))
    ensures
        affixes.0@ == stage_prefix(stage as nat),
        affixes.1@ == stage_suffix(stage as nat),
{
    proof {
        reveal_strlit("");
        assert(""@ =~= Seq::<char>::empty());
    }
    match stage {
        1 => ("", "_ITEM"),
        2 => ("ENCHANTMENT_ULTIMATE_", ""),
        3 => ("ENCHANTMENT_", ""),
        4 => ("", "_SCROLL"),
        5 => ("", "_GEM"),
        6 => ("", "_ORE"),
        7 => ("DUNGEON_", ""),
        _ => ("", ""),
    }
}

/// An identifier to try against the catalog, with the stage that made it.
#[derive(Debug)]
pub struct ProductCandidate {
    pub id: String,
    pub stage: u8,
}

/// The identifier that `stage` makes of the normalized input `base`: the
/// stage's prefix, the input, the stage's suffix.
pub fn apply_stage(base: &str, stage: u8) -> (id: String)
    ensures
        id@ == candidate_id(base@, stage as nat),
{
    let (prefix, suffix) = stage_affixes(stage);
    String::from_str(prefix).concat(base).concat(suffix)
}

/// The candidate that `stage` makes of the normalized input `base`, or
/// `None` where there is no such stage.
pub fn candidate(base: &str, stage: u8) -> (made: Option<ProductCandidate>)
    ensures
        stage < STAGE_COUNT ==> made is Some && made->0.stage == stage && made->0.id@
            == candidate_id(base@, stage as nat),
        stage >= STAGE_COUNT ==> made is None,
{
    if stage < STAGE_COUNT {
        Some(ProductCandidate { id: apply_stage(base, stage), stage })
    } else {
        None
    }
}

/// What a resolver is: the normalized input, and the stage of the candidate
/// that it yields next.
pub struct ResolverModel {
    pub base: Seq<char>,
    pub next_stage: nat,
}

/// The sequence of candidates for one input, yielded one at a time.
#[derive(Debug)]
pub struct ProductResolver {
    base: String,
    next_stage: u8,
}

impl View for ProductResolver {
    type V = ResolverModel;

    closed spec fn view(&self) -> ResolverModel {
        ResolverModel { base: self.base@, next_stage: self.next_stage as nat }
    }
}

impl ProductResolver {
    /// Starts the sequence of candidates for what the user typed. Nothing
    /// has been yielded yet.
    pub fn resolve(raw_input: &str) -> (resolver: ProductResolver)
        ensures
            resolver@.base == normalized(raw_input@),
            resolver@.next_stage == 0,
    {
        ProductResolver { base: normalize(raw_input), next_stage: 0 }
    }

    /// The normalized input, which is also the candidate of stage 0.
    pub fn base(&self) -> (base: &str)
        ensures
            base@ == self@.base,
    {
        self.base.as_str()
    }

    /// The stage of the candidate that `next_candidate` yields next;
    /// `STAGE_COUNT` once all have been yielded.
    pub fn next_stage(&self) -> (stage: u8)
        ensures
            stage == self@.next_stage,
    {
        self.next_stage
    }

    /// Whether every stage has been yielded.
    pub fn is_exhausted(&self) -> (exhausted: bool)
        ensures
            exhausted == (self@.next_stage >= STAGE_COUNT),
    {
        self.next_stage >= STAGE_COUNT
    }

    /// Yields the candidate of the next stage and moves on by one stage.
    /// After the candidate of the last stage it yields `None`, and keeps
    /// doing so: the input is exhausted.
    pub fn next_candidate(&mut self) -> (next: Option<ProductCandidate>)
        ensures
            final(self)@.base == old(self)@.base,
            old(self)@.next_stage < STAGE_COUNT ==> {
                &&& next is Some
                &&& next->0.stage == old(self)@.next_stage
                &&& next->0.id@ == candidate_id(old(self)@.base, old(self)@.next_stage)
                &&& final(self)@.next_stage == old(self)@.next_stage + 1
            },
            old(self)@.next_stage >= STAGE_COUNT ==> {
                &&& next is None
                &&& final(self)@.next_stage == old(self)@.next_stage
            },
    {
        let next = candidate(self.base.as_str(), self.next_stage);
        if self.next_stage < STAGE_COUNT {
            self.next_stage = self.next_stage + 1;
        }
        next
    }
}

/// All candidates for what the user typed, in the order in which they are
/// tried: one for each stage, the candidate of stage 0 first.
pub fn candidates(raw_input: &str) -> (all: Vec<ProductCandidate>)
    ensures
        all.len() == STAGE_COUNT,
        forall|i: int|
            0 <= i < STAGE_COUNT ==> {
                &&& (#[trigger] all[i]).stage == i
                &&& all[i].id@ == candidate_id(normalized(raw_input@), i as nat)
            },
{
    let mut resolver = ProductResolver::resolve(raw_input);
    let mut all: Vec<ProductCandidate> = Vec::new();
    while !resolver.is_exhausted()
        invariant
            resolver@.base == normalized(raw_input@),
            resolver@.next_stage <= STAGE_COUNT,
            all.len() == resolver@.next_stage,
            forall|i: int|
                0 <= i < all.len() ==> {
                    &&& (#[trigger] all[i]).stage == i
                    &&& all[i].id@ == candidate_id(normalized(raw_input@), i as nat)
                },
        decreases STAGE_COUNT - resolver@.next_stage,
    {
        let next = resolver.next_candidate();
        match next {
            Some(found) => {
                all.push(found);
            },
            None => {},
        }
    }
    all
}

} // verus!
