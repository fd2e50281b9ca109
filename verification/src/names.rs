//! The name allocator: two-word subdomains drawn at random from fixed word
//! lists, tried against the registry a bounded number of times.
//!
//! The allocator proposes; the caller asks the registry whether the proposal
//! is taken and either keeps it or asks for the next one.

use crate::text::{optional_text, prefixed, push_text, texts_of};
use rand::seq::IndexedRandom;
use vstd::prelude::*;

verus! {

/// How many candidates are tried before the allocator gives up.
pub const MAX_ATTEMPTS: usize = 11;

/// The adjectives that a generated subdomain starts with.
pub open spec fn adjectives_of() -> Seq<Seq<char>> {
    seq![
        "impeccable"@,
        "ubiquitous"@,
        "catchy"@,
        "slippery"@,
        "overbearing"@,
        "quick"@,
        "nimble"@,
        "simple"@,
        "complex"@,
        "golden"@,
        "cooked"@,
    ]
}

/// The nouns that a generated subdomain ends with.
pub open spec fn nouns_of() -> Seq<Seq<char>> {
    seq![
        "octopus"@,
        "project"@,
        "waste"@,
        "fox"@,
        "car"@,
        "place"@,
        "gold"@,
        "silver"@,
        "diamond"@,
        "slinky"@,
    ]
}

/// The candidate made of an adjective and a noun.
pub open spec fn candidate_of(adjective: Seq<char>, noun: Seq<char>) -> Seq<char> {
    adjective + "-"@ + noun
}

/// Whether `name` is made of one of `adjectives` and one of `nouns`.
pub open spec fn is_combination(
    adjectives: Seq<Seq<char>>,
    nouns: Seq<Seq<char>>,
    name: Seq<char>,
) -> bool {
    exists|i: int, j: int|
        0 <= i < adjectives.len() && 0 <= j < nouns.len() && name == candidate_of(
            #[trigger] adjectives[i],
            #[trigger] nouns[j],
        )
}

/// The standard adjectives.
pub fn adjectives() -> (words: Vec<String>)
    ensures
        texts_of(words@) == adjectives_of(),
{
    let mut words: Vec<String> = Vec::new();
    push_text(&mut words, "impeccable");
    push_text(&mut words, "ubiquitous");
    push_text(&mut words, "catchy");
    push_text(&mut words, "slippery");
    push_text(&mut words, "overbearing");
    push_text(&mut words, "quick");
    push_text(&mut words, "nimble");
    push_text(&mut words, "simple");
    push_text(&mut words, "complex");
    push_text(&mut words, "golden");
    push_text(&mut words, "cooked");
    words
}

/// The standard nouns.
pub fn nouns() -> (words: Vec<String>)
    ensures
        texts_of(words@) == nouns_of(),
{
    let mut words: Vec<String> = Vec::new();
    push_text(&mut words, "octopus");
    push_text(&mut words, "project");
    push_text(&mut words, "waste");
    push_text(&mut words, "fox");
    push_text(&mut words, "car");
    push_text(&mut words, "place");
    push_text(&mut words, "gold");
    push_text(&mut words, "silver");
    push_text(&mut words, "diamond");
    push_text(&mut words, "slinky");
    words
}

/// Calls `rand`'s `IndexedRandom::choose` on the words with the thread's
/// generator from `rand::rng`. Which word comes back is left open: an empty
/// list gives `None`, any other list gives one of its entries.
#[verifier::external_body]
fn choose_word(words: &Vec<String>) -> (word: Option<&String>)
    ensures
        words@.len() == 0 ==> word is None,
        words@.len() > 0 ==> word is Some && words@.contains(*word->0),
{
    words.choose(&mut rand::rng())
}

/// The candidate made of an adjective and a noun.
pub fn candidate(adjective: &str, noun: &str) -> (name: String)
    ensures
        name@ == candidate_of(adjective@, noun@),
{
    let mut name = prefixed(adjective, "-");
    name.append(noun);
    name
}

/// Proposes subdomains, at most a fixed number of times.
#[derive(Debug)]
pub struct NameAllocator {
    adjectives: Vec<String>,
    nouns: Vec<String>,
    attempts_left: usize,
}

impl NameAllocator {
    /// The adjectives that the allocator draws from.
    pub closed spec fn adjectives(&self) -> Seq<Seq<char>> {
        texts_of(self.adjectives@)
    }

    /// The nouns that the allocator draws from.
    pub closed spec fn nouns(&self) -> Seq<Seq<char>> {
        texts_of(self.nouns@)
    }

    /// How many proposals the allocator may still make.
    pub closed spec fn attempts_left(&self) -> nat {
        self.attempts_left as nat
    }

    /// An allocator over the given words that makes `attempts` proposals.
    pub fn new(adjectives: Vec<String>, nouns: Vec<String>, attempts: usize) -> (allocator: Self)
        ensures
            allocator.adjectives() == texts_of(adjectives@),
            allocator.nouns() == texts_of(nouns@),
            allocator.attempts_left() == attempts,
    {
        NameAllocator { adjectives, nouns, attempts_left: attempts }
    }

    /// The allocator over the standard words with the standard bound.
    pub fn standard() -> (allocator: Self)
        ensures
            allocator.adjectives() == adjectives_of(),
            allocator.nouns() == nouns_of(),
            allocator.attempts_left() == MAX_ATTEMPTS,
    {
        NameAllocator::new(adjectives(), nouns(), MAX_ATTEMPTS)
    }

    /// How many proposals the allocator may still make.
    pub fn remaining(&self) -> (left: usize)
        ensures
            left == self.attempts_left(),
    {
        self.attempts_left
    }

    /// Uses up one attempt on the candidate made of the given words. Once the
    /// attempts are used up, nothing is proposed.
    pub fn propose_from(&mut self, adjective: &str, noun: &str) -> (proposal: Option<String>)
        ensures
            final(self).adjectives() == old(self).adjectives(),
            final(self).nouns() == old(self).nouns(),
            old(self).attempts_left() == 0 ==> proposal is None && final(self).attempts_left()
                == 0,
            old(self).attempts_left() > 0 ==> final(self).attempts_left() == old(
                self,
            ).attempts_left() - 1 && optional_text(proposal) == Some(
                candidate_of(adjective@, noun@),
            ),
    {
        if self.attempts_left == 0 {
            return None;
        }
        self.attempts_left = self.attempts_left - 1;
        Some(candidate(adjective, noun))
    }

    /// Uses up one attempt on a candidate drawn at random: one adjective and
    /// one noun, each drawn from its list independently. Nothing is proposed
    /// once the attempts are used up, or when a list is empty.
    pub fn propose(&mut self) -> (proposal: Option<String>)
        ensures
            final(self).adjectives() == old(self).adjectives(),
            final(self).nouns() == old(self).nouns(),
            proposal is Some <==> old(self).attempts_left() > 0 && old(self).adjectives().len() > 0
                && old(self).nouns().len() > 0,
            proposal is Some ==> final(self).attempts_left() == old(self).attempts_left() - 1,
            proposal is None ==> final(self).attempts_left() == old(self).attempts_left(),
            proposal matches Some(name) ==> is_combination(
                old(self).adjectives(),
                old(self).nouns(),
                name@,
            ),
    {
        if self.attempts_left == 0 {
            return None;
        }
        let adjective = match choose_word(&self.adjectives) {
            Some(word) => word.clone(),
            None => {
                return None;
            },
        };
        let noun = match choose_word(&self.nouns) {
            Some(word) => word.clone(),
            None => {
                return None;
            },
        };
        proof {
            let i = choose|i: int| 0 <= i < self.adjectives@.len() && self.adjectives@[i] == adjective;
            let j = choose|j: int| 0 <= j < self.nouns@.len() && self.nouns@[j] == noun;
            assert(texts_of(self.adjectives@)[i] == adjective@);
            assert(texts_of(self.nouns@)[j] == noun@);
        }
        self.propose_from(adjective.as_str(), noun.as_str())
    }
}

/// The names of a list, as a set.
pub open spec fn names_in(names: Seq<String>) -> Set<Seq<char>> {
    Set::new(|name: Seq<char>| exists|i: int| 0 <= i < names.len() && (#[trigger] names[i])@ == name)
}

/// The candidates that a list of draws gives, in order.
pub open spec fn candidates_of(draws: Seq<(String, String)>) -> Seq<Seq<char>> {
    Seq::new(draws.len(), |i: int| candidate_of(draws[i].0@, draws[i].1@))
}

fn is_listed(names: &Vec<String>, name: &String) -> (listed: bool)
    ensures
        listed == names_in(names@).contains(name@),
{
    let mut i: usize = 0;
    while i < names.len()
        invariant
            i <= names.len(),
            forall|j: int| 0 <= j < i ==> (#[trigger] names@[j])@ != name@,
        decreases names.len() - i,
    {
        if names[i] == *name {
            return true;
        }
        i = i + 1;
    }
    false
}

/// Runs a whole allocation on given draws against a given picture of the
/// registry: the draws are proposed in order, as far as `attempts` reaches,
/// and the first proposal that `registry` does not list is the name.
pub fn allocate_among(draws: &Vec<(String, String)>, registry: &Vec<String>, attempts: usize) -> (name:
    Option<String>)
    ensures
        optional_text(name) == allocation(
            candidates_of(draws@),
            names_in(registry@),
            attempts as nat,
        ),
{
    let ghost picks = candidates_of(draws@);
    let ghost taken = names_in(registry@);
    let mut allocator = NameAllocator::new(Vec::new(), Vec::new(), attempts);
    let mut i: usize = 0;
    assert(picks.subrange(0, picks.len() as int) =~= picks);
    while i < draws.len()
        invariant
            i <= draws.len(),
            picks == candidates_of(draws@),
            taken == names_in(registry@),
            allocator.attempts_left() <= attempts,
            allocation(picks, taken, attempts as nat) == allocation(
                picks.subrange(i as int, picks.len() as int),
                taken,
                allocator.attempts_left(),
            ),
        decreases draws.len() - i,
    {
        let ghost rest = picks.subrange(i as int, picks.len() as int);
        assert(rest[0] == picks[i as int]);
        assert(rest.drop_first() =~= picks.subrange(i + 1, picks.len() as int));
        let proposal = match allocator.propose_from(draws[i].0.as_str(), draws[i].1.as_str()) {
            Some(proposal) => proposal,
            None => {
                return None;
            },
        };
        let taken_now = is_listed(registry, &proposal);
        match settle(proposal, taken_now) {
            Some(name) => {
                return Some(name);
            },
            None => {},
        }
        i = i + 1;
    }
    None
}

/// What the registry's answer makes of a proposal: a free name is kept, a
/// taken one is not.
pub fn settle(proposal: String, taken: bool) -> (name: Option<String>)
    ensures
        name == if taken {
            None
        } else {
            Some(proposal)
        },
{
    if taken {
        None
    } else {
        Some(proposal)
    }
}

/// The subdomain of a request: the preferred one where the request names one
/// and the registry does not hold it, else the generated one.
pub fn resolve_subdomain(
    generated: Option<String>,
    preferred: Option<String>,
    preferred_taken: bool,
) -> (subdomain: Option<String>)
    ensures
        subdomain == if preferred is Some && !preferred_taken {
            preferred
        } else {
            generated
        },
{
    match preferred {
        Some(name) => {
            if preferred_taken {
                generated
            } else {
                Some(name)
            }
        },
        None => generated,
    }
}

/// What an allocation ends with when the proposals are `picks`, in this
/// order, the registry holds the names in `taken`, and `attempts` proposals
/// may be made: the first proposal that the registry does not hold.
pub open spec fn allocation(picks: Seq<Seq<char>>, taken: Set<Seq<char>>, attempts: nat) -> Option<
    Seq<char>,
>
    decreases attempts,
{
    if attempts == 0 || picks.len() == 0 {
        None
    } else if !taken.contains(picks[0]) {
        Some(picks[0])
    } else {
        allocation(picks.drop_first(), taken, (attempts - 1) as nat)
    }
}

/// A name that an allocation returns was proposed within the bound and is
/// not in the registry.
pub proof fn allocation_is_free(picks: Seq<Seq<char>>, taken: Set<Seq<char>>, attempts: nat)
    ensures
        allocation(picks, taken, attempts) matches Some(name) ==> !taken.contains(name) && exists|
            k: int,
        |
            0 <= k < picks.len() && k < attempts && #[trigger] picks[k] == name,
    decreases attempts,
{
    if attempts == 0 || picks.len() == 0 {
    } else if !taken.contains(picks[0]) {
    } else {
        let rest = picks.drop_first();
        allocation_is_free(rest, taken, (attempts - 1) as nat);
        if allocation(picks, taken, attempts) is Some {
            let name = allocation(picks, taken, attempts)->0;
            let k = choose|k: int| 0 <= k < rest.len() && k < attempts - 1 && #[trigger] rest[k] == name;
            assert(picks[k + 1] == name);
        }
    }
}

/// When the registry holds every proposal, the allocation fails; with a
/// registry that holds every combination, that is so whatever is drawn.
pub proof fn saturated_registry_fails(
    picks: Seq<Seq<char>>,
    taken: Set<Seq<char>>,
    attempts: nat,
)
    requires
        forall|k: int| 0 <= k < picks.len() ==> taken.contains(#[trigger] picks[k]),
    ensures
        allocation(picks, taken, attempts) is None,
    decreases attempts,
{
    if attempts > 0 && picks.len() > 0 {
        let rest = picks.drop_first();
        assert forall|k: int| 0 <= k < rest.len() implies taken.contains(#[trigger] rest[k]) by {
            assert(rest[k] == picks[k + 1]);
        }
        saturated_registry_fails(rest, taken, (attempts - 1) as nat);
    }
}

/// When the registry holds every proposal but `free`, and `free` is proposed
/// within the bound, the allocation returns `free`.
pub proof fn last_free_name_is_found(
    picks: Seq<Seq<char>>,
    taken: Set<Seq<char>>,
    attempts: nat,
    free: Seq<char>,
    at: int,
)
    requires
        !taken.contains(free),
        forall|k: int| 0 <= k < picks.len() && picks[k] != free ==> taken.contains(
            #[trigger] picks[k],
        ),
        0 <= at < picks.len(),
        at < attempts,
        picks[at] == free,
    ensures
        allocation(picks, taken, attempts) == Some(free),
    decreases attempts,
{
    if taken.contains(picks[0]) {
        let rest = picks.drop_first();
        assert forall|k: int| 0 <= k < rest.len() && rest[k] != free implies taken.contains(
            #[trigger] rest[k],
        ) by {
            assert(rest[k] == picks[k + 1]);
        }
        assert(rest[at - 1] == picks[at]);
        last_free_name_is_found(rest, taken, (attempts - 1) as nat, free, at - 1);
    }
}

/// When the registry holds every combination of the words, an allocation
/// that draws from those words fails, whatever it draws and however many
/// attempts it has.
pub proof fn exhausted_namespace_fails(
    adjectives: Seq<Seq<char>>,
    nouns: Seq<Seq<char>>,
    picks: Seq<Seq<char>>,
    taken: Set<Seq<char>>,
    attempts: nat,
)
    requires
        forall|k: int| 0 <= k < picks.len() ==> is_combination(adjectives, nouns, #[trigger] picks[k]),
        forall|name: Seq<char>| is_combination(adjectives, nouns, name) ==> taken.contains(name),
    ensures
        allocation(picks, taken, attempts) is None,
{
    saturated_registry_fails(picks, taken, attempts);
}

/// When the registry holds every combination of the words but `free`, an
/// allocation that draws from those words and draws `free` within its
/// attempts returns `free`.
pub proof fn one_free_combination_is_found(
    adjectives: Seq<Seq<char>>,
    nouns: Seq<Seq<char>>,
    picks: Seq<Seq<char>>,
    taken: Set<Seq<char>>,
    attempts: nat,
    free: Seq<char>,
    at: int,
)
    requires
        forall|k: int| 0 <= k < picks.len() ==> is_combination(adjectives, nouns, #[trigger] picks[k]),
        forall|name: Seq<char>|
            is_combination(adjectives, nouns, name) && name != free ==> taken.contains(name),
        !taken.contains(free),
        0 <= at < picks.len(),
        at < attempts,
        picks[at] == free,
    ensures
        allocation(picks, taken, attempts) == Some(free),
{
    last_free_name_is_found(picks, taken, attempts, free, at);
}

} // verus!
