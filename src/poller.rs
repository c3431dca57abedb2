//! One polling round over all tracked spaces.

use vstd::prelude::*;
use crate::space::{next_state, publishes, state_message, Space, SpaceView};
use crate::status::FetchError;

verus! {

pub open spec fn views(spaces: Seq<Space>) -> Seq<SpaceView> {
    spaces.map_values(|s: Space| s@)
}

/// The spaces after a round with the given fetch outcomes, one per space.
pub open spec fn after_round(
    spaces: Seq<SpaceView>,
    outcomes: Seq<Result<bool, FetchError>>,
) -> Seq<SpaceView> {
    Seq::new(
        spaces.len(),
        |i: int|
            SpaceView {
                name: spaces[i].name,
                entity_name: spaces[i].entity_name,
                endpoint: spaces[i].endpoint,
                state: next_state(spaces[i].state, outcomes[i]),
            },
    )
}

/// The state messages of the first `n` spaces of a round, in order: one for
/// each space whose observed state differs from the stored one.
pub open spec fn round_messages(
    spaces: Seq<SpaceView>,
    outcomes: Seq<Result<bool, FetchError>>,
    n: nat,
) -> Seq<(Seq<char>, Seq<char>)>
    decreases n,
{
    if n == 0 {
        Seq::empty()
    } else {
        let prev = round_messages(spaces, outcomes, (n - 1) as nat);
        let i = n - 1;
        if publishes(spaces[i].state, outcomes[i]) {
            prev.push(state_message(after_round(spaces, outcomes)[i]))
        } else {
            prev
        }
    }
}

/// Applies one round of fetch outcomes, `outcomes[i]` to `spaces[i]`, and
/// returns the state messages to publish, in the order of the spaces.
pub fn poll_round(spaces: &mut Vec<Space>, outcomes: &Vec<Result<bool, FetchError>>) -> (r: Vec<
    (String, String),
>)
    requires
        old(spaces).len() == outcomes.len(),
    ensures
        views(final(spaces)@) == after_round(views(old(spaces)@), outcomes@),
        r.deep_view() == round_messages(views(old(spaces)@), outcomes@, outcomes.len() as nat),
{
    let ghost start = views(spaces@);
    let ghost target = after_round(start, outcomes@);
    let n = spaces.len();
    let mut messages: Vec<(String, String)> = Vec::new();
    let mut i: usize = 0;
    while i < n
        invariant
            n == spaces.len(),
            n == outcomes.len(),
            start.len() == n,
            start == views(old(spaces)@),
            target == after_round(start, outcomes@),
            i <= n,
            forall|j: int| 0 <= j < i ==> #[trigger] spaces@[j]@ == target[j],
            forall|j: int| i <= j < n ==> #[trigger] spaces@[j]@ == start[j],
            messages.deep_view() == round_messages(start, outcomes@, i as nat),
        decreases n - i,
    {
        let outcome = outcomes[i];
        let ghost before = spaces@;
        let published = spaces[i].observe(outcome);
        proof {
            assert(forall|j: int| 0 <= j < n && j != i ==> spaces@[j] == before[j]);
            assert(before[i as int]@ == start[i as int]);
            assert(outcome == outcomes@[i as int]);
            assert(spaces@[i as int]@ == target[i as int]);
        }
        match published {
            Some(m) => {
                messages.push(m);
            },
            None => {},
        }
        proof {
            assert(messages.deep_view() =~= round_messages(start, outcomes@, (i + 1) as nat));
        }
        i = i + 1;
    }
    proof {
        assert(views(spaces@) =~= target);
    }
    messages
}

proof fn lemma_failed_fetch_round(
    spaces: Seq<SpaceView>,
    outcomes: Seq<Result<bool, FetchError>>,
    i: int,
    n: nat,
)
    requires
        spaces.len() == outcomes.len(),
        0 <= i < spaces.len(),
        n <= spaces.len(),
        outcomes[i] is Err,
    ensures
        round_messages(spaces, outcomes, n) == round_messages(
            spaces,
            outcomes.update(i, Ok(spaces[i].state)),
            n,
        ),
    decreases n,
{
    if n > 0 {
        lemma_failed_fetch_round(spaces, outcomes, i, (n - 1) as nat);
        let k = n - 1;
        let o2 = outcomes.update(i, Ok(spaces[i].state));
        assert(after_round(spaces, outcomes)[k] == after_round(spaces, o2)[k]);
    }
}

/// A fetch that fails in a round leaves that space's state as it was, and the
/// round publishes exactly what it would have published had the fetch
/// observed the stored state.
pub proof fn lemma_failed_fetch_is_no_transition(
    spaces: Seq<SpaceView>,
    outcomes: Seq<Result<bool, FetchError>>,
    i: int,
)
    requires
        spaces.len() == outcomes.len(),
        0 <= i < spaces.len(),
        outcomes[i] is Err,
    ensures
        after_round(spaces, outcomes)[i] == spaces[i],
        round_messages(spaces, outcomes, spaces.len() as nat) == round_messages(
            spaces,
            outcomes.update(i, Ok(spaces[i].state)),
            spaces.len() as nat,
        ),
{
    lemma_failed_fetch_round(spaces, outcomes, i, spaces.len() as nat);
}

proof fn lemma_repeat_silent(
    spaces: Seq<SpaceView>,
    outcomes: Seq<Result<bool, FetchError>>,
    n: nat,
)
    requires
        spaces.len() == outcomes.len(),
        n <= spaces.len(),
    ensures
        round_messages(after_round(spaces, outcomes), outcomes, n) == Seq::<
            (Seq<char>, Seq<char>),
        >::empty(),
    decreases n,
{
    if n > 0 {
        lemma_repeat_silent(spaces, outcomes, (n - 1) as nat);
    }
}

/// A round that observes the same outcomes as the round before publishes
/// nothing and changes nothing: messages come only from transitions.
pub proof fn lemma_repeated_round_is_silent(
    spaces: Seq<SpaceView>,
    outcomes: Seq<Result<bool, FetchError>>,
)
    requires
        spaces.len() == outcomes.len(),
    ensures
        after_round(after_round(spaces, outcomes), outcomes) == after_round(spaces, outcomes),
        round_messages(after_round(spaces, outcomes), outcomes, spaces.len() as nat) == Seq::<
            (Seq<char>, Seq<char>),
        >::empty(),
{
    lemma_repeat_silent(spaces, outcomes, spaces.len() as nat);
    assert(after_round(after_round(spaces, outcomes), outcomes) =~= after_round(spaces, outcomes));
}

} // verus!
