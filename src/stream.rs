//! The stream of keys that a run of the pump produces, as a function of what
//! each of its rounds saw, and the laws that stream obeys.
use crate::key::{decoded, Key, RawKey};
use vstd::prelude::*;

verus! {

/// What one round of the pump saw on the terminal.
#[derive(Clone, Copy, Debug, PartialEq, Eq, Structural)]
pub enum Round {
    /// No input arrived before the tick rate ran out.
    Quiet,
    /// A key was pressed.
    Pressed(RawKey),
    /// Some input other than a key press arrived (and was dropped).
    Other,
}

/// The keys one round sends, in order: the decoded key if one was pressed,
/// then always one heartbeat.
pub open spec fn round_keys(r: Round) -> Seq<Key> {
    match r {
        Round::Pressed(raw) => seq![decoded(raw), Key::Tick],
        _ => seq![Key::Tick],
    }
}

/// The keys a run of rounds sends, round after round.
pub open spec fn stream(rounds: Seq<Round>) -> Seq<Key>
    decreases rounds.len(),
{
    if rounds.len() == 0 {
        Seq::empty()
    } else {
        stream(rounds.drop_last()) + round_keys(rounds.last())
    }
}

/// The decoded keys of the rounds in which a key was pressed, in order.
pub open spec fn pressed(rounds: Seq<Round>) -> Seq<Key>
    decreases rounds.len(),
{
    if rounds.len() == 0 {
        Seq::empty()
    } else {
        pressed(rounds.drop_last()) + match rounds.last() {
            Round::Pressed(raw) => seq![decoded(raw)],
            _ => Seq::empty(),
        }
    }
}

/// The real keys of a stream, heartbeats left out.
pub open spec fn keys_of(s: Seq<Key>) -> Seq<Key> {
    s.filter(|k: Key| !k.is_heartbeat())
}

/// The heartbeats of a stream.
pub open spec fn heartbeats_of(s: Seq<Key>) -> Seq<Key> {
    s.filter(|k: Key| k.is_heartbeat())
}

/// Every round sends exactly one heartbeat, and a run that has had a round
/// ends on one: the reader sees at least one event per tick interval.
pub proof fn lemma_one_heartbeat_per_round(rounds: Seq<Round>)
    ensures
        heartbeats_of(stream(rounds)).len() == rounds.len(),
        rounds.len() > 0 ==> stream(rounds).last().is_heartbeat(),
    decreases rounds.len(),
{
    if rounds.len() > 0 {
        let prev = rounds.drop_last();
        lemma_one_heartbeat_per_round(prev);
        let r = round_keys(rounds.last());
        Seq::filter_distributes_over_add(stream(prev), r, |k: Key| k.is_heartbeat());
        reveal_with_fuel(Seq::filter, 3);
        match rounds.last() {
            Round::Pressed(raw) => {
                assert(r.drop_last().drop_last() =~= Seq::<Key>::empty());
                assert(heartbeats_of(r) =~= seq![Key::Tick]);
            },
            _ => {
                assert(r.drop_last() =~= Seq::<Key>::empty());
                assert(heartbeats_of(r) =~= seq![Key::Tick]);
            },
        }
    }
}

/// A run in which no key is pressed sends heartbeats only, one per round.
pub proof fn lemma_quiet_run_is_heartbeats(rounds: Seq<Round>)
    requires
        forall|i: int| 0 <= i < rounds.len() ==> !(#[trigger] rounds[i] is Pressed),
    ensures
        stream(rounds) == Seq::new(rounds.len(), |i: int| Key::Tick),
    decreases rounds.len(),
{
    if rounds.len() > 0 {
        let prev = rounds.drop_last();
        assert forall|i: int| 0 <= i < prev.len() implies !(#[trigger] prev[i] is Pressed) by {
            assert(prev[i] == rounds[i]);
        }
        lemma_quiet_run_is_heartbeats(prev);
        assert(!(rounds[rounds.len() - 1] is Pressed));
    }
    assert(stream(rounds) =~= Seq::new(rounds.len(), |i: int| Key::Tick));
}

/// Every pressed key reaches the stream, in the order pressed, and nothing
/// else but heartbeats does.
pub proof fn lemma_keys_delivered_in_order(rounds: Seq<Round>)
    ensures
        keys_of(stream(rounds)) == pressed(rounds),
    decreases rounds.len(),
{
    if rounds.len() == 0 {
        assert(keys_of(stream(rounds)) =~= Seq::<Key>::empty());
    } else {
        let prev = rounds.drop_last();
        lemma_keys_delivered_in_order(prev);
        let r = round_keys(rounds.last());
        Seq::filter_distributes_over_add(stream(prev), r, |k: Key| !k.is_heartbeat());
        reveal_with_fuel(Seq::filter, 3);
        match rounds.last() {
            Round::Pressed(raw) => {
                assert(r.drop_last().drop_last() =~= Seq::<Key>::empty());
                assert(r.drop_last() =~= seq![decoded(raw)]);
                assert(keys_of(r) =~= seq![decoded(raw)]);
            },
            _ => {
                assert(r.drop_last() =~= Seq::<Key>::empty());
                assert(keys_of(r) =~= Seq::<Key>::empty());
            },
        }
    }
}

/// A key is followed at once by a heartbeat: the round that read it sends
/// its heartbeat before the next round waits for input.
pub proof fn lemma_key_followed_by_heartbeat(rounds: Seq<Round>)
    ensures
        forall|i: int|
            0 <= i < stream(rounds).len() && !(#[trigger] stream(rounds)[i]).is_heartbeat() ==> i
                + 1 < stream(rounds).len() && stream(rounds)[i + 1].is_heartbeat(),
    decreases rounds.len(),
{
    if rounds.len() > 0 {
        let prev = rounds.drop_last();
        lemma_key_followed_by_heartbeat(prev);
        lemma_one_heartbeat_per_round(prev);
        let s = stream(rounds);
        let p = stream(prev);
        let r = round_keys(rounds.last());
        assert(s == p + r);
        assert forall|i: int| 0 <= i < s.len() && !(#[trigger] s[i]).is_heartbeat() implies i + 1
            < s.len() && s[i + 1].is_heartbeat() by {
            if i < p.len() {
                assert(s[i] == p[i]);
                if i + 1 == p.len() {
                    assert(p.last().is_heartbeat());
                } else {
                    assert(s[i + 1] == p[i + 1]);
                }
            } else {
                assert(s[i] == r[i - p.len()]);
                assert(s[i + 1] == r[i + 1 - p.len()]);
            }
        }
    }
}

} // verus!
