//! Repeated play: many games in a row with one die.

use crate::dice::Die;
use crate::game::{is_played_game, snakes_and_ladders};
use vstd::prelude::*;

verus! {

/// Whether `thrown` is made up of `games` games, each played to its end and
/// one straight after another. No throws make up the series of no games.
pub open spec fn is_series(thrown: Seq<int>, games: nat) -> bool
    decreases games,
{
    if games == 0 {
        thrown.len() == 0
    } else {
        exists|cut: int|
            0 <= cut <= thrown.len() && is_series(#[trigger] thrown.take(cut), (games - 1) as nat)
                && is_played_game(thrown.skip(cut))
    }
}

/// Whether `thrown` is made up of `games` games, each played to its end and
/// one straight after another, of which the last took `last` throws. No
/// throws and a count of 0 stand for the series of no games.
pub open spec fn is_series_ending(thrown: Seq<int>, games: nat, last: nat) -> bool {
    if games == 0 {
        thrown.len() == 0 && last == 0
    } else {
        &&& 1 <= last <= thrown.len()
        &&& is_played_game(thrown.skip(thrown.len() - last))
        &&& is_series(thrown.take(thrown.len() - last), (games - 1) as nat)
    }
}

/// Throws that end a series of games with a last game of some length are
/// a series of that many games.
pub proof fn lemma_series_ending_is_series(thrown: Seq<int>, games: nat, last: nat)
    requires
        is_series_ending(thrown, games, last),
    ensures
        is_series(thrown, games),
{
    if games > 0 {
        let cut = thrown.len() - last;
        assert(is_series(thrown.take(cut), (games - 1) as nat));
    }
}

/// Plays `trials` games one after another, all with `die`, and returns the
/// number of throws that the last of them took. The counts of the earlier
/// games are dropped. When no game is played the result is 0.
///
/// The throws that the die has shown by the end are those it had shown
/// before, followed by the throws of these games and no others.
pub fn run_trials(die: &mut Die, trials: u64) -> (last: u64)
    ensures
        trials == 0 ==> last == 0,
        trials > 0 ==> last >= 1,
        old(die)@.is_prefix_of(final(die)@),
        is_series_ending(final(die)@.skip(old(die)@.len() as int), trials as nat, last as nat),
{
    let mut num_rolls: u64 = 0;
    let ghost start = die@.len() as int;

    for played in 0..trials
        invariant
            start == old(die)@.len(),
            old(die)@.is_prefix_of(die@),
            is_series_ending(die@.skip(start), played as nat, num_rolls as nat),
    {
        let ghost before = die@;
        proof {
            lemma_series_ending_is_series(before.skip(start), played as nat, num_rolls as nat);
        }

        num_rolls = snakes_and_ladders(die);

        proof {
            let series = die@.skip(start);
            let cut = series.len() - num_rolls;
            assert(series.skip(cut) == die@.skip(before.len() as int));
            assert(series.take(cut) == before.skip(start));
        }
    }

    num_rolls
}

} // verus!
