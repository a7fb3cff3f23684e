//! One game: the token starts off the board, before square 1, and moves by
//! throws of the die until it rests on the goal.

use crate::board::{
    destination, ladders, land_on, lemma_destination_on_board, lemma_ladders_climb,
    lemma_snakes_descend, snakes, GOAL,
};
use crate::dice::{all_faces, is_face, Die};
use vstd::prelude::*;

verus! {

/// The most throws that one game can count: the capacity of its counter.
pub const ROLL_LIMIT: u64 = u64::MAX;

/// The square on which a token rests at the end of a turn that began on
/// `place` and took it as far as `landed`. A throw that would carry the token
/// past the goal is wasted, and the token stays where it was.
pub open spec fn resolved(place: int, landed: int) -> int {
    if landed > GOAL {
        place
    } else {
        destination(landed)
    }
}

/// The square on which the token rests after the throws `thrown`, made in
/// that order from the start of a game.
pub open spec fn place_after(thrown: Seq<int>) -> int
    decreases thrown.len(),
{
    if thrown.len() == 0 {
        0
    } else {
        let place = place_after(thrown.drop_last());
        resolved(place, place + thrown.last())
    }
}

/// Whether `thrown` is a game, finished or still under way: throws of the
/// die, none of them made after the token had reached the goal.
pub open spec fn is_game(thrown: Seq<int>) -> bool {
    &&& all_faces(thrown)
    &&& forall|n: int| 0 <= n < thrown.len() ==> place_after(#[trigger] thrown.take(n)) != GOAL
}

/// Whether `thrown` is a game played to its end: its last throw brings the
/// token to the goal or, failing that, exhausts the counter.
pub open spec fn is_played_game(thrown: Seq<int>) -> bool {
    &&& is_game(thrown)
    &&& place_after(thrown) == GOAL || thrown.len() == ROLL_LIMIT
}

/// Settles a turn: the square on which a token rests that stood on `place`
/// and was carried to `landed` by its throw.
pub fn resolve(place: u64, landed: u64) -> (next: u64)
    ensures
        next == resolved(place as int, landed as int),
        landed > GOAL ==> next == place,
        landed <= GOAL ==> next == destination(landed as int),
        1 <= landed <= GOAL ==> 1 <= next <= GOAL,
        place <= GOAL ==> next <= GOAL,
{
    if landed > GOAL {
        // Too high: stay where you are.
        place
    } else {
        land_on(landed)
    }
}

/// A turn that lands at the foot of a ladder ends at exactly that ladder's
/// top, and one that lands on the head of a snake ends at exactly that
/// snake's tail, whatever square the turn began on.
pub proof fn lemma_turn_follows_table(place: int, landed: int)
    ensures
        ladders().contains_key(landed) ==> resolved(place, landed) == ladders()[landed],
        snakes().contains_key(landed) ==> resolved(place, landed) == snakes()[landed],
{
    if ladders().contains_key(landed) {
        lemma_ladders_climb(landed);
    }
    if snakes().contains_key(landed) {
        lemma_snakes_descend(landed);
    }
}

/// One more throw moves the token from where it rested by the rule of a
/// single turn.
pub proof fn lemma_place_after_push(thrown: Seq<int>, roll: int)
    ensures
        place_after(thrown.push(roll)) == resolved(
            place_after(thrown),
            place_after(thrown) + roll,
        ),
{
    assert(thrown.push(roll).drop_last() == thrown);
}

/// The token never leaves the board: after any throws of the die it rests on
/// a square from 0, the start, to the goal.
pub proof fn lemma_place_on_board(thrown: Seq<int>)
    requires
        all_faces(thrown),
    ensures
        0 <= place_after(thrown) <= GOAL,
    decreases thrown.len(),
{
    if thrown.len() > 0 {
        lemma_place_on_board(thrown.drop_last());
        let landed = place_after(thrown.drop_last()) + thrown.last();
        assert(is_face(thrown.last()));
        if landed <= GOAL {
            lemma_destination_on_board(landed);
        }
    }
}

/// The goal ends the game: a game that begins with throws which bring the
/// token to the goal consists of those throws and no others.
pub proof fn lemma_goal_ends_game(played: Seq<int>, longer: Seq<int>)
    requires
        place_after(played) == GOAL,
        played.is_prefix_of(longer),
        is_game(longer),
    ensures
        longer == played,
{
    if played.len() < longer.len() {
        assert(longer.take(played.len() as int) == played);
    }
}

/// A throw that lands the token exactly on the goal ends the game on that
/// throw: the token rests on the goal, and no game goes on after it.
pub proof fn lemma_landing_on_goal_ends_game(thrown: Seq<int>, roll: int, longer: Seq<int>)
    requires
        place_after(thrown) + roll == GOAL,
        thrown.push(roll).is_prefix_of(longer),
        is_game(longer),
    ensures
        place_after(thrown.push(roll)) == GOAL,
        longer == thrown.push(roll),
{
    lemma_place_after_push(thrown, roll);
    lemma_goal_ends_game(thrown.push(roll), longer);
}

/// Every game played to its end takes at least one throw.
pub proof fn lemma_played_game_takes_a_throw(thrown: Seq<int>)
    requires
        is_played_game(thrown),
    ensures
        thrown.len() >= 1,
{
}

/// Plays one game with `die` and returns the number of throws it took. Each
/// turn throws the die once, counts the throw and settles the turn; the game
/// ends with the throw that brings the token to the goal. A game that has
/// not ended when the counter is exhausted is abandoned there.
///
/// The throws that the die has shown by the end are those it had shown
/// before, followed by the throws of this game and no others.
pub fn snakes_and_ladders(die: &mut Die) -> (rolls: u64)
    ensures
        rolls >= 1,
        old(die)@.is_prefix_of(final(die)@),
        final(die)@.len() == old(die)@.len() + rolls,
        is_played_game(final(die)@.skip(old(die)@.len() as int)),
{
    let mut num_rolls: u64 = 0;
    let mut place: u64 = 0;
    let ghost mut game: Seq<int> = Seq::empty();

    loop
        invariant_except_break
            num_rolls < ROLL_LIMIT,
            place != GOAL,
        invariant
            place <= GOAL,
            place == place_after(game),
            game.len() == num_rolls,
            is_game(game),
            die@ == old(die)@ + game,
        ensures
            num_rolls >= 1,
            place == GOAL || num_rolls == ROLL_LIMIT,
        decreases ROLL_LIMIT - num_rolls,
    {
        // Roll the dice
        let roll: u64 = die.roll();
        num_rolls += 1;

        // Where did you end up?
        let landed: u64 = place + roll;

        // Where did you *really* end up?
        place = resolve(place, landed);

        proof {
            let before = game;
            game = before.push(roll as int);
            lemma_place_after_push(before, roll as int);
            assert forall|n: int| 0 <= n < game.len() implies place_after(
                #[trigger] game.take(n),
            ) != GOAL by {
                if n < before.len() {
                    assert(game.take(n) == before.take(n));
                } else {
                    assert(game.take(n) == before);
                }
            }
            assert(die@ == old(die)@ + game);
        }

        if place == GOAL || num_rolls == ROLL_LIMIT {
            break ;
        }
    }

    assert(die@.skip(old(die)@.len() as int) == game);
    num_rolls
}

} // verus!
