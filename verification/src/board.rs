//! The board: one hundred squares, nine ladders and ten snakes.

use vstd::prelude::*;

verus! {

/// The last square of the board. The game is over once the token rests on it.
pub const GOAL: u64 = 100;

/// The ladders, each from the square at its foot to the square at its top.
pub open spec fn ladders() -> Map<int, int> {
    map![
        1int => 38int,
        4int => 14int,
        9int => 31int,
        21int => 42int,
        28int => 84int,
        36int => 44int,
        51int => 67int,
        71int => 91int,
        80int => 100int,
    ]
}

/// The snakes, each from the square at its head to the square at its tail.
pub open spec fn snakes() -> Map<int, int> {
    map![
        98int => 78int,
        95int => 75int,
        93int => 73int,
        87int => 24int,
        64int => 60int,
        62int => 19int,
        56int => 53int,
        49int => 11int,
        48int => 26int,
        16int => 6int,
    ]
}

/// The square on which a token that lands on `square` comes to rest: the top
/// of the ladder or the tail of the snake that starts there, and `square`
/// itself where neither does.
pub open spec fn destination(square: int) -> int {
    if ladders().contains_key(square) {
        ladders()[square]
    } else if snakes().contains_key(square) {
        snakes()[square]
    } else {
        square
    }
}

/// Moves a token that has landed on `square` to the square where it rests.
pub fn land_on(square: u64) -> (rest: u64)
    ensures
        rest == destination(square as int),
        1 <= square <= GOAL ==> 1 <= rest <= GOAL,
{
    match square {
        // Ladders
        1 => 38,
        4 => 14,
        9 => 31,
        21 => 42,
        28 => 84,
        36 => 44,
        51 => 67,
        71 => 91,
        80 => 100,
        // Snakes
        98 => 78,
        95 => 75,
        93 => 73,
        87 => 24,
        64 => 60,
        62 => 19,
        56 => 53,
        49 => 11,
        48 => 26,
        16 => 6,
        // Any other square
        _ => square,
    }
}

/// Every ladder leads upwards and stays on the board: its top lies above its
/// foot, and both are squares between 1 and the goal.
pub proof fn lemma_ladders_climb(foot: int)
    requires
        ladders().contains_key(foot),
    ensures
        1 <= foot < ladders()[foot] <= GOAL,
{
}

/// Every snake leads downwards and stays on the board: its tail lies below
/// its head, and both are squares between 1 and the goal.
pub proof fn lemma_snakes_descend(head: int)
    requires
        snakes().contains_key(head),
    ensures
        1 <= snakes()[head] < head <= GOAL,
{
}

/// A token that lands at the foot of a ladder rests at exactly that ladder's
/// top, one that lands on the head of a snake rests at exactly that snake's
/// tail, and one that lands anywhere else rests where it landed.
pub proof fn lemma_destination_follows_table(square: int)
    ensures
        ladders().contains_key(square) ==> destination(square) == ladders()[square],
        snakes().contains_key(square) ==> destination(square) == snakes()[square],
        !ladders().contains_key(square) && !snakes().contains_key(square) ==> destination(
            square,
        ) == square,
{
}

/// A token that lands on a square of the board rests on a square of the
/// board.
pub proof fn lemma_destination_on_board(square: int)
    requires
        1 <= square <= GOAL,
    ensures
        1 <= destination(square) <= GOAL,
{
}

} // verus!
