//! Choosing the hand hold that a climbing move goes to.
//!
//! Every hand hold is measured against the player's hold position once per
//! kind of move. A measurement either rules the hold out (it is out of
//! reach for that move) or gives it a score, expressed as an integer key
//! whose order is the order of the scores. The move then goes to the hold
//! with the highest score; among holds with equal scores the one that comes
//! first wins.
use vstd::prelude::*;

verus! {

/// The kind of climbing move the player asks for.
#[derive(Clone, Copy, Debug, PartialEq, Eq, Structural)]
pub enum ClimbType {
    Start,
    Up,
    Down,
    Right,
    Left,
}

/// The scores of one hand hold under each kind of climbing move.
///
/// `None` means that the hold cannot be reached by that move; `Some(key)`
/// gives the hold's score as an ordered key (a larger key is a better hold).
#[derive(Clone, Copy, Debug)]
pub struct HandHoldScores {
    pub start: Option<i64>,
    pub up: Option<i64>,
    pub down: Option<i64>,
    pub right: Option<i64>,
    pub left: Option<i64>,
}

impl HandHoldScores {
    /// The score of this hold for the given move.
    pub open spec fn spec_score(&self, climb_type: ClimbType) -> Option<i64> {
        match climb_type {
            ClimbType::Start => self.start,
            ClimbType::Up => self.up,
            ClimbType::Down => self.down,
            ClimbType::Right => self.right,
            ClimbType::Left => self.left,
        }
    }

    /// The score of this hold for the given move.
    #[verifier::when_used_as_spec(spec_score)]
    pub fn score(&self, climb_type: ClimbType) -> (s: Option<i64>)
        ensures
            s == self.spec_score(climb_type),
            climb_type == ClimbType::Start ==> s == self.start,
            climb_type == ClimbType::Up ==> s == self.up,
            climb_type == ClimbType::Down ==> s == self.down,
            climb_type == ClimbType::Right ==> s == self.right,
            climb_type == ClimbType::Left ==> s == self.left,
    {
        match climb_type {
            ClimbType::Start => self.start,
            ClimbType::Up => self.up,
            ClimbType::Down => self.down,
            ClimbType::Right => self.right,
            ClimbType::Left => self.left,
        }
    }
}

/// The scores of all holds for one kind of move, in the order of the holds.
pub open spec fn scores_for(holds: Seq<HandHoldScores>, climb_type: ClimbType) -> Seq<Option<i64>> {
    holds.map_values(|h: HandHoldScores| h.spec_score(climb_type))
}

/// `i` is the best entry of `scores`: it has a score, no entry scores more,
/// and every entry before it scores strictly less.
pub open spec fn is_best_at(scores: Seq<Option<i64>>, i: int) -> bool {
    &&& 0 <= i < scores.len()
    &&& scores[i] is Some
    &&& forall|j: int|
        0 <= j < scores.len() && #[trigger] scores[j] is Some ==> scores[j]->0 <= scores[i]->0
    &&& forall|j: int| 0 <= j < i && #[trigger] scores[j] is Some ==> scores[j]->0 < scores[i]->0
}

/// No entry of `scores` has a score.
pub open spec fn none_scored(scores: Seq<Option<i64>>) -> bool {
    forall|j: int| 0 <= j < scores.len() ==> #[trigger] scores[j] is None
}

/// `found` is the outcome of looking for the best entry of `scores`.
pub open spec fn picks_best(scores: Seq<Option<i64>>, found: Option<usize>) -> bool {
    match found {
        None => none_scored(scores),
        Some(i) => is_best_at(scores, i as int),
    }
}

/// Looks for the hand hold that a move of kind `climb_type` goes to.
///
/// Returns the index of the hold with the highest score for that move, the
/// first such hold where several share it, or `None` where no hold can be
/// reached by the move.
pub fn get_hand_hold(hand_holds: &Vec<HandHoldScores>, climb_type: ClimbType) -> (found: Option<
    usize,
>)
    ensures
        picks_best(scores_for(hand_holds@, climb_type), found),
{
    let ghost scores = scores_for(hand_holds@, climb_type);
    let mut best: Option<usize> = None;
    let mut best_score: i64 = 0;
    let mut i: usize = 0;
    while i < hand_holds.len()
        invariant
            i <= hand_holds.len(),
            scores == scores_for(hand_holds@, climb_type),
            scores.len() == hand_holds.len(),
            match best {
                None => forall|j: int| 0 <= j < i ==> #[trigger] scores[j] is None,
                Some(b) => {
                    &&& b < i
                    &&& scores[b as int] == Some(best_score)
                    &&& forall|j: int|
                        0 <= j < i && #[trigger] scores[j] is Some ==> scores[j]->0 <= best_score
                    &&& forall|j: int|
                        0 <= j < b && #[trigger] scores[j] is Some ==> scores[j]->0 < best_score
                },
            },
        decreases hand_holds.len() - i,
    {
        match hand_holds[i].score(climb_type) {
            Some(score) => {
                let better = match best {
                    None => true,
                    Some(_) => score > best_score,
                };
                if better {
                    best = Some(i);
                    best_score = score;
                }
            },
            None => {},
        }
        i = i + 1;
    }
    best
}

/// There is at most one best entry: the choice of hand hold is never
/// ambiguous.
pub proof fn lemma_best_is_unique(scores: Seq<Option<i64>>, i: int, j: int)
    requires
        is_best_at(scores, i),
        is_best_at(scores, j),
    ensures
        i == j,
{
    if i < j {
        assert(scores[i] is Some);
    } else if j < i {
        assert(scores[j] is Some);
    }
}

/// A move reads only its own measurement of each hold: the score of a hold
/// for a start, up, down, right or left move is exactly the hold's start,
/// up, down, right or left field, and never another move's.
pub proof fn lemma_score_is_own_field(h: HandHoldScores)
    ensures
        h.spec_score(ClimbType::Start) == h.start,
        h.spec_score(ClimbType::Up) == h.up,
        h.spec_score(ClimbType::Down) == h.down,
        h.spec_score(ClimbType::Right) == h.right,
        h.spec_score(ClimbType::Left) == h.left,
{
}

/// The field of a hold that a move of kind `climb_type` reads.
pub open spec fn own_field(h: HandHoldScores, climb_type: ClimbType) -> Option<i64> {
    if climb_type == ClimbType::Start {
        h.start
    } else if climb_type == ClimbType::Up {
        h.up
    } else if climb_type == ClimbType::Down {
        h.down
    } else if climb_type == ClimbType::Right {
        h.right
    } else {
        h.left
    }
}

/// What `get_hand_hold` returns, in terms of the holds' own fields for the
/// move: `None` exactly when no hold has a value in that field (no hold can
/// be reached by the move, say no hold lies to the right for a right move);
/// otherwise a hold whose own field has a value, no smaller than any other
/// hold's, and strictly larger than that of every hold before it.
pub proof fn lemma_hand_hold_by_own_field(
    holds: Seq<HandHoldScores>,
    climb_type: ClimbType,
    found: Option<usize>,
)
    requires
        picks_best(scores_for(holds, climb_type), found),
    ensures
        found is None <==> forall|j: int| 0 <= j < holds.len() ==> #[trigger] own_field(holds[j], climb_type) is None,
        found matches Some(i) ==> {
            &&& i < holds.len()
            &&& own_field(holds[i as int], climb_type) is Some
            &&& forall|j: int|
                0 <= j < holds.len() && #[trigger] own_field(holds[j], climb_type) is Some
                    ==> own_field(holds[j], climb_type)->0 <= own_field(holds[i as int], climb_type)->0
            &&& forall|j: int|
                0 <= j < i && #[trigger] own_field(holds[j], climb_type) is Some
                    ==> own_field(holds[j], climb_type)->0 < own_field(holds[i as int], climb_type)->0
        },
{
    let scores = scores_for(holds, climb_type);
    assert forall|j: int| 0 <= j < holds.len() implies #[trigger] scores[j] == own_field(holds[j], climb_type) by {
        lemma_score_is_own_field(holds[j]);
    }
    if found is None {
        assert forall|j: int| 0 <= j < holds.len() implies #[trigger] own_field(holds[j], climb_type) is None by {
            assert(scores[j] == own_field(holds[j], climb_type));
        }
    } else {
        let i = found->0 as int;
        assert(scores[i] == own_field(holds[i], climb_type));
        assert(own_field(holds[i], climb_type) is Some);
        assert forall|j: int|
            0 <= j < holds.len() && #[trigger] own_field(holds[j], climb_type) is Some
                implies own_field(holds[j], climb_type)->0 <= own_field(holds[i], climb_type)->0 by {
            assert(scores[j] == own_field(holds[j], climb_type));
        }
        assert forall|j: int|
            0 <= j < i && #[trigger] own_field(holds[j], climb_type) is Some
                implies own_field(holds[j], climb_type)->0 < own_field(holds[i], climb_type)->0 by {
            assert(scores[j] == own_field(holds[j], climb_type));
        }
        if forall|j: int| 0 <= j < holds.len() ==> #[trigger] own_field(holds[j], climb_type) is None {
            assert(own_field(holds[i], climb_type) is None);
        }
    }
}

} // verus!
