//! Fuzzy scoring of a search query against a name.
//!
//! A score of 0 means that the name does not match. A name that starts with
//! the query scores highest, one that holds it as a whole comes next, and
//! one through which the query's characters are only scattered, in order,
//! comes last.
//!
//! Scores are told as `i32`. One that is larger than an `i32` holds is told
//! as the largest that it holds, which takes a query and a name of more
//! than [`MAX_EXACT_LEN`] characters each.

use vstd::prelude::*;
use crate::text::{chars_of, contains, has_part, has_prefix, lowercase, starts_with, to_lowercase};

verus! {

/// Where the query or the name is no longer than this, the score is told
/// as it is.
pub const MAX_EXACT_LEN: usize = 29_306;

/// Score of a name that starts with the query, before the bonus for
/// length.
pub const PREFIX_SCORE: i32 = 1000;

/// Score of a name that holds the query, before the bonus for length.
pub const SUBSTRING_SCORE: i32 = 500;

/// What a name of `len` bytes gains for being short.
pub open spec fn length_bonus(len: nat) -> int {
    if len < 100 {
        100 - len
    } else {
        0
    }
}

/// State of the walk through a name in search of the query's characters.
pub struct Walk {
    /// How many characters of the query were found
    pub consumed: nat,
    /// How many characters of the name in a row were finds, up to here
    pub run: nat,
    /// Sum of the bonuses of all finds
    pub score: int,
}

/// The walk one character `c` of the name further. The character is a find
/// when it is the next character of `query` not found yet.
pub open spec fn walk_step(query: Seq<char>, walk: Walk, c: char) -> Walk {
    if walk.consumed < query.len() && query[walk.consumed as int] == c {
        Walk {
            consumed: walk.consumed + 1,
            run: walk.run + 1,
            score: walk.score + 10 + 5 * (walk.run + 1),
        }
    } else {
        Walk { run: 0, ..walk }
    }
}

/// The walk through all of `target`.
pub open spec fn walk_through(query: Seq<char>, target: Seq<char>) -> Walk
    decreases target.len(),
{
    if target.len() == 0 {
        Walk { consumed: 0, run: 0, score: 0 }
    } else {
        walk_step(query, walk_through(query, target.drop_last()), target.last())
    }
}

/// Score of `target` when the characters of `query` are only scattered
/// through it: the sum of the finds' bonuses where all of `query` was found,
/// else 0.
pub open spec fn subsequence_score(query: Seq<char>, target: Seq<char>) -> int {
    let walk = walk_through(query, target);
    if walk.consumed < query.len() {
        0
    } else {
        walk.score
    }
}

/// Score of the name `target`, which takes `target_len` bytes, against
/// `query`. Both are compared as they stand.
pub open spec fn score(query: Seq<char>, target: Seq<char>, target_len: nat) -> int {
    if starts_with(target, query) {
        PREFIX_SCORE + length_bonus(target_len)
    } else if contains(target, query) {
        SUBSTRING_SCORE + length_bonus(target_len)
    } else {
        subsequence_score(query, target)
    }
}

/// `points` as an `i32` tells them: as they are, or as the largest `i32`
/// where they are more.
pub open spec fn capped(points: int) -> int {
    if points <= i32::MAX {
        points
    } else {
        i32::MAX as int
    }
}

/// Every name starts with the empty query, and scores as that.
pub proof fn lemma_empty_query_matches(target: Seq<char>, target_len: nat)
    ensures
        score(Seq::empty(), target, target_len) == PREFIX_SCORE + length_bonus(target_len),
        score(Seq::empty(), target, target_len) >= PREFIX_SCORE,
{
    assert(target.subrange(0, 0) == Seq::<char>::empty());
}

/// Twice the most that `consumed` finds can have scored.
pub open spec fn walk_bound(consumed: nat) -> int {
    (20 * consumed + 5 * consumed * (consumed + 1)) as int
}

proof fn lemma_walk_bound_grows(a: nat, b: nat)
    requires
        a <= b,
    ensures
        walk_bound(a) <= walk_bound(b),
{
    assert(5 * a * (a + 1) <= 5 * b * (b + 1)) by (nonlinear_arith)
        requires
            a <= b,
    ;
}

proof fn lemma_walk_bound_step(c: nat)
    ensures
        walk_bound(c) + 20 + 10 * (c + 1) == walk_bound(c + 1),
{
    assert(5 * c * (c + 1) + 10 * (c + 1) == 5 * (c + 1) * (c + 2)) by (nonlinear_arith);
}

/// A walk finds no more characters than the query has and than the name
/// has, and its finds score no more than they could in one run.
pub proof fn lemma_walk_bounds(query: Seq<char>, target: Seq<char>)
    ensures
        walk_through(query, target).consumed <= query.len(),
        walk_through(query, target).consumed <= target.len(),
        walk_through(query, target).run <= walk_through(query, target).consumed,
        0 <= walk_through(query, target).score,
        2 * walk_through(query, target).score <= walk_bound(
            walk_through(query, target).consumed,
        ),
    decreases target.len(),
{
    if target.len() > 0 {
        lemma_walk_bounds(query, target.drop_last());
        lemma_walk_bound_step(walk_through(query, target.drop_last()).consumed);
    }
}

/// The score of a name against a query is one that an `i32` holds where
/// either of the two has no more than [`MAX_EXACT_LEN`] characters.
pub proof fn lemma_score_fits(query: Seq<char>, target: Seq<char>, target_len: nat)
    requires
        query.len() <= MAX_EXACT_LEN || target.len() <= MAX_EXACT_LEN,
    ensures
        0 <= score(query, target, target_len) <= i32::MAX,
        capped(score(query, target, target_len)) == score(query, target, target_len),
{
    lemma_walk_bounds(query, target);
    lemma_walk_bound_grows(walk_through(query, target).consumed, MAX_EXACT_LEN as nat);
    assert(walk_bound(MAX_EXACT_LEN as nat) == 4_294_940_830) by (nonlinear_arith);
}

fn length_bonus_of(len: usize) -> (bonus: i32)
    ensures
        bonus == length_bonus(len as nat),
        0 <= bonus <= 100,
{
    if len < 100 {
        100 - (len as i32)
    } else {
        0
    }
}

/// Scores `target` against `query`, taking both as they stand: a caller that
/// wants letters of either case to match folds both first. `target_len` is
/// the length in bytes of the name as it is shown.
pub fn fuzzy_score(query: &Vec<char>, target: &Vec<char>, target_len: usize) -> (points: i32)
    ensures
        points == capped(score(query@, target@, target_len as nat)),
{
    if has_prefix(target, query) {
        return PREFIX_SCORE + length_bonus_of(target_len);
    }
    if has_part(target, query) {
        return SUBSTRING_SCORE + length_bonus_of(target_len);
    }
    // One more than the largest `i32` stands for every sum above it.
    let too_much: u64 = 0x8000_0000;
    let mut points: u64 = 0;
    let mut consumed: usize = 0;
    let mut run: usize = 0;
    let mut i: usize = 0;
    let ghost mut sum: int = 0;
    while i < target.len()
        invariant
            i <= target.len(),
            consumed <= query.len(),
            run <= i,
            too_much == 0x8000_0000,
            0 <= sum,
            points == if sum < too_much { sum } else { too_much as int },
            walk_through(query@, target@.take(i as int)) == (Walk {
                consumed: consumed as nat,
                run: run as nat,
                score: sum,
            }),
        decreases target.len() - i,
    {
        assert(target@.take(i as int + 1).drop_last() == target@.take(i as int));
        if consumed < query.len() && query[consumed] == target[i] {
            consumed = consumed + 1;
            run = run + 1;
            proof {
                sum = sum + 10 + 5 * run;
            }
            if run > 429_496_727 {
                points = too_much;
            } else {
                points = points + 10 + 5 * (run as u64);
                if points > too_much {
                    points = too_much;
                }
            }
        } else {
            run = 0;
        }
        i = i + 1;
    }
    assert(target@.take(i as int) == target@);
    if consumed < query.len() {
        0
    } else if points >= too_much {
        i32::MAX
    } else {
        points as i32
    }
}

/// Scores the name `target` against `query` without regard to the case of
/// letters: both are put in lowercase first. The bonus for length goes by
/// the bytes of `target` as it was given.
pub fn fuzzy_match(query: &str, target: &str) -> (points: i32)
    ensures
        points == capped(score(lowercase(query@), lowercase(target@), target.len() as nat)),
{
    let query_lower = to_lowercase(query);
    let target_lower = to_lowercase(target);
    let query_chars = chars_of(query_lower.as_str());
    let target_chars = chars_of(target_lower.as_str());
    fuzzy_score(&query_chars, &target_chars, target.len())
}

} // verus!
