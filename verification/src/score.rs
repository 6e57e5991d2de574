//! Scoring: when the ball leaves the play field past an arena edge, the
//! opposite side's counter goes up (saturating at [`SCORE_CAP`]), the score
//! text is refreshed, the ball is sent back the other way from the arena's
//! horizontal center, and the freeze timestamp is recorded.

use vstd::prelude::*;
use vstd::string::*;
use crate::config::ArenaConfig;
use crate::paddle::half;
use crate::pong::{Ball, LastScoreTime, Scoreboard, ScoreText, Transform, DIM_LIMIT, SCORE_CAP, VEL_LIMIT};

verus! {

/// Updates the score state and resets the ball after a score event.
pub struct ScoreSystem;

/// The decimal digit character for `d`.
pub open spec fn spec_digit(d: int) -> char {
    if d == 0 {
        '0'
    } else if d == 1 {
        '1'
    } else if d == 2 {
        '2'
    } else if d == 3 {
        '3'
    } else if d == 4 {
        '4'
    } else if d == 5 {
        '5'
    } else if d == 6 {
        '6'
    } else if d == 7 {
        '7'
    } else if d == 8 {
        '8'
    } else {
        '9'
    }
}

/// The decimal numeral of `n`, most significant digit first, without
/// leading zeros; the numeral of zero is "0".
pub open spec fn spec_decimal(n: nat) -> Seq<char>
    decreases n,
{
    if n < 10 {
        seq![spec_digit(n as int)]
    } else {
        spec_decimal(n / 10).push(spec_digit((n % 10) as int))
    }
}

/// A score counter incremented by one, saturating at [`SCORE_CAP`].
pub open spec fn spec_score_inc(s: int) -> int {
    if s < SCORE_CAP {
        s + 1
    } else {
        SCORE_CAP as int
    }
}

/// Whether the right side scores this tick: the ball's center has left the
/// field past the left edge.
pub open spec fn spec_right_scores(x: int, radius: int) -> bool {
    x < radius
}

/// Whether the left side scores this tick: the ball's center has left the
/// field past the right edge.
pub open spec fn spec_left_scores(x: int, arena_width: int, radius: int) -> bool {
    x >= arena_width - radius
}

/// Whether either side scores this tick.
pub open spec fn spec_scored(x: int, arena_width: int, radius: int) -> bool {
    spec_right_scores(x, radius) || spec_left_scores(x, arena_width, radius)
}

/// The counters saturate: an increment never pushes a counter past
/// [`SCORE_CAP`], and below the cap it adds exactly one.
pub proof fn lemma_score_saturates(s: int)
    requires
        0 <= s <= SCORE_CAP,
    ensures
        0 <= spec_score_inc(s) <= SCORE_CAP,
        s < SCORE_CAP ==> spec_score_inc(s) == s + 1,
        s == SCORE_CAP ==> spec_score_inc(s) == s,
{
}

/// The one-character string for the decimal digit `d`.
fn digit_str(d: u32) -> (r: &'static str)
    requires
        d < 10,
    ensures
        r@ == seq![spec_digit(d as int)],
{
    proof {
        reveal_strlit("0");
        reveal_strlit("1");
        reveal_strlit("2");
        reveal_strlit("3");
        reveal_strlit("4");
        reveal_strlit("5");
        reveal_strlit("6");
        reveal_strlit("7");
        reveal_strlit("8");
        reveal_strlit("9");
        assert(("0")@ =~= seq!['0']);
        assert(("1")@ =~= seq!['1']);
        assert(("2")@ =~= seq!['2']);
        assert(("3")@ =~= seq!['3']);
        assert(("4")@ =~= seq!['4']);
        assert(("5")@ =~= seq!['5']);
        assert(("6")@ =~= seq!['6']);
        assert(("7")@ =~= seq!['7']);
        assert(("8")@ =~= seq!['8']);
        assert(("9")@ =~= seq!['9']);
    }
    if d == 0 {
        "0"
    } else if d == 1 {
        "1"
    } else if d == 2 {
        "2"
    } else if d == 3 {
        "3"
    } else if d == 4 {
        "4"
    } else if d == 5 {
        "5"
    } else if d == 6 {
        "6"
    } else if d == 7 {
        "7"
    } else if d == 8 {
        "8"
    } else {
        "9"
    }
}

/// The decimal text of a counter, as handed to the score display.
pub fn decimal_string(n: u32) -> (s: String)
    ensures
        s@ == spec_decimal(n as nat),
    decreases n,
{
    if n < 10 {
        String::from_str(digit_str(n))
    } else {
        let mut s: String = decimal_string(n / 10);
        s.append(digit_str(n % 10));
        proof {
            assert(s@ =~= spec_decimal((n / 10) as nat).push(spec_digit((n % 10) as int)));
        }
        s
    }
}

/// The score update shared by [`ScoreSystem`] and the victory variant:
/// judges both edges independently, bumps the counters and their display
/// text, and on any score event flips the ball's horizontal velocity and
/// recenters it horizontally.
pub(crate) fn apply_scoring(
    ball: &mut Ball,
    ball_t: &mut Transform,
    text: &mut ScoreText,
    scoreboard: &mut Scoreboard,
    arena: &ArenaConfig,
) -> (scored: bool)
    requires
        0 <= arena.width <= DIM_LIMIT,
        0 <= old(ball).radius <= DIM_LIMIT,
        -VEL_LIMIT <= old(ball).velocity_x <= VEL_LIMIT,
        old(scoreboard).score_left <= SCORE_CAP,
        old(scoreboard).score_right <= SCORE_CAP,
    ensures
        scored == spec_scored(old(ball_t).x as int, arena.width as int, old(ball).radius as int),
        final(scoreboard).score_right as int == (
            if spec_right_scores(old(ball_t).x as int, old(ball).radius as int) {
                spec_score_inc(old(scoreboard).score_right as int)
            } else {
                old(scoreboard).score_right as int
            }
        ),
        final(scoreboard).score_left as int == (
            if spec_left_scores(old(ball_t).x as int, arena.width as int, old(ball).radius as int) {
                spec_score_inc(old(scoreboard).score_left as int)
            } else {
                old(scoreboard).score_left as int
            }
        ),
        final(text).p2_score@ == (
            if spec_right_scores(old(ball_t).x as int, old(ball).radius as int) {
                spec_decimal(final(scoreboard).score_right as nat)
            } else {
                old(text).p2_score@
            }
        ),
        final(text).p1_score@ == (
            if spec_left_scores(old(ball_t).x as int, arena.width as int, old(ball).radius as int) {
                spec_decimal(final(scoreboard).score_left as nat)
            } else {
                old(text).p1_score@
            }
        ),
        final(ball).velocity_x == (if scored { -old(ball).velocity_x } else { old(ball).velocity_x as int }),
        final(ball).velocity_y == old(ball).velocity_y,
        final(ball).radius == old(ball).radius,
        final(ball_t).x as int == (
            if scored {
                arena.width as int / 2
            } else {
                old(ball_t).x as int
            }
        ),
        final(ball_t).y == old(ball_t).y,
        final(ball_t).z == old(ball_t).z,
{
    let mut scored: bool = false;
    if ball_t.x < ball.radius {
        scoreboard.score_right = saturating_inc(scoreboard.score_right);
        text.p2_score = decimal_string(scoreboard.score_right);
        scored = true;
    }
    if ball_t.x >= arena.width - ball.radius {
        scoreboard.score_left = saturating_inc(scoreboard.score_left);
        text.p1_score = decimal_string(scoreboard.score_left);
        scored = true;
    }
    if scored {
        ball.velocity_x = -ball.velocity_x;
        ball_t.x = half(arena.width);
    }
    scored
}

/// A counter plus one, held at the cap.
fn saturating_inc(s: u32) -> (r: u32)
    requires
        s <= SCORE_CAP,
    ensures
        r as int == spec_score_inc(s as int),
{
    if s < SCORE_CAP {
        s + 1
    } else {
        SCORE_CAP
    }
}

impl ScoreSystem {
    /// One scoring update, after collision: both edges are judged
    /// independently against the tick's final ball position; on any score
    /// event the ball's horizontal velocity flips, its horizontal position
    /// resets to the arena center, and the current time is recorded as the
    /// freeze timestamp that gates subsequent motion.
    pub fn run(
        ball: &mut Ball,
        ball_t: &mut Transform,
        text: &mut ScoreText,
        scoreboard: &mut Scoreboard,
        arena: &ArenaConfig,
        now_ms: u64,
        last_score: &mut LastScoreTime,
    )
        requires
            0 <= arena.width <= DIM_LIMIT,
            0 <= old(ball).radius <= DIM_LIMIT,
            -VEL_LIMIT <= old(ball).velocity_x <= VEL_LIMIT,
            old(scoreboard).score_left <= SCORE_CAP,
            old(scoreboard).score_right <= SCORE_CAP,
        ensures
            final(scoreboard).score_right as int == (
                if spec_right_scores(old(ball_t).x as int, old(ball).radius as int) {
                    spec_score_inc(old(scoreboard).score_right as int)
                } else {
                    old(scoreboard).score_right as int
                }
            ),
            final(scoreboard).score_left as int == (
                if spec_left_scores(old(ball_t).x as int, arena.width as int, old(ball).radius as int) {
                    spec_score_inc(old(scoreboard).score_left as int)
                } else {
                    old(scoreboard).score_left as int
                }
            ),
            final(text).p2_score@ == (
                if spec_right_scores(old(ball_t).x as int, old(ball).radius as int) {
                    spec_decimal(final(scoreboard).score_right as nat)
                } else {
                    old(text).p2_score@
                }
            ),
            final(text).p1_score@ == (
                if spec_left_scores(old(ball_t).x as int, arena.width as int, old(ball).radius as int) {
                    spec_decimal(final(scoreboard).score_left as nat)
                } else {
                    old(text).p1_score@
                }
            ),
            final(ball).velocity_x == (
                if spec_scored(old(ball_t).x as int, arena.width as int, old(ball).radius as int) {
                    -old(ball).velocity_x
                } else {
                    old(ball).velocity_x as int
                }
            ),
            final(ball).velocity_y == old(ball).velocity_y,
            final(ball).radius == old(ball).radius,
            final(ball_t).x as int == (
                if spec_scored(old(ball_t).x as int, arena.width as int, old(ball).radius as int) {
                    arena.width as int / 2
                } else {
                    old(ball_t).x as int
                }
            ),
            final(ball_t).y == old(ball_t).y,
            final(ball_t).z == old(ball_t).z,
            final(last_score).0 == (
                if spec_scored(old(ball_t).x as int, arena.width as int, old(ball).radius as int) {
                    now_ms
                } else {
                    old(last_score).0
                }
            ),
    {
        let scored: bool = apply_scoring(ball, ball_t, text, scoreboard, arena);
        if scored {
            last_score.0 = now_ms;
        }
    }
}

} // verus!
