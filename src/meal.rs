use vstd::prelude::*;

use crate::dye::{dye_color, nearest_dye, Dye};
use crate::rgb::{sq_distance, Rgb};
use crate::snack::{alter_spec, apply_snacks, snack_at, Snack};

verus! {

/// How many moves a search makes at most before it gives up.
pub const MAX_STEPS: usize = 1024;

/// The one-snack moves, in enumeration order.
pub open spec fn single_moves() -> Seq<Seq<Snack>> {
    Seq::new(6, |i: int| seq![snack_at(i)])
}

/// The two-snack moves tried when no single snack gets nearer.
pub open spec fn pair_moves() -> Seq<Seq<Snack>> {
    seq![
        seq![Snack::Apple, Snack::Pear],
        seq![Snack::Apple, Snack::Berries],
        seq![Snack::Pear, Snack::Berries],
        seq![Snack::Plum, Snack::Pineapple],
        seq![Snack::Fruit, Snack::Pineapple],
    ]
}

/// The two-snack moves with `pairs`, else the one-snack moves.
pub open spec fn moves_of(pairs: bool) -> Seq<Seq<Snack>> {
    if pairs {
        pair_moves()
    } else {
        single_moves()
    }
}

/// Among the first `k` moves that do not overflow from `c`, the one that lands
/// nearest to `t`, as (move position, color reached, distance); on equal
/// distances the earlier move wins.
pub open spec fn best_move(c: Rgb, t: Rgb, moves: Seq<Seq<Snack>>, k: int) -> Option<(int, Rgb, int)>
    decreases k,
{
    if k <= 0 {
        None
    } else {
        let prev = best_move(c, t, moves, k - 1);
        match apply_snacks(c, moves[k - 1]) {
            None => prev,
            Some(n) => {
                let d = sq_distance(n, t);
                match prev {
                    Some(p) => if d < p.2 {
                        Some((k - 1, n, d))
                    } else {
                        prev
                    },
                    None => Some((k - 1, n, d)),
                }
            },
        }
    }
}

/// `p` followed by the snacks of `r`, if there are any.
pub open spec fn after(p: Seq<Snack>, r: Option<Seq<Snack>>) -> Option<Seq<Snack>> {
    match r {
        Some(x) => Some(p + x),
        None => None,
    }
}

/// The greedy search from color `c` at distance `cd` of `t`, the color of
/// `target`, with `fuel` moves left: `None` when it gets stuck or runs out.
pub open spec fn meal_run(c: Rgb, cd: int, t: Rgb, target: Dye, fuel: nat) -> Option<Seq<Snack>>
    decreases fuel,
{
    if fuel == 0 {
        None
    } else {
        match best_move(c, t, single_moves(), 6) {
            None => None,
            Some(b) => if cd < b.2 {
                if nearest_dye(c) == target {
                    Some(Seq::empty())
                } else {
                    match best_move(c, t, pair_moves(), 5) {
                        None => None,
                        Some(p) => if cd < p.2 {
                            None
                        } else {
                            after(
                                pair_moves()[p.0],
                                meal_run(p.1, p.2, t, target, (fuel - 1) as nat),
                            )
                        },
                    }
                }
            } else {
                after(single_moves()[b.0], meal_run(b.1, b.2, t, target, (fuel - 1) as nat))
            },
        }
    }
}

/// What the search from one dye to another gives.
pub open spec fn meal_of(start: Dye, target: Dye) -> Option<Seq<Snack>> {
    let c = dye_color(start);
    let t = dye_color(target);
    meal_run(c, sq_distance(c, t), t, target, MAX_STEPS as nat)
}

/// The move chosen is one of the first `k`, and lands where it says.
proof fn lemma_best_move(c: Rgb, t: Rgb, moves: Seq<Seq<Snack>>, k: int)
    ensures
        best_move(c, t, moves, k) matches Some(p) ==> 0 <= p.0 < k && apply_snacks(c, moves[p.0])
            == Some(p.1) && p.2 == sq_distance(p.1, t),
    decreases k,
{
    if k > 0 {
        lemma_best_move(c, t, moves, k - 1);
    }
}

/// Eating `a` then `b` is eating `a + b`.
pub proof fn lemma_apply_concat(c: Rgb, a: Seq<Snack>, b: Seq<Snack>)
    ensures
        apply_snacks(c, a + b) == match apply_snacks(c, a) {
            Some(x) => apply_snacks(x, b),
            None => None,
        },
    decreases b.len(),
{
    if b.len() == 0 {
        assert(a + b =~= a);
    } else {
        lemma_apply_concat(c, a, b.drop_last());
        assert((a + b).drop_last() =~= a + b.drop_last());
    }
}

/// Appending in two steps is appending the concatenation.
proof fn lemma_after_assoc(p: Seq<Snack>, m: Seq<Snack>, r: Option<Seq<Snack>>)
    ensures
        after(p, after(m, r)) == after(p + m, r),
{
    if let Some(x) = r {
        assert(p + (m + x) =~= (p + m) + x);
    }
}

/// A move found by `best_of`, as `best_move` states it.
spec fn as_move(r: Option<(usize, Rgb, u32)>) -> Option<(int, Rgb, int)> {
    match r {
        Some(x) => Some((x.0 as int, x.1, x.2 as int)),
        None => None,
    }
}

/// The two snacks of a two-snack move.
fn pair_at(k: usize) -> (p: (Snack, Snack))
    requires
        k < 5,
    ensures
        pair_moves()[k as int] == seq![p.0, p.1],
{
    if k == 0 {
        (Snack::Apple, Snack::Pear)
    } else if k == 1 {
        (Snack::Apple, Snack::Berries)
    } else if k == 2 {
        (Snack::Pear, Snack::Berries)
    } else if k == 3 {
        (Snack::Plum, Snack::Pineapple)
    } else {
        (Snack::Fruit, Snack::Pineapple)
    }
}

/// The best one-snack (or, with `pairs`, two-snack) move from `c` towards `t`.
fn best_of(c: Rgb, t: Rgb, pairs: bool) -> (res: Option<(usize, Rgb, u32)>)
    ensures
        as_move(res) == best_move(c, t, moves_of(pairs), moves_of(pairs).len() as int),
{
    let n: usize = if pairs {
        5
    } else {
        6
    };
    let mut best: Option<(usize, Rgb, u32)> = None;
    let mut k: usize = 0;
    while k < n
        invariant
            k <= n,
            n == moves_of(pairs).len(),
            as_move(best) == best_move(c, t, moves_of(pairs), k as int),
        decreases n - k,
    {
        let next = if pairs {
            let (a, b) = pair_at(k);
            proof {
                let m = seq![a, b];
                assert(m.drop_last() =~= seq![a]);
                assert(seq![a].drop_last() =~= Seq::<Snack>::empty());
                assert(apply_snacks(c, Seq::<Snack>::empty()) == Some(c));
                assert(seq![a].last() == a);
                assert(apply_snacks(c, seq![a]) == alter_spec(a, c));
                assert(apply_snacks(c, m) == match apply_snacks(c, seq![a]) {
                    Some(x) => alter_spec(b, x),
                    None => None,
                });
            }
            match a.alter(c) {
                Some(x) => b.alter(x),
                None => None,
            }
        } else {
            let s = Snack::from_index(k);
            proof {
                assert(seq![s].drop_last() =~= Seq::<Snack>::empty());
                assert(single_moves()[k as int] =~= seq![s]);
                assert(apply_snacks(c, Seq::<Snack>::empty()) == Some(c));
                assert(seq![s].last() == s);
                assert(apply_snacks(c, seq![s]) == alter_spec(s, c));
            }
            s.alter(c)
        };
        assert(next == apply_snacks(c, moves_of(pairs)[k as int]));
        match next {
            None => {},
            Some(nc) => {
                let d = nc.distance(t);
                match best {
                    None => {
                        best = Some((k, nc, d));
                    },
                    Some(b) => {
                        if d < b.2 {
                            best = Some((k, nc, d));
                        }
                    },
                }
            },
        }
        k = k + 1;
    }
    best
}

/// Whatever the search gives from `c` leads to a color nearest to `target`.
proof fn lemma_run_reaches_target(c: Rgb, cd: int, t: Rgb, target: Dye, fuel: nat)
    ensures
        meal_run(c, cd, t, target, fuel) matches Some(m) ==> apply_snacks(c, m) matches Some(e)
            && nearest_dye(e) == target,
    decreases fuel,
{
    if fuel > 0 {
        lemma_best_move(c, t, single_moves(), 6);
        lemma_best_move(c, t, pair_moves(), 5);
        if let Some(b) = best_move(c, t, single_moves(), 6) {
            if cd < b.2 {
                if nearest_dye(c) == target {
                    assert(apply_snacks(c, Seq::<Snack>::empty()) == Some(c));
                } else if let Some(p) = best_move(c, t, pair_moves(), 5) {
                    lemma_run_reaches_target(p.1, p.2, t, target, (fuel - 1) as nat);
                    if let Some(r) = meal_run(p.1, p.2, t, target, (fuel - 1) as nat) {
                        lemma_apply_concat(c, pair_moves()[p.0], r);
                    }
                }
            } else {
                lemma_run_reaches_target(b.1, b.2, t, target, (fuel - 1) as nat);
                if let Some(r) = meal_run(b.1, b.2, t, target, (fuel - 1) as nat) {
                    lemma_apply_concat(c, single_moves()[b.0], r);
                }
            }
        }
    }
}

/// The search and the classification agree: whenever the search from
/// `start` to `target` gives a meal, eating it from the color of `start`
/// never overflows and ends on a color whose nearest dye is `target`.
pub proof fn lemma_meal_round_trip(start: Dye, target: Dye)
    ensures
        meal_of(start, target) matches Some(m) ==> apply_snacks(dye_color(start), m) matches Some(
            e,
        ) && nearest_dye(e) == target,
{
    let c = dye_color(start);
    let t = dye_color(target);
    lemma_run_reaches_target(c, sq_distance(c, t), t, target, MAX_STEPS as nat);
}

/// Creates a list of snacks that, fed to a chocobo in order, changes its
/// plumage from `starting_dye` to `final_dye`.
///
/// The search is greedy: it eats the snack that brings the color nearest to
/// the goal (earliest snack on ties) as long as that is no worse than staying;
/// when no snack helps and the color is not yet nearest to `final_dye`, it
/// tries a few two-snack moves. It returns `None` where neither helps, or
/// after `MAX_STEPS` moves.
pub fn make_meal(starting_dye: Dye, final_dye: Dye) -> (res: Option<Vec<Snack>>)
    ensures
        res is Some <==> meal_of(starting_dye, final_dye) is Some,
        res matches Some(m) ==> meal_of(starting_dye, final_dye) == Some(m@),
        res matches Some(m) ==> apply_snacks(dye_color(starting_dye), m@) matches Some(e)
            && nearest_dye(e) == final_dye,
{
    let final_color = final_dye.color();
    let start_color = starting_dye.color();
    let mut meal: Vec<Snack> = Vec::new();
    let mut current_color = start_color;
    let mut current_distance = current_color.distance(final_color);
    let ghost d0 = current_distance as int;
    let mut steps: usize = 0;
    proof {
        if let Some(m) = meal_of(starting_dye, final_dye) {
            assert(meal@ + m =~= m);
        }
    }
    while steps < MAX_STEPS
        invariant
            steps <= MAX_STEPS,
            final_color == dye_color(final_dye),
            start_color == dye_color(starting_dye),
            d0 == sq_distance(start_color, final_color),
            apply_snacks(start_color, meal@) == Some(current_color),
            current_distance as int == sq_distance(current_color, final_color),
            meal_of(starting_dye, final_dye) == after(
                meal@,
                meal_run(
                    current_color,
                    current_distance as int,
                    final_color,
                    final_dye,
                    (MAX_STEPS - steps) as nat,
                ),
            ),
        decreases MAX_STEPS - steps,
    {
        let ghost old_meal = meal@;
        let single = best_of(current_color, final_color, false);
        proof {
            lemma_best_move(current_color, final_color, single_moves(), 6);
            lemma_best_move(current_color, final_color, pair_moves(), 5);
        }
        match single {
            None => {
                return None;
            },
            Some(b) => {
                if current_distance < b.2 {
                    let here = match Dye::try_from(current_color) {
                        Ok(d) => d,
                        Err(d) => d,
                    };
                    if here == final_dye {
                        assert(meal@ + Seq::empty() =~= meal@);
                        return Some(meal);
                    }
                    let pair = best_of(current_color, final_color, true);
                    match pair {
                        None => {
                            return None;
                        },
                        Some(p) => {
                            if current_distance < p.2 {
                                return None;
                            }
                            let (x, y) = pair_at(p.0);
                            meal.push(x);
                            meal.push(y);
                            proof {
                                let mv = pair_moves()[p.0 as int];
                                assert(meal@ =~= old_meal + mv);
                                lemma_apply_concat(start_color, old_meal, mv);
                                lemma_after_assoc(
                                    old_meal,
                                    mv,
                                    meal_run(
                                        p.1,
                                        p.2 as int,
                                        final_color,
                                        final_dye,
                                        (MAX_STEPS - steps - 1) as nat,
                                    ),
                                );
                            }
                            current_color = p.1;
                            current_distance = p.2;
                        },
                    }
                } else {
                    let s = Snack::from_index(b.0);
                    meal.push(s);
                    proof {
                        let mv = single_moves()[b.0 as int];
                        assert(mv =~= seq![s]);
                        assert(meal@ =~= old_meal + mv);
                        lemma_apply_concat(start_color, old_meal, mv);
                        lemma_after_assoc(
                            old_meal,
                            mv,
                            meal_run(
                                b.1,
                                b.2 as int,
                                final_color,
                                final_dye,
                                (MAX_STEPS - steps - 1) as nat,
                            ),
                        );
                    }
                    current_color = b.1;
                    current_distance = b.2;
                }
            },
        }
        steps = steps + 1;
    }
    None
}

} // verus!
