use vstd::prelude::*;

use crate::dye::{dye_color, Dye};
use crate::rgb::Rgb;
use crate::snack::{
    alter_spec, apply_snacks, effect_of, occurrences, snack_at, snack_index, total, Snack, SnackList,
};

verus! {

/// The largest `q` with `0 <= c + q * d <= 255`, for `d != 0`.
pub open spec fn room(c: u8, d: i8) -> int {
    if d > 0 {
        (255 - c) / (d as int)
    } else {
        (c as int) / (-(d as int))
    }
}

/// The least of three integers.
pub open spec fn min3(a: int, b: int, c: int) -> int {
    if a <= b && a <= c {
        a
    } else if b <= c {
        b
    } else {
        c
    }
}

/// How many snacks `s` can be eaten in a row from color `c` without a
/// component leaving `0..=255`.
pub open spec fn usable(c: Rgb, s: Snack) -> int {
    min3(room(c.r, effect_of(s).0), room(c.g, effect_of(s).1), room(c.b, effect_of(s).2))
}

/// The color after eating `n` snacks `s` from `c`.
pub open spec fn advance(c: Rgb, s: Snack, n: int) -> Rgb {
    Rgb {
        r: (c.r + n * effect_of(s).0) as u8,
        g: (c.g + n * effect_of(s).1) as u8,
        b: (c.b + n * effect_of(s).2) as u8,
    }
}

/// How many snacks `s` the backtracking takes in one batch.
pub open spec fn batch_size(rem: Seq<u8>, c: Rgb, s: Snack) -> int {
    let q = usable(c, s);
    let k = rem[snack_index(s)] as int;
    if q < k {
        q
    } else {
        k
    }
}

/// Scans the first `k` snacks for the branch giving the fewest batches:
/// whether a branch got stuck, and the best menu found (earliest on ties).
pub open spec fn best_branch(rem: Seq<u8>, c: Rgb, menu: Seq<(Snack, u8)>, k: int) -> (
    bool,
    Option<Seq<(Snack, u8)>>,
)
    decreases total(rem), k,
    via best_branch_decreases
{
    if k <= 0 || k > 6 || rem.len() != 6 {
        (false, None)
    } else {
        let (stuck, best) = best_branch(rem, c, menu, k - 1);
        let s = snack_at(k - 1);
        let n = batch_size(rem, c, s);
        if n <= 0 {
            (stuck, best)
        } else {
            match menu_search(
                rem.update(k - 1, (rem[k - 1] - n) as u8),
                advance(c, s, n),
                menu.push((s, n as u8)),
            ) {
                None => (true, best),
                Some(x) => (
                    stuck,
                    match best {
                        Some(y) => if x.len() < y.len() {
                            Some(x)
                        } else {
                            Some(y)
                        },
                        None => Some(x),
                    },
                ),
            }
        }
    }
}

#[via_fn]
proof fn best_branch_decreases(rem: Seq<u8>, c: Rgb, menu: Seq<(Snack, u8)>, k: int) {
    if 0 < k <= 6 && rem.len() == 6 {
        let n = batch_size(rem, c, snack_at(k - 1));
        if n > 0 {
            lemma_total_update(rem, k - 1, (rem[k - 1] - n) as u8);
        }
    }
}

/// The menu the backtracking builds on `menu` from color `c` with the counts
/// `rem` left; `None` where some branch is left with snacks that none can be eaten.
pub open spec fn menu_search(rem: Seq<u8>, c: Rgb, menu: Seq<(Snack, u8)>) -> Option<
    Seq<(Snack, u8)>,
>
    decreases total(rem), 7int,
{
    let (stuck, best) = best_branch(rem, c, menu, 6);
    if stuck {
        None
    } else {
        match best {
            Some(x) => Some(x),
            None => if forall|i: int| 0 <= i < 6 ==> #[trigger] rem[i] == 0 {
                Some(menu)
            } else {
                None
            },
        }
    }
}

/// What `make_menu` gives.
pub open spec fn menu_of(start: Dye, snacks: SnackList) -> Option<Seq<(Snack, u8)>> {
    menu_search(snacks.counts@, dye_color(start), Seq::empty())
}

/// The batches of an optional menu.
pub open spec fn opt_view(r: Option<Vec<(Snack, u8)>>) -> Option<Seq<(Snack, u8)>> {
    match r {
        Some(v) => Some(v@),
        None => None,
    }
}

/// Changing one count changes the total by the difference.
proof fn lemma_total_update(s: Seq<u8>, i: int, x: u8)
    requires
        0 <= i < s.len(),
    ensures
        total(s.update(i, x)) == total(s) - s[i] + x,
    decreases s.len(),
{
    if i < s.len() - 1 {
        assert(s.update(i, x).drop_last() =~= s.drop_last().update(i, x));
        lemma_total_update(s.drop_last(), i, x);
    } else {
        assert(s.update(i, x).drop_last() =~= s.drop_last());
    }
}

/// A batch within `room` keeps a component of `-5` or `+5` steps within `0..=255`.
proof fn lemma_room(c: u8, d: i8, n: int)
    requires
        d == 5 || d == -5,
        0 <= n <= room(c, d),
    ensures
        0 <= c + n * d <= 255,
        -1275 <= n * d <= 1275,
{
    if d == 5 {
        let x = 255 - c as int;
        assert(room(c, d) == x / 5);
        assert(5 * (x / 5) <= x && x / 5 <= 51) by (nonlinear_arith)
            requires
                0 <= x <= 255,
        ;
        assert(n * d == 5 * n);
    } else {
        let x = c as int;
        assert(room(c, d) == x / 5);
        assert(5 * (x / 5) <= x && x / 5 <= 51) by (nonlinear_arith)
            requires
                0 <= x <= 255,
        ;
        assert(n * d == -5 * n);
    }
}

/// The largest `q` with `0 <= c + q * d <= 255`.
fn room_of(c: u8, d: i8) -> (q: u8)
    requires
        d == 5 || d == -5,
    ensures
        q as int == room(c, d),
{
    if d > 0 {
        (255 - c) / (d as u8)
    } else {
        c / ((-(d as i16)) as u8)
    }
}

/// How many snacks `s` can be eaten in a row from `c`.
fn usable_count(c: Rgb, s: Snack) -> (q: u8)
    ensures
        q as int == usable(c, s),
{
    let (dr, dg, db) = s.effect();
    let qr = room_of(c.r, dr);
    let qg = room_of(c.g, dg);
    let qb = room_of(c.b, db);
    if qr <= qg && qr <= qb {
        qr
    } else if qg <= qb {
        qg
    } else {
        qb
    }
}

/// The color after eating `n` snacks `s` in a row.
fn advance_by(c: Rgb, s: Snack, n: u8) -> (r: Rgb)
    requires
        n <= usable(c, s),
    ensures
        r == advance(c, s, n as int),
{
    let (dr, dg, db) = s.effect();
    proof {
        lemma_room(c.r, dr, n as int);
        lemma_room(c.g, dg, n as int);
        lemma_room(c.b, db, n as int);
    }
    let r = c.r as i16 + n as i16 * dr as i16;
    let g = c.g as i16 + n as i16 * dg as i16;
    let b = c.b as i16 + n as i16 * db as i16;
    Rgb { r: r as u8, g: g as u8, b: b as u8 }
}

/// `m` with one more batch at its end.
fn extended(m: &Vec<(Snack, u8)>, batch: (Snack, u8)) -> (r: Vec<(Snack, u8)>)
    ensures
        r@ == m@.push(batch),
{
    let mut r: Vec<(Snack, u8)> = Vec::new();
    let mut i: usize = 0;
    while i < m.len()
        invariant
            i <= m@.len(),
            r@ == m@.subrange(0, i as int),
        decreases m@.len() - i,
    {
        r.push(m[i]);
        i = i + 1;
    }
    assert(m@.subrange(0, m@.len() as int) == m@);
    r.push(batch);
    r
}

/// The backtracking step: the shortest menu that extends `current_menu` with
/// the snacks of `remaining`, eaten from `current_color`.
fn backtrack(remaining: SnackList, current_color: Rgb, current_menu: Vec<(Snack, u8)>) -> (res:
    Option<Vec<(Snack, u8)>>)
    ensures
        opt_view(res) == menu_search(remaining.counts@, current_color, current_menu@),
    decreases total(remaining.counts@),
{
    let ghost rem = remaining.counts@;
    let mut best: Option<Vec<(Snack, u8)>> = None;
    let mut stuck = false;
    let mut k: usize = 0;
    while k < 6
        invariant
            k <= 6,
            rem == remaining.counts@,
            rem.len() == 6,
            (stuck, opt_view(best)) == best_branch(rem, current_color, current_menu@, k as int),
        decreases 6 - k,
    {
        let s = Snack::from_index(k);
        let count = remaining.get(s);
        let q = usable_count(current_color, s);
        let n = if q < count {
            q
        } else {
            count
        };
        proof {
            lemma_total_update(rem, k as int, (count - n) as u8);
        }
        if n != 0 {
            let mut rem2 = remaining;
            rem2.set(s, count - n);
            let c2 = advance_by(current_color, s, n);
            let m2 = extended(&current_menu, (s, n));
            let r = backtrack(rem2, c2, m2);
            match r {
                None => {
                    stuck = true;
                },
                Some(x) => {
                    match best {
                        None => {
                            best = Some(x);
                        },
                        Some(y) => {
                            if x.len() < y.len() {
                                best = Some(x);
                            } else {
                                best = Some(y);
                            }
                        },
                    }
                },
            }
        }
        k = k + 1;
    }
    if stuck {
        return None;
    }
    match best {
        Some(x) => Some(x),
        None => {
            if remaining.is_empty() {
                Some(current_menu)
            } else {
                None
            }
        },
    }
}

/// `n` snacks `s` in a row.
pub open spec fn repeat(s: Snack, n: nat) -> Seq<Snack> {
    Seq::new(n, |i: int| s)
}

/// The color after eating the batches in order, one snack at a time; `None`
/// if a component overflows at any point.
pub open spec fn apply_batches(c: Rgb, b: Seq<(Snack, u8)>) -> Option<Rgb>
    decreases b.len(),
{
    if b.len() == 0 {
        Some(c)
    } else {
        match apply_snacks(c, repeat(b[0].0, b[0].1 as nat)) {
            Some(x) => apply_batches(x, b.drop_first()),
            None => None,
        }
    }
}

/// One component of a color: red, green or blue for `ch` 0, 1 or 2.
pub open spec fn chan(c: Rgb, ch: int) -> int {
    if ch == 0 {
        c.r as int
    } else if ch == 1 {
        c.g as int
    } else {
        c.b as int
    }
}

/// One component of a snack's effect.
pub open spec fn delta(s: Snack, ch: int) -> int {
    if ch == 0 {
        effect_of(s).0 as int
    } else if ch == 1 {
        effect_of(s).1 as int
    } else {
        effect_of(s).2 as int
    }
}

/// How far eating `k[i]` snacks of each kind `i` moves component `ch`.
pub open spec fn displacement(k: Seq<int>, ch: int) -> int {
    k[0] * delta(Snack::Apple, ch) + k[1] * delta(Snack::Pear, ch) + k[2] * delta(Snack::Berries, ch)
        + k[3] * delta(Snack::Plum, ch) + k[4] * delta(Snack::Fruit, ch) + k[5] * delta(
        Snack::Pineapple,
        ch,
    )
}

/// The counts of a list of snacks, per kind.
pub open spec fn counts_of(m: Seq<Snack>) -> Seq<int> {
    Seq::new(6, |i: int| occurrences(m, snack_at(i)))
}

/// Counts as integers.
pub open spec fn as_ints(k: Seq<u8>) -> Seq<int> {
    Seq::new(6, |i: int| k[i] as int)
}

/// Whether `e` is `c` moved by eating the snacks counted in `k`.
pub open spec fn moved_by(c: Rgb, k: Seq<int>, e: Rgb) -> bool {
    forall|ch: int| 0 <= ch < 3 ==> #[trigger] chan(e, ch) == chan(c, ch) + displacement(k, ch)
}

/// One snack moves each component by its effect.
proof fn lemma_alter_moves(s: Snack, c: Rgb)
    ensures
        alter_spec(s, c) matches Some(e) ==> forall|ch: int|
            0 <= ch < 3 ==> #[trigger] chan(e, ch) == chan(c, ch) + delta(s, ch),
{
}

/// Eating a list of snacks moves each component by the sum of their effects,
/// whatever their order.
pub proof fn lemma_apply_snacks_moves(c: Rgb, m: Seq<Snack>)
    ensures
        apply_snacks(c, m) matches Some(e) ==> moved_by(c, counts_of(m), e),
    decreases m.len(),
{
    if m.len() > 0 {
        let p = m.drop_last();
        let s = m.last();
        lemma_apply_snacks_moves(c, p);
        if let Some(x) = apply_snacks(c, p) {
            lemma_alter_moves(s, x);
            if let Some(e) = alter_spec(s, x) {
                assert forall|i: int| 0 <= i < 6 implies #[trigger] counts_of(m)[i] == counts_of(p)[i]
                    + if s == snack_at(i) {
                    1int
                } else {
                    0int
                } by {}
                assert forall|ch: int| 0 <= ch < 3 implies #[trigger] chan(e, ch) == chan(c, ch)
                    + displacement(counts_of(m), ch) by {
                    assert(chan(x, ch) == chan(c, ch) + displacement(counts_of(p), ch));
                    assert(displacement(counts_of(m), ch) == displacement(counts_of(p), ch) + delta(
                        s,
                        ch,
                    )) by {
                        let i = snack_index(s);
                        assert(snack_at(i) == s);
                        assert(forall|j: int|
                            0 <= j < 6 && j != i ==> snack_at(j) != s && counts_of(p)[j] == counts_of(m)[j]);
                        lemma_displacement_step(counts_of(m), counts_of(p), i, 1, ch);
                    }
                }
            }
        }
    }
}

/// Eating `n <= usable(c, s)` snacks `s` one at a time never overflows and
/// reaches `advance(c, s, n)`.
pub proof fn lemma_batch_fits(c: Rgb, s: Snack, n: nat)
    requires
        n <= usable(c, s),
    ensures
        apply_snacks(c, repeat(s, n)) == Some(advance(c, s, n as int)),
    decreases n,
{
    let (dr, dg, db) = effect_of(s);
    lemma_room(c.r, dr, n as int);
    lemma_room(c.g, dg, n as int);
    lemma_room(c.b, db, n as int);
    if n == 0 {
        assert(repeat(s, 0) =~= Seq::<Snack>::empty());
    } else {
        lemma_batch_fits(c, s, (n - 1) as nat);
        assert(repeat(s, n).drop_last() =~= repeat(s, (n - 1) as nat));
        lemma_room(c.r, dr, n - 1);
        lemma_room(c.g, dg, n - 1);
        lemma_room(c.b, db, n - 1);
        let x = advance(c, s, n - 1);
        assert(x.r + dr == c.r + n * dr) by (nonlinear_arith)
            requires
                x.r == c.r + (n - 1) * dr,
        ;
        assert(x.g + dg == c.g + n * dg) by (nonlinear_arith)
            requires
                x.g == c.g + (n - 1) * dg,
        ;
        assert(x.b + db == c.b + n * db) by (nonlinear_arith)
            requires
                x.b == c.b + (n - 1) * db,
        ;
    }
}

/// What the backtracking returns extends `menu` with batches that can be
/// eaten from `c` without overflow and that move it by exactly the counts of `rem`.
pub open spec fn completes(rem: Seq<u8>, c: Rgb, menu: Seq<(Snack, u8)>, r: Seq<(Snack, u8)>) -> bool {
    &&& menu.len() <= r.len()
    &&& r.subrange(0, menu.len() as int) == menu
    &&& apply_batches(c, r.subrange(menu.len() as int, r.len() as int)) matches Some(e)
    &&& moved_by(c, as_ints(rem), e)
}

/// Every menu the backtracking returns completes its starting menu.
proof fn lemma_search_completes(rem: Seq<u8>, c: Rgb, menu: Seq<(Snack, u8)>)
    requires
        rem.len() == 6,
    ensures
        menu_search(rem, c, menu) matches Some(r) ==> completes(rem, c, menu, r),
    decreases total(rem), 7int,
{
    lemma_branch_completes(rem, c, menu, 6);
    let (stuck, best) = best_branch(rem, c, menu, 6);
    if !stuck && best is None && forall|i: int| 0 <= i < 6 ==> #[trigger] rem[i] == 0 {
        assert(menu.subrange(0, menu.len() as int) =~= menu);
        assert(menu.subrange(menu.len() as int, menu.len() as int) =~= Seq::<(Snack, u8)>::empty());
        assert(forall|ch: int| 0 <= ch < 3 ==> displacement(as_ints(rem), ch) == 0);
    }
}

/// Every menu a scan of branches keeps completes its starting menu.
proof fn lemma_branch_completes(rem: Seq<u8>, c: Rgb, menu: Seq<(Snack, u8)>, k: int)
    requires
        rem.len() == 6,
    ensures
        best_branch(rem, c, menu, k).1 matches Some(r) ==> completes(rem, c, menu, r),
    decreases total(rem), k,
{
    if 0 < k <= 6 {
        lemma_branch_completes(rem, c, menu, k - 1);
        let s = snack_at(k - 1);
        let n = batch_size(rem, c, s);
        let rem2 = rem.update(k - 1, (rem[k - 1] - n) as u8);
        if n > 0 {
            lemma_total_update(rem, k - 1, (rem[k - 1] - n) as u8);
            let c2 = advance(c, s, n);
            let menu2 = menu.push((s, n as u8));
            lemma_search_completes(rem2, c2, menu2);
            if let Some(x) = menu_search(rem2, c2, menu2) {
                let tail = x.subrange(menu.len() as int, x.len() as int);
                let tail2 = x.subrange(menu2.len() as int, x.len() as int);
                assert(x.subrange(0, menu.len() as int) =~= menu) by {
                    assert(x.subrange(0, menu.len() as int) =~= menu2.subrange(0, menu.len() as int));
                }
                assert(tail[0] == (s, n as u8)) by {
                    assert(x[menu.len() as int] == menu2[menu.len() as int]);
                }
                assert(tail.drop_first() =~= tail2);
                lemma_batch_fits(c, s, n as nat);
                let e = apply_batches(c2, tail2)->0;
                assert forall|ch: int| 0 <= ch < 3 implies #[trigger] chan(e, ch) == chan(c, ch)
                    + displacement(as_ints(rem), ch) by {
                    assert(chan(e, ch) == chan(c2, ch) + displacement(as_ints(rem2), ch));
                    assert(chan(c2, ch) == chan(c, ch) + n * delta(s, ch));
                    assert(displacement(as_ints(rem), ch) == displacement(as_ints(rem2), ch) + n
                        * delta(s, ch)) by {
                        assert(snack_index(s) == k - 1);
                        assert(as_ints(rem2)[k - 1] == as_ints(rem)[k - 1] - n);
                        assert(forall|i: int|
                            0 <= i < 6 && i != k - 1 ==> as_ints(rem2)[i] == as_ints(rem)[i]);
                        lemma_displacement_step(as_ints(rem), as_ints(rem2), k - 1, n, ch);
                    }
                }
            }
        }
    }
}

/// Taking `n` snacks of kind `i` out of the counts takes their effect out of the displacement.
proof fn lemma_displacement_step(a: Seq<int>, b: Seq<int>, i: int, n: int, ch: int)
    requires
        a.len() == 6,
        b.len() == 6,
        0 <= i < 6,
        b[i] == a[i] - n,
        forall|j: int| 0 <= j < 6 && j != i ==> b[j] == a[j],
    ensures
        displacement(a, ch) == displacement(b, ch) + n * delta(snack_at(i), ch),
{
    assert(a[i] * delta(snack_at(i), ch) == b[i] * delta(snack_at(i), ch) + n * delta(
        snack_at(i),
        ch,
    )) by (nonlinear_arith)
        requires
            b[i] == a[i] - n,
    ;
}

/// Regrouping a meal does not change where it ends: if eating `meal` in
/// order from `start` never overflows, and `snacks` counts its snacks, then
/// the menu made of `snacks`, eaten batch by batch, never overflows either and
/// ends on the same color.
pub proof fn lemma_menu_reaches_meal_end(start: Dye, meal: Seq<Snack>, snacks: SnackList)
    requires
        apply_snacks(dye_color(start), meal) is Some,
        forall|s: Snack| #[trigger] snacks.count(s) == occurrences(meal, s),
        menu_of(start, snacks) is Some,
    ensures
        apply_batches(dye_color(start), menu_of(start, snacks)->0) == apply_snacks(
            dye_color(start),
            meal,
        ),
{
    let c = dye_color(start);
    let r = menu_of(start, snacks)->0;
    lemma_search_completes(snacks.counts@, c, Seq::empty());
    assert(r.subrange(0, r.len() as int) =~= r);
    lemma_apply_snacks_moves(c, meal);
    let e1 = apply_batches(c, r)->0;
    let e2 = apply_snacks(c, meal)->0;
    assert(as_ints(snacks.counts@) =~= counts_of(meal)) by {
        assert forall|i: int| 0 <= i < 6 implies as_ints(snacks.counts@)[i] == counts_of(meal)[i] by {
            assert(snack_index(snack_at(i)) == i);
            assert(snacks.count(snack_at(i)) == occurrences(meal, snack_at(i)));
        }
    }
    assert(chan(e1, 0) == chan(e2, 0));
    assert(chan(e1, 1) == chan(e2, 1));
    assert(chan(e1, 2) == chan(e2, 2));
    assert(e1 == e2);
}

/// Regroups the snacks of a meal into as few batches as the backtracking
/// finds, so that eating each batch in order from `starting_dye` never makes
/// a component overflow. For each snack it tries the largest batch that fits,
/// then recurses, and keeps the menu with the fewest batches (earliest on
/// ties). `None` where a branch is left with snacks of which none can be eaten.
pub fn make_menu(starting_dye: Dye, snacks: SnackList) -> (res: Option<Vec<(Snack, u8)>>)
    ensures
        opt_view(res) == menu_of(starting_dye, snacks),
        res matches Some(r) ==> apply_batches(dye_color(starting_dye), r@) matches Some(e)
            && moved_by(dye_color(starting_dye), as_ints(snacks.counts@), e),
{
    let r = backtrack(snacks, starting_dye.color(), Vec::new());
    proof {
        lemma_search_completes(snacks.counts@, dye_color(starting_dye), Seq::empty());
        if r is Some {
            let x = r->0;
            assert(x@.subrange(0, x@.len() as int) =~= x@);
        }
    }
    r
}

} // verus!
