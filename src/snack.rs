use vstd::prelude::*;

use crate::rgb::{shifted, Rgb};

verus! {

/// A type of bitter fruit that changes the hue of the chocobos that eat it.
#[derive(Clone, Copy, PartialEq, Eq, Structural, Debug, Hash)]
pub enum Snack {
    /// Xelphatol Apples: increase red, reduce green and blue.
    Apple,
    /// Mamook Pears: increase green, reduce red and blue.
    Pear,
    /// O'Ghomoro Berries: increase blue, reduce red and green.
    Berries,
    /// Doman Plums: increase green and blue, reduce red.
    Plum,
    /// Valfruits: increase red and blue, reduce green.
    Fruit,
    /// Cieldalaes Pineapples: increase red and green, reduce blue.
    Pineapple,
}

/// The position of a snack in the enumeration order.
pub open spec fn snack_index(s: Snack) -> int {
    match s {
        Snack::Apple => 0,
        Snack::Pear => 1,
        Snack::Berries => 2,
        Snack::Plum => 3,
        Snack::Fruit => 4,
        Snack::Pineapple => 5,
    }
}

/// The snack at a position of the enumeration order.
pub open spec fn snack_at(i: int) -> Snack {
    if i == 0 {
        Snack::Apple
    } else if i == 1 {
        Snack::Pear
    } else if i == 2 {
        Snack::Berries
    } else if i == 3 {
        Snack::Plum
    } else if i == 4 {
        Snack::Fruit
    } else {
        Snack::Pineapple
    }
}

/// The change a snack makes to the red, green and blue components.
pub open spec fn effect_of(s: Snack) -> (i8, i8, i8) {
    match s {
        Snack::Apple => (5i8, -5i8, -5i8),
        Snack::Pear => (-5i8, 5i8, -5i8),
        Snack::Berries => (-5i8, -5i8, 5i8),
        Snack::Plum => (-5i8, 5i8, 5i8),
        Snack::Fruit => (5i8, -5i8, 5i8),
        Snack::Pineapple => (5i8, 5i8, -5i8),
    }
}

/// The snack whose effect cancels that of `s`.
pub open spec fn negation_of(s: Snack) -> Snack {
    match s {
        Snack::Apple => Snack::Plum,
        Snack::Pear => Snack::Fruit,
        Snack::Berries => Snack::Pineapple,
        Snack::Plum => Snack::Apple,
        Snack::Fruit => Snack::Pear,
        Snack::Pineapple => Snack::Berries,
    }
}

/// The color after eating one snack, if no component overflows.
pub open spec fn alter_spec(s: Snack, c: Rgb) -> Option<Rgb> {
    shifted(c, effect_of(s).0, effect_of(s).1, effect_of(s).2)
}

/// The color after eating the snacks of `m` in order, if no component ever overflows.
pub open spec fn apply_snacks(c: Rgb, m: Seq<Snack>) -> Option<Rgb>
    decreases m.len(),
{
    if m.len() == 0 {
        Some(c)
    } else {
        match apply_snacks(c, m.drop_last()) {
            Some(c1) => alter_spec(m.last(), c1),
            None => None,
        }
    }
}

/// Each snack's effect plus that of its negation is zero in every component.
pub proof fn lemma_negation_cancels(s: Snack)
    ensures
        effect_of(s).0 + effect_of(negation_of(s)).0 == 0,
        effect_of(s).1 + effect_of(negation_of(s)).1 == 0,
        effect_of(s).2 + effect_of(negation_of(s)).2 == 0,
        negation_of(negation_of(s)) == s,
{
}

impl Snack {
    /// Returns the position of `self` in the enumeration order.
    pub fn index(self) -> (i: usize)
        ensures
            i as int == snack_index(self),
            i < 6,
    {
        match self {
            Snack::Apple => 0,
            Snack::Pear => 1,
            Snack::Berries => 2,
            Snack::Plum => 3,
            Snack::Fruit => 4,
            Snack::Pineapple => 5,
        }
    }

    /// Returns the snack at position `i` of the enumeration order.
    pub fn from_index(i: usize) -> (s: Snack)
        requires
            i < 6,
        ensures
            s == snack_at(i as int),
            snack_index(s) == i,
    {
        if i == 0 {
            Snack::Apple
        } else if i == 1 {
            Snack::Pear
        } else if i == 2 {
            Snack::Berries
        } else if i == 3 {
            Snack::Plum
        } else if i == 4 {
            Snack::Fruit
        } else {
            Snack::Pineapple
        }
    }

    /// All six snacks, in enumeration order.
    pub fn values() -> (v: [Snack; 6])
        ensures
            forall|i: int| 0 <= i < 6 ==> #[trigger] v@[i] == snack_at(i),
    {
        [Snack::Apple, Snack::Pear, Snack::Berries, Snack::Plum, Snack::Fruit, Snack::Pineapple]
    }

    /// Returns the variant name of `self` in kebab-case.
    pub fn short_name(self) -> (n: &'static str)
        ensures
            n@ == snack_name(self),
    {
        match self {
            Snack::Apple => "apple",
            Snack::Pear => "pear",
            Snack::Berries => "berries",
            Snack::Plum => "plum",
            Snack::Fruit => "fruit",
            Snack::Pineapple => "pineapple",
        }
    }

    /// Returns the effect `self` has on a chocobo's plumage.
    pub fn effect(self) -> (e: (i8, i8, i8))
        ensures
            e == effect_of(self),
    {
        match self {
            Snack::Apple => (5, -5, -5),
            Snack::Pear => (-5, 5, -5),
            Snack::Berries => (-5, -5, 5),
            Snack::Plum => (-5, 5, 5),
            Snack::Fruit => (5, -5, 5),
            Snack::Pineapple => (5, 5, -5),
        }
    }

    /// Returns the color a chocobo would have if it ate this snack, or `None`
    /// if a component would overflow.
    pub fn alter(self, color: Rgb) -> (res: Option<Rgb>)
        ensures
            res == alter_spec(self, color),
    {
        let (r, g, b) = self.effect();
        color.checked_add_signed(r, g, b)
    }

    /// Returns the snack that nullifies the effect of `self`.
    pub fn neg(self) -> (n: Snack)
        ensures
            n == negation_of(self),
    {
        match self {
            Snack::Apple => Snack::Plum,
            Snack::Pear => Snack::Fruit,
            Snack::Berries => Snack::Pineapple,
            Snack::Plum => Snack::Apple,
            Snack::Fruit => Snack::Pear,
            Snack::Pineapple => Snack::Berries,
        }
    }
}

/// The kebab-case name of a snack.
pub open spec fn snack_name(s: Snack) -> Seq<char> {
    match s {
        Snack::Apple => "apple"@,
        Snack::Pear => "pear"@,
        Snack::Berries => "berries"@,
        Snack::Plum => "plum"@,
        Snack::Fruit => "fruit"@,
        Snack::Pineapple => "pineapple"@,
    }
}

/// The sum of a sequence of counts.
pub open spec fn total(s: Seq<u8>) -> nat
    decreases s.len(),
{
    if s.len() == 0 {
        0
    } else {
        total(s.drop_last()) + s.last() as nat
    }
}

/// How many counts of a sequence are not zero.
pub open spec fn nonzero(s: Seq<u8>) -> int
    decreases s.len(),
{
    if s.len() == 0 {
        0
    } else {
        nonzero(s.drop_last()) + if s.last() != 0 {
            1int
        } else {
            0int
        }
    }
}

/// How many times `s` occurs in `m`.
pub open spec fn occurrences(m: Seq<Snack>, s: Snack) -> int
    decreases m.len(),
{
    if m.len() == 0 {
        0
    } else {
        occurrences(m.drop_last(), s) + if m.last() == s {
            1int
        } else {
            0int
        }
    }
}

/// Occurrences in a prefix never exceed those in the whole sequence.
proof fn lemma_occurrences_prefix(m: Seq<Snack>, i: int, s: Snack)
    requires
        0 <= i <= m.len(),
    ensures
        occurrences(m.subrange(0, i), s) <= occurrences(m, s),
    decreases m.len(),
{
    if i < m.len() {
        assert(m.drop_last().subrange(0, i) == m.subrange(0, i));
        lemma_occurrences_prefix(m.drop_last(), i, s);
    } else {
        assert(m.subrange(0, i) == m);
    }
}

/// An unordered collection of snacks: how many of each of the six kinds, from 0 to 255.
#[derive(Clone, Copy, PartialEq, Eq, Debug, Hash)]
pub struct SnackList {
    /// The count of each snack, in enumeration order.
    pub counts: [u8; 6],
}

impl SnackList {
    /// How many times `s` is contained within `self`.
    pub open spec fn count(self, s: Snack) -> int {
        self.counts@[snack_index(s)] as int
    }

    /// Whether every count is zero.
    pub open spec fn spec_is_empty(self) -> bool {
        forall|i: int| 0 <= i < 6 ==> #[trigger] self.counts@[i] == 0
    }

    /// Creates a new, empty `SnackList`.
    pub fn new() -> (l: SnackList)
        ensures
            l.spec_is_empty(),
            forall|s: Snack| #[trigger] l.count(s) == 0,
    {
        SnackList { counts: [0u8; 6] }
    }

    /// Returns how many times a [`Snack`] is contained within `self`.
    pub fn get(&self, snack: Snack) -> (n: u8)
        ensures
            n as int == self.count(snack),
    {
        self.counts[snack.index()]
    }

    /// Sets how many times a [`Snack`] is contained within `self`.
    pub fn set(&mut self, snack: Snack, value: u8)
        ensures
            final(self).counts@ == old(self).counts@.update(snack_index(snack), value),
    {
        let i = snack.index();
        self.counts[i] = value;
    }

    /// Adds `n` snacks of one kind to `self`.
    pub fn add(&mut self, snack: Snack, n: u8)
        requires
            old(self).count(snack) + n <= 255,
        ensures
            final(self).counts@ == old(self).counts@.update(
                snack_index(snack),
                (old(self).count(snack) + n) as u8,
            ),
    {
        let v = self.get(snack) + n;
        self.set(snack, v);
    }

    /// Returns `true` if `self` has no snacks.
    pub fn is_empty(&self) -> (r: bool)
        ensures
            r == self.spec_is_empty(),
    {
        self.counts[0] == 0 && self.counts[1] == 0 && self.counts[2] == 0 && self.counts[3] == 0
            && self.counts[4] == 0 && self.counts[5] == 0
    }

    /// Returns how many snacks are contained within `self`.
    pub fn sum(&self) -> (n: u64)
        ensures
            n as int == total(self.counts@),
    {
        let mut acc: u64 = 0;
        let mut i: usize = 0;
        while i < 6
            invariant
                i <= 6,
                self.counts@.len() == 6,
                acc as int == total(self.counts@.subrange(0, i as int)),
                acc <= 255 * i,
            decreases 6 - i,
        {
            assert(self.counts@.subrange(0, i + 1).drop_last() == self.counts@.subrange(0, i as int));
            acc = acc + self.counts[i] as u64;
            i = i + 1;
        }
        assert(self.counts@.subrange(0, 6) == self.counts@);
        acc
    }

    /// Returns how many kinds of snack are contained within `self`.
    pub fn kinds(&self) -> (n: u8)
        ensures
            n as int == nonzero(self.counts@),
    {
        let mut count: u8 = 0;
        let mut i: usize = 0;
        while i < 6
            invariant
                i <= 6,
                self.counts@.len() == 6,
                count as int == nonzero(self.counts@.subrange(0, i as int)),
                count <= i,
            decreases 6 - i,
        {
            assert(self.counts@.subrange(0, i + 1).drop_last() == self.counts@.subrange(0, i as int));
            if self.counts[i] != 0 {
                count = count + 1;
            }
            i = i + 1;
        }
        assert(self.counts@.subrange(0, 6) == self.counts@);
        count
    }

    /// Counts the snacks of a slice; `None` if one kind occurs more than 255 times.
    pub fn from_slice(snacks: &[Snack]) -> (res: Option<SnackList>)
        ensures
            res is Some <==> forall|s: Snack| #[trigger] occurrences(snacks@, s) <= 255,
            res matches Some(l) ==> forall|s: Snack| #[trigger] l.count(s) == occurrences(snacks@, s),
    {
        let mut l = SnackList::new();
        let mut i: usize = 0;
        while i < snacks.len()
            invariant
                i <= snacks@.len(),
                forall|s: Snack| #[trigger] l.count(s) == occurrences(snacks@.subrange(0, i as int), s),
            decreases snacks@.len() - i,
        {
            let s = snacks[i];
            assert(snacks@.subrange(0, i + 1).drop_last() == snacks@.subrange(0, i as int));
            if l.get(s) == 255 {
                proof {
                    lemma_occurrences_prefix(snacks@, i + 1, s);
                }
                return None;
            }
            let ghost before = l;
            l.add(s, 1);
            assert forall|t: Snack| #[trigger] l.count(t) == occurrences(
                snacks@.subrange(0, i + 1),
                t,
            ) by {
                assert(before.count(t) == occurrences(snacks@.subrange(0, i as int), t));
                if t != s {
                    assert(snack_index(t) != snack_index(s));
                }
            }
            i = i + 1;
        }
        assert(snacks@.subrange(0, snacks@.len() as int) == snacks@);
        assert forall|t: Snack| #[trigger] occurrences(snacks@, t) <= 255 by {
            assert(l.count(t) == occurrences(snacks@, t));
        }
        Some(l)
    }

    /// The six `(snack, count)` pairs, in enumeration order.
    pub fn to_array(&self) -> (a: [(Snack, u8); 6])
        ensures
            forall|i: int| 0 <= i < 6 ==> #[trigger] a@[i] == (snack_at(i), self.counts@[i]),
    {
        [
            (Snack::Apple, self.counts[0]),
            (Snack::Pear, self.counts[1]),
            (Snack::Berries, self.counts[2]),
            (Snack::Plum, self.counts[3]),
            (Snack::Fruit, self.counts[4]),
            (Snack::Pineapple, self.counts[5]),
        ]
    }

    /// The counts packed one byte per snack into a `u64`, in enumeration order
    /// from the least significant byte, with the most significant bit set so that
    /// the value is never zero.
    pub fn packed(&self) -> (v: u64)
        ensures
            v as int == packed_value(self.counts@),
    {
        let c = self.counts;
        0x8000_0000_0000_0000u64 + c[0] as u64 + c[1] as u64 * 0x100 + c[2] as u64 * 0x1_0000
            + c[3] as u64 * 0x100_0000 + c[4] as u64 * 0x1_0000_0000 + c[5] as u64
            * 0x100_0000_0000
    }
}

/// The packed representation of six counts.
pub open spec fn packed_value(c: Seq<u8>) -> int {
    0x8000_0000_0000_0000 + c[0] + c[1] * 0x100 + c[2] * 0x1_0000 + c[3] * 0x100_0000 + c[4]
        * 0x1_0000_0000 + c[5] * 0x100_0000_0000
}

/// Setting a count and reading it back gives the value set; other counts are unchanged.
pub proof fn lemma_set_then_get(l: SnackList, s: Snack, v: u8, t: Snack)
    ensures
        l.counts@.update(snack_index(s), v)[snack_index(t)] == if s == t {
            v
        } else {
            l.counts@[snack_index(t)]
        },
{
}

} // verus!
