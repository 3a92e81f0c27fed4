//! Text effects (bold, italic, strikethrough, ...) and sets of them.
use vstd::prelude::*;

verus! {

/// A text effect, listed in ascending order of its SGR code
#[derive(Debug, Clone, Copy, PartialEq, Eq, Hash, Structural)]
pub enum Effect {
    /// Bold or increased intensity (1)
    Bold,
    /// Faint or decreased intensity (2)
    Dimmed,
    /// Italic (3)
    Italic,
    /// Underline (4)
    Underline,
    /// Slow blink (5)
    Blink,
    /// Rapid blink (6)
    BlinkFast,
    /// Swap foreground and background (7)
    Reverse,
    /// Concealed text (8)
    Hidden,
    /// Crossed-out text (9)
    Strikethrough,
    /// Doubly underlined (21)
    DoubleUnderline,
    /// Overlined (53)
    Overline,
}

/// The number of effects.
pub const EFFECT_COUNT: u8 = 11;

/// Every effect, in ascending order of bit position and of SGR code.
pub open spec fn all_effects() -> Seq<Effect> {
    seq![
        Effect::Bold,
        Effect::Dimmed,
        Effect::Italic,
        Effect::Underline,
        Effect::Blink,
        Effect::BlinkFast,
        Effect::Reverse,
        Effect::Hidden,
        Effect::Strikethrough,
        Effect::DoubleUnderline,
        Effect::Overline,
    ]
}

impl Effect {
    /// The bit that stands for this effect in an [`EffectFlags`].
    pub open spec fn bit(self) -> int {
        match self {
            Effect::Bold => 0,
            Effect::Dimmed => 1,
            Effect::Italic => 2,
            Effect::Underline => 3,
            Effect::Blink => 4,
            Effect::BlinkFast => 5,
            Effect::Reverse => 6,
            Effect::Hidden => 7,
            Effect::Strikethrough => 8,
            Effect::DoubleUnderline => 9,
            Effect::Overline => 10,
        }
    }

    /// The SGR code that turns this effect on.
    pub open spec fn spec_code(self) -> u8 {
        match self {
            Effect::Bold => 1,
            Effect::Dimmed => 2,
            Effect::Italic => 3,
            Effect::Underline => 4,
            Effect::Blink => 5,
            Effect::BlinkFast => 6,
            Effect::Reverse => 7,
            Effect::Hidden => 8,
            Effect::Strikethrough => 9,
            Effect::DoubleUnderline => 21,
            Effect::Overline => 53,
        }
    }

    /// The SGR code that turns this effect on.
    pub fn code(self) -> (r: u8)
        ensures
            r == self.spec_code(),
    {
        match self {
            Effect::Bold => 1,
            Effect::Dimmed => 2,
            Effect::Italic => 3,
            Effect::Underline => 4,
            Effect::Blink => 5,
            Effect::BlinkFast => 6,
            Effect::Reverse => 7,
            Effect::Hidden => 8,
            Effect::Strikethrough => 9,
            Effect::DoubleUnderline => 21,
            Effect::Overline => 53,
        }
    }

    /// The effect at bit position `bit`, if there is one.
    pub fn from_bit(bit: u8) -> (r: Option<Effect>)
        ensures
            r is Some <==> bit < EFFECT_COUNT,
            r matches Some(e) ==> e.bit() == bit as int && e == all_effects()[bit as int],
    {
        match bit {
            0 => Some(Effect::Bold),
            1 => Some(Effect::Dimmed),
            2 => Some(Effect::Italic),
            3 => Some(Effect::Underline),
            4 => Some(Effect::Blink),
            5 => Some(Effect::BlinkFast),
            6 => Some(Effect::Reverse),
            7 => Some(Effect::Hidden),
            8 => Some(Effect::Strikethrough),
            9 => Some(Effect::DoubleUnderline),
            10 => Some(Effect::Overline),
            _ => None,
        }
    }

    /// The set holding this effect alone.
    pub fn flags(self) -> (r: EffectFlags)
        ensures
            r@ == Set::<Effect>::empty().insert(self),
    {
        EffectFlags::new().with(self)
    }
}

/// Whether bit `bit` of `bits` is set.
pub open spec fn bit_set(bits: u16, bit: int) -> bool {
    (bits >> (bit as u16)) & 1u16 == 1u16
}

/// Membership in `s`, as a predicate.
pub open spec fn member_of(s: Set<Effect>) -> spec_fn(Effect) -> bool {
    |e: Effect| s.contains(e)
}

/// The members of `s` in ascending canonical order.
pub open spec fn members(s: Set<Effect>) -> Seq<Effect> {
    all_effects().filter(member_of(s))
}

/// A set of text effects, one bit per effect
#[derive(Debug, Clone, Copy, PartialEq, Eq, Hash)]
pub struct EffectFlags {
    bits: u16,
}

impl View for EffectFlags {
    type V = Set<Effect>;

    closed spec fn view(&self) -> Set<Effect> {
        Set::new(|e: Effect| bit_set(self.bits, e.bit()))
    }
}

proof fn lemma_bit_or(a: u16, b: u16, s: u16)
    requires
        s < 16,
    ensures
        (((a | b) >> s) & 1u16 == 1u16) == (((a >> s) & 1u16 == 1u16) || ((b >> s) & 1u16
            == 1u16)),
{
    assert((((a | b) >> s) & 1u16 == 1u16) == (((a >> s) & 1u16 == 1u16) || ((b >> s) & 1u16
        == 1u16))) by (bit_vector)
        requires
            s < 16,
    ;
}

proof fn lemma_bit_and_not(a: u16, b: u16, s: u16)
    requires
        s < 16,
    ensures
        (((a & !b) >> s) & 1u16 == 1u16) == (((a >> s) & 1u16 == 1u16) && !((b >> s) & 1u16
            == 1u16)),
{
    assert((((a & !b) >> s) & 1u16 == 1u16) == (((a >> s) & 1u16 == 1u16) && !((b >> s) & 1u16
        == 1u16))) by (bit_vector)
        requires
            s < 16,
    ;
}

proof fn lemma_bit_single(s: u16, t: u16)
    requires
        s < 16,
        t < 16,
    ensures
        (((1u16 << t) >> s) & 1u16 == 1u16) == (s == t),
        ((0u16 >> s) & 1u16 == 1u16) == false,
{
    assert((((1u16 << t) >> s) & 1u16 == 1u16) == (s == t)) by (bit_vector)
        requires
            s < 16,
            t < 16,
    ;
    assert(((0u16 >> s) & 1u16 == 1u16) == false) by (bit_vector);
}

impl EffectFlags {
    /// The empty set.
    pub fn new() -> (r: EffectFlags)
        ensures
            r@ == Set::<Effect>::empty(),
    {
        let r = EffectFlags { bits: 0 };
        assert forall|e: Effect| !r@.contains(e) by {
            lemma_bit_single(e.bit() as u16, 0);
        }
        assert(r@ =~= Set::<Effect>::empty());
        r
    }

    /// The bit mask of one effect.
    fn mask(e: Effect) -> (r: u16)
        ensures
            r == 1u16 << (e.bit() as u16),
    {
        let shift: u16 = match e {
            Effect::Bold => 0,
            Effect::Dimmed => 1,
            Effect::Italic => 2,
            Effect::Underline => 3,
            Effect::Blink => 4,
            Effect::BlinkFast => 5,
            Effect::Reverse => 6,
            Effect::Hidden => 7,
            Effect::Strikethrough => 8,
            Effect::DoubleUnderline => 9,
            Effect::Overline => 10,
        };
        1u16 << shift
    }

    /// Whether `e` is in the set.
    pub fn contains(self, e: Effect) -> (r: bool)
        ensures
            r == self@.contains(e),
    {
        let shift: u16 = match e {
            Effect::Bold => 0,
            Effect::Dimmed => 1,
            Effect::Italic => 2,
            Effect::Underline => 3,
            Effect::Blink => 4,
            Effect::BlinkFast => 5,
            Effect::Reverse => 6,
            Effect::Hidden => 7,
            Effect::Strikethrough => 8,
            Effect::DoubleUnderline => 9,
            Effect::Overline => 10,
        };
        (self.bits >> shift) & 1 == 1
    }

    /// The effects in either set.
    pub fn union(self, other: EffectFlags) -> (r: EffectFlags)
        ensures
            r@ == self@.union(other@),
    {
        let r = EffectFlags { bits: self.bits | other.bits };
        assert forall|e: Effect| r@.contains(e) == self@.union(other@).contains(e) by {
            lemma_bit_or(self.bits, other.bits, e.bit() as u16);
        }
        assert(r@ =~= self@.union(other@));
        r
    }

    /// The effects of `self` that are not in `other`.
    pub fn difference(self, other: EffectFlags) -> (r: EffectFlags)
        ensures
            r@ == self@.difference(other@),
    {
        let r = EffectFlags { bits: self.bits & !other.bits };
        assert forall|e: Effect| r@.contains(e) == self@.difference(other@).contains(e) by {
            lemma_bit_and_not(self.bits, other.bits, e.bit() as u16);
        }
        assert(r@ =~= self@.difference(other@));
        r
    }

    /// The set with `e` added.
    pub fn with(self, e: Effect) -> (r: EffectFlags)
        ensures
            r@ == self@.insert(e),
    {
        let m = Self::mask(e);
        let r = EffectFlags { bits: self.bits | m };
        assert forall|x: Effect| r@.contains(x) == self@.insert(e).contains(x) by {
            lemma_bit_or(self.bits, m, x.bit() as u16);
            lemma_bit_single(x.bit() as u16, e.bit() as u16);
        }
        assert(r@ =~= self@.insert(e));
        r
    }

    /// The set with `e` taken out.
    pub fn remove(self, e: Effect) -> (r: EffectFlags)
        ensures
            r@ == self@.remove(e),
    {
        let m = Self::mask(e);
        let r = EffectFlags { bits: self.bits & !m };
        assert forall|x: Effect| r@.contains(x) == self@.remove(e).contains(x) by {
            lemma_bit_and_not(self.bits, m, x.bit() as u16);
            lemma_bit_single(x.bit() as u16, e.bit() as u16);
        }
        assert(r@ =~= self@.remove(e));
        r
    }

    /// The members of the set, each once, in ascending canonical order.
    pub fn iter(self) -> (r: Vec<Effect>)
        ensures
            r@ == members(self@),
    {
        let mut r: Vec<Effect> = Vec::new();
        let mut i: u8 = 0;
        while i < EFFECT_COUNT
            invariant
                i <= EFFECT_COUNT,
                r@ == all_effects().take(i as int).filter(member_of(self@)),
            decreases EFFECT_COUNT - i,
        {
            let e = Effect::from_bit(i).unwrap();
            let ghost t = all_effects().take(i + 1);
            assert(t.drop_last() =~= all_effects().take(i as int));
            assert(t.last() == e);
            proof {
                reveal(Seq::filter);
            }
            if self.contains(e) {
                r.push(e);
            }
            assert(r@ =~= t.filter(member_of(self@)));
            i += 1;
        }
        assert(all_effects().take(EFFECT_COUNT as int) =~= all_effects());
        r
    }
}

proof fn lemma_all_effects_bits()
    ensures
        all_effects().len() == EFFECT_COUNT,
        forall|i: int| 0 <= i < EFFECT_COUNT ==> (#[trigger] all_effects()[i]).bit() == i,
        forall|e: Effect| 0 <= #[trigger] e.bit() < EFFECT_COUNT && all_effects()[e.bit()] == e,
{
}

proof fn lemma_members_prefix(s: Set<Effect>, n: int)
    requires
        0 <= n <= EFFECT_COUNT,
    ensures
        forall|j: int, k: int|
            0 <= j < k < all_effects().take(n).filter(member_of(s)).len() ==> (
            #[trigger] all_effects().take(n).filter(member_of(s))[j]).bit() < (
            #[trigger] all_effects().take(n).filter(member_of(s))[k]).bit(),
        forall|k: int|
            0 <= k < all_effects().take(n).filter(member_of(s)).len() ==> (
            #[trigger] all_effects().take(n).filter(member_of(s))[k]).bit() < n,
        forall|e: Effect|
            (s.contains(e) && e.bit() < n) <==> #[trigger] all_effects().take(n).filter(
                member_of(s),
            ).contains(e),
    decreases n,
{
    lemma_all_effects_bits();
    reveal(Seq::filter);
    let t = all_effects().take(n);
    if n == 0 {
        assert(t.filter(member_of(s)) =~= Seq::<Effect>::empty());
    } else {
        lemma_members_prefix(s, n - 1);
        let prev = all_effects().take(n - 1);
        assert(t.drop_last() =~= prev);
        let e = t.last();
        assert(e == all_effects()[n - 1]);
        let f = t.filter(member_of(s));
        let pf = prev.filter(member_of(s));
        if s.contains(e) {
            assert(f == pf.push(e));
            assert forall|x: Effect| (s.contains(x) && x.bit() < n) <==> f.contains(x) by {
                if f.contains(x) {
                    let k = choose|k: int| 0 <= k < f.len() && f[k] == x;
                    if k < pf.len() {
                        assert(pf[k] == x);
                    }
                }
                if s.contains(x) && x.bit() < n {
                    if x.bit() < n - 1 {
                        assert(pf.contains(x));
                        let k = choose|k: int| 0 <= k < pf.len() && pf[k] == x;
                        assert(f[k] == x);
                    } else {
                        assert(x == e);
                        assert(f[f.len() - 1] == x);
                    }
                }
            }
        } else {
            assert(f == pf);
            assert forall|x: Effect| (s.contains(x) && x.bit() < n) <==> f.contains(x) by {
                if s.contains(x) && x.bit() < n && x.bit() == n - 1 {
                    assert(x == e);
                }
            }
        }
    }
}

/// Iterating a set of effects yields each member exactly once, in strictly
/// ascending canonical order (ascending bit position, which is also ascending
/// SGR code), and nothing else.
pub proof fn lemma_members_ordered(s: Set<Effect>)
    ensures
        forall|j: int, k: int|
            0 <= j < k < members(s).len() ==> (#[trigger] members(s)[j]).bit() < (
            #[trigger] members(s)[k]).bit() && members(s)[j].spec_code() < members(s)[k].spec_code(),
        forall|e: Effect| s.contains(e) <==> #[trigger] members(s).contains(e),
{
    lemma_members_prefix(s, EFFECT_COUNT as int);
    assert(all_effects().take(EFFECT_COUNT as int) =~= all_effects());
    lemma_all_effects_bits();
    assert forall|e: Effect| s.contains(e) <==> #[trigger] members(s).contains(e) by {
        assert(e.bit() < EFFECT_COUNT);
    }
}

} // verus!
