//! Generation of a structurally valid value of a type, with an optional
//! constructor that replaces the type's default rule and an optional
//! transform applied afterwards.
use vstd::prelude::*;

use crate::entropy::{all_alphanumeric, true_coins, Draw, Source};
use crate::timestamp::Timestamp;

verus! {

/// The length of every generated string.
pub const TEXT_LEN: usize = 30;

/// `after` continues the log of `before`: what was drawn stays, and no coin
/// that came up true is lost.
pub open spec fn extends(before: Seq<Draw>, after: Seq<Draw>) -> bool {
    &&& before.len() <= after.len()
    &&& forall|i: int| 0 <= i < before.len() ==> #[trigger] after[i] == before[i]
    &&& true_coins(before) <= true_coins(after)
}

/// `r` is what `transformer` (or nothing) made of `base`, and `base` is what
/// `factory` built, or else (`by_default`) a value of the type's default rule.
pub open spec fn built_from<T, F: FnOnce() -> T, G: FnOnce(T) -> T>(
    factory: Option<F>,
    transformer: Option<G>,
    base: T,
    by_default: bool,
    r: T,
) -> bool {
    &&& (factory matches Some(f) ==> call_ensures(f, (), base))
    &&& (factory is None ==> by_default)
    &&& (transformer matches Some(g) ==> call_ensures(g, (base,), r))
    &&& (transformer is None ==> r == base)
}

pub trait Randr: Sized {
    /// What holds of every value that the type's default rule gives.
    spec fn generated(&self) -> bool;

    /// How the default rule took this value from the source: `before` and
    /// `after` are its draw logs around the call, `clock` its fixed instant.
    spec fn drawn_by(&self, before: Seq<Draw>, after: Seq<Draw>, clock: Option<Timestamp>) -> bool;

    /// The rule is a constant: it draws nothing and leaves the source as it
    /// was.
    spec fn draws_nothing() -> bool;

    /// The value that `factory` builds.
    fn factory<F: FnOnce() -> Self>(factory: F) -> (r: Self)
        requires
            call_requires(factory, ()),
        ensures
            call_ensures(factory, (), r),
    {
        factory()
    }

    /// The type's default rule, drawing on `src`.
    fn default<S: Source>(src: &mut S) -> (r: Self)
        ensures
            r.generated(),
            r.drawn_by(old(src).draws(), final(src).draws(), old(src).fixed_clock()),
            Self::draws_nothing() ==> *final(src) == *old(src),
            extends(old(src).draws(), final(src).draws()),
            final(src).fixed_clock() == old(src).fixed_clock(),
    ;

    /// The value from `factory`, or else from the default rule, passed
    /// through `transformer` when one is given. A constructor bypasses the
    /// default rule entirely: nothing is drawn from `src`.
    fn randr<S: Source, F: FnOnce() -> Self, G: FnOnce(Self) -> Self>(
        src: &mut S,
        factory: Option<F>,
        transformer: Option<G>,
    ) -> (r: Self)
        requires
            factory matches Some(f) ==> call_requires(f, ()),
            transformer matches Some(g) ==> forall|x: Self| call_requires(g, (x,)),
        ensures
            exists|base: Self| #[trigger] built_from(factory, transformer, base, base.generated(), r),
            factory is Some ==> *final(src) == *old(src),
    {
        let base = match factory {
            Some(f) => Self::factory(f),
            None => Self::default(src),
        };
        let ghost b = base;
        let r = match transformer {
            Some(g) => g(base),
            None => base,
        };
        assert(built_from(factory, transformer, b, b.generated(), r));
        r
    }
}

impl Randr for String {
    open spec fn draws_nothing() -> bool {
        false
    }

    open spec fn generated(&self) -> bool {
        self@.len() == TEXT_LEN && all_alphanumeric(self@)
    }

    /// One draw, returned as it came.
    open spec fn drawn_by(&self, before: Seq<Draw>, after: Seq<Draw>, clock: Option<Timestamp>) -> bool {
        after == before.push(Draw::Text(self@))
    }

    fn default<S: Source>(src: &mut S) -> (r: Self) {
        let r = src.text(TEXT_LEN);
        assert(r.drawn_by(old(src).draws(), src.draws(), old(src).fixed_clock()));
        assert(!<String as Randr>::draws_nothing());
        r
    }
}

impl Randr for i64 {
    open spec fn draws_nothing() -> bool {
        false
    }

    open spec fn generated(&self) -> bool {
        true
    }

    /// One draw, returned as it came.
    open spec fn drawn_by(&self, before: Seq<Draw>, after: Seq<Draw>, clock: Option<Timestamp>) -> bool {
        after == before.push(Draw::Int64(*self))
    }

    fn default<S: Source>(src: &mut S) -> (r: Self) {
        let r = src.int64();
        assert(r.drawn_by(old(src).draws(), src.draws(), old(src).fixed_clock()));
        assert(!<i64 as Randr>::draws_nothing());
        r
    }
}

impl Randr for i16 {
    open spec fn draws_nothing() -> bool {
        false
    }

    open spec fn generated(&self) -> bool {
        true
    }

    /// One draw, returned as it came.
    open spec fn drawn_by(&self, before: Seq<Draw>, after: Seq<Draw>, clock: Option<Timestamp>) -> bool {
        after == before.push(Draw::Int16(*self))
    }

    fn default<S: Source>(src: &mut S) -> (r: Self) {
        let r = src.int16();
        assert(r.drawn_by(old(src).draws(), src.draws(), old(src).fixed_clock()));
        assert(!<i16 as Randr>::draws_nothing());
        r
    }
}

impl Randr for bool {
    open spec fn draws_nothing() -> bool {
        false
    }

    open spec fn generated(&self) -> bool {
        true
    }

    /// One draw, returned as it came.
    open spec fn drawn_by(&self, before: Seq<Draw>, after: Seq<Draw>, clock: Option<Timestamp>) -> bool {
        after == before.push(Draw::Coin(*self))
    }

    fn default<S: Source>(src: &mut S) -> (r: Self) {
        let r = src.coin();
        assert(r.drawn_by(old(src).draws(), src.draws(), old(src).fixed_clock()));
        assert(!<bool as Randr>::draws_nothing());
        r
    }
}

impl Randr for Timestamp {
    open spec fn draws_nothing() -> bool {
        false
    }

    open spec fn generated(&self) -> bool {
        true
    }

    /// One draw, returned as it came.
    open spec fn drawn_by(&self, before: Seq<Draw>, after: Seq<Draw>, clock: Option<Timestamp>) -> bool {
        after == before.push(Draw::Clock(*self)) && (clock matches Some(t) ==> *self == t)
    }

    fn default<S: Source>(src: &mut S) -> (r: Self) {
        let r = src.now();
        assert(r.drawn_by(old(src).draws(), src.draws(), old(src).fixed_clock()));
        assert(!<Timestamp as Randr>::draws_nothing());
        r
    }
}

impl<T: Randr> Randr for Option<T> {
    open spec fn draws_nothing() -> bool {
        false
    }

    open spec fn generated(&self) -> bool {
        self matches Some(t) ==> t.generated()
    }

    /// One presence coin; only when it comes up true is `T`'s rule run.
    open spec fn drawn_by(&self, before: Seq<Draw>, after: Seq<Draw>, clock: Option<Timestamp>) -> bool {
        &&& before.len() < after.len()
        &&& after[before.len() as int] == Draw::Coin(self is Some)
        &&& self is None ==> after == before.push(Draw::Coin(false))
        &&& self is Some ==> true_coins(before) < true_coins(after)
        &&& self matches Some(t) ==> t.drawn_by(before.push(Draw::Coin(true)), after, clock)
    }

    fn default<S: Source>(src: &mut S) -> (r: Self) {
        let r = if src.coin() {
            let ghost mid = src.draws();
            let t = T::default(src);
            assert(t.drawn_by(mid, src.draws(), src.fixed_clock()));
            Some(t)
        } else {
            None
        };
        assert(r.drawn_by(old(src).draws(), src.draws(), old(src).fixed_clock()));
        assert(!<Option<T> as Randr>::draws_nothing());
        r
    }
}

} // verus!
