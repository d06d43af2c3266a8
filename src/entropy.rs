//! The entropy and clock that generation draws on, passed in explicitly so
//! that a seeded source replays the same records.
use vstd::prelude::*;

use rand::distributions::DistString;
use rand::Rng;
use rand::SeedableRng;

use crate::timestamp::{valid_parts, Timestamp};

verus! {

/// rand's standard seedable generator, carried through opaquely.
#[verifier::external_type_specification]
#[verifier::external_body]
pub struct ExStdRng(rand::rngs::StdRng);

pub open spec fn is_alphanumeric(c: char) -> bool {
    ('A' <= c <= 'Z') || ('a' <= c <= 'z') || ('0' <= c <= '9')
}

pub open spec fn all_alphanumeric(s: Seq<char>) -> bool {
    forall|i: int| 0 <= i < s.len() ==> is_alphanumeric(#[trigger] s[i])
}

/// One value drawn from a source.
pub enum Draw {
    Coin(bool),
    Int64(i64),
    Int16(i16),
    Text(Seq<char>),
    Clock(Timestamp),
}

/// How many of the draws are coins that came up true.
pub open spec fn true_coins(d: Seq<Draw>) -> nat
    decreases d.len(),
{
    if d.len() == 0 {
        0
    } else {
        true_coins(d.drop_last()) + if d.last() == Draw::Coin(true) {
            1nat
        } else {
            0nat
        }
    }
}

pub proof fn lemma_true_coins_push(d: Seq<Draw>, x: Draw)
    ensures
        true_coins(d.push(x)) == true_coins(d) + if x == Draw::Coin(true) {
            1nat
        } else {
            0nat
        },
{
    assert(d.push(x).drop_last() =~= d);
}

/// What value generation draws on: fair coins, integers over their whole
/// range, alphanumeric text and the current date and time.
///
/// Each source keeps the log of what it has drawn, and may hold a fixed
/// instant that its clock always reads.
pub trait Source {
    spec fn draws(&self) -> Seq<Draw>;

    spec fn fixed_clock(&self) -> Option<Timestamp>;

    fn coin(&mut self) -> (r: bool)
        ensures
            final(self).draws() == old(self).draws().push(Draw::Coin(r)),
            true_coins(final(self).draws()) == true_coins(old(self).draws()) + if r {
                1nat
            } else {
                0nat
            },
            final(self).fixed_clock() == old(self).fixed_clock(),
    ;

    fn int64(&mut self) -> (r: i64)
        ensures
            final(self).draws() == old(self).draws().push(Draw::Int64(r)),
            true_coins(final(self).draws()) == true_coins(old(self).draws()),
            final(self).fixed_clock() == old(self).fixed_clock(),
    ;

    fn int16(&mut self) -> (r: i16)
        ensures
            final(self).draws() == old(self).draws().push(Draw::Int16(r)),
            true_coins(final(self).draws()) == true_coins(old(self).draws()),
            final(self).fixed_clock() == old(self).fixed_clock(),
    ;

    fn text(&mut self, len: usize) -> (r: String)
        ensures
            r@.len() == len,
            all_alphanumeric(r@),
            final(self).draws() == old(self).draws().push(Draw::Text(r@)),
            true_coins(final(self).draws()) == true_coins(old(self).draws()),
            final(self).fixed_clock() == old(self).fixed_clock(),
    ;

    fn now(&mut self) -> (r: Timestamp)
        ensures
            old(self).fixed_clock() matches Some(t) ==> r == t,
            final(self).draws() == old(self).draws().push(Draw::Clock(r)),
            true_coins(final(self).draws()) == true_coins(old(self).draws()),
            final(self).fixed_clock() == old(self).fixed_clock(),
    ;
}

/// Relies on rand's StdRng::from_entropy: a generator seeded by the system.
#[verifier::external_body]
fn rng_from_entropy() -> rand::rngs::StdRng {
    rand::rngs::StdRng::from_entropy()
}

/// Relies on rand's StdRng::seed_from_u64: a generator fixed by the seed.
#[verifier::external_body]
fn rng_from_seed(seed: u64) -> rand::rngs::StdRng {
    rand::rngs::StdRng::seed_from_u64(seed)
}

/// Relies on rand's Rng::gen for `bool`: a fair coin.
#[verifier::external_body]
fn rng_bool(rng: &mut rand::rngs::StdRng) -> bool {
    rng.gen::<bool>()
}

/// Relies on rand's Rng::gen for `i64`: uniform over the whole range.
#[verifier::external_body]
fn rng_i64(rng: &mut rand::rngs::StdRng) -> i64 {
    rng.gen::<i64>()
}

/// Relies on rand's Rng::gen for `i16`: uniform over the whole range.
#[verifier::external_body]
fn rng_i16(rng: &mut rand::rngs::StdRng) -> i16 {
    rng.gen::<i16>()
}

/// Relies on rand's DistString::sample_string for Alphanumeric: `len`
/// characters, each drawn from `A-Z`, `a-z` and `0-9`.
#[verifier::external_body]
fn rng_alphanumeric(rng: &mut rand::rngs::StdRng, len: usize) -> (r: String)
    ensures
        r@.len() == len,
        all_alphanumeric(r@),
{
    rand::distributions::Alphanumeric.sample_string(rng, len)
}

/// Relies on time::OffsetDateTime::now_utc: the current date and time in UTC,
/// as its year, day of the year, hour, minute, second and nanosecond, each of
/// which `time` keeps in range.
#[verifier::external_body]
fn now_utc_parts() -> (r: (i32, u16, u8, u8, u8, u32))
    ensures
        valid_parts(r.0 as int, r.1 as int, r.2 as int, r.3 as int, r.4 as int, r.5 as int),
{
    let n = time::OffsetDateTime::now_utc();
    (n.year(), n.ordinal(), n.hour(), n.minute(), n.second(), n.nanosecond())
}

/// The current date and time in UTC.
fn now_utc() -> Timestamp {
    let (year, ordinal, hour, minute, second, nanosecond) = now_utc_parts();
    Timestamp::new(year, ordinal, hour, minute, second, nanosecond).unwrap()
}

/// A pseudo-random source, with either the system clock or a fixed instant.
pub struct EntropySource {
    rng: rand::rngs::StdRng,
    clock: Option<Timestamp>,
    forced: Option<bool>,
    log: Ghost<Seq<Draw>>,
}

impl EntropySource {
    /// The value every coin takes, if the coins are forced.
    pub closed spec fn forced_coin(&self) -> Option<bool> {
        self.forced
    }

    /// The same source with every coin forced to `coin`; the other draws
    /// are unchanged.
    pub fn with_forced_coin(self, coin: bool) -> (r: EntropySource)
        ensures
            r.forced_coin() == Some(coin),
            r.fixed_clock() == self.fixed_clock(),
            r.draws() == self.draws(),
    {
        EntropySource { forced: Some(coin), ..self }
    }

    /// A source seeded by the system that reads the system clock.
    pub fn from_entropy() -> (r: EntropySource)
        ensures
            r.fixed_clock() is None,
            r.forced_coin() is None,
            r.draws() == Seq::<Draw>::empty(),
    {
        EntropySource { rng: rng_from_entropy(), clock: None, forced: None, log: Ghost(Seq::empty()) }
    }

    /// A reproducible source: the same seed gives the same draws, and every
    /// timestamp is `at`.
    pub fn seeded(seed: u64, at: Timestamp) -> (r: EntropySource)
        ensures
            r.fixed_clock() == Some(at),
            r.forced_coin() is None,
            r.draws() == Seq::<Draw>::empty(),
    {
        EntropySource {
            rng: rng_from_seed(seed),
            clock: Some(at),
            forced: None,
            log: Ghost(Seq::empty()),
        }
    }
}

impl Source for EntropySource {
    closed spec fn draws(&self) -> Seq<Draw> {
        self.log@
    }

    closed spec fn fixed_clock(&self) -> Option<Timestamp> {
        self.clock
    }

    fn coin(&mut self) -> (r: bool)
        ensures
            old(self).forced_coin() matches Some(c) ==> r == c,
            final(self).forced_coin() == old(self).forced_coin(),
    {
        let r = match self.forced {
            Some(c) => c,
            None => rng_bool(&mut self.rng),
        };
        proof {
            lemma_true_coins_push(self.log@, Draw::Coin(r));
        }
        self.log = Ghost(self.log@.push(Draw::Coin(r)));
        r
    }

    fn int64(&mut self) -> (r: i64) {
        let r = rng_i64(&mut self.rng);
        proof {
            lemma_true_coins_push(self.log@, Draw::Int64(r));
        }
        self.log = Ghost(self.log@.push(Draw::Int64(r)));
        r
    }

    fn int16(&mut self) -> (r: i16) {
        let r = rng_i16(&mut self.rng);
        proof {
            lemma_true_coins_push(self.log@, Draw::Int16(r));
        }
        self.log = Ghost(self.log@.push(Draw::Int16(r)));
        r
    }

    fn text(&mut self, len: usize) -> (r: String) {
        let r = rng_alphanumeric(&mut self.rng, len);
        proof {
            lemma_true_coins_push(self.log@, Draw::Text(r@));
        }
        self.log = Ghost(self.log@.push(Draw::Text(r@)));
        r
    }

    fn now(&mut self) -> (r: Timestamp) {
        let r = match self.clock {
            Some(t) => t,
            None => now_utc(),
        };
        proof {
            lemma_true_coins_push(self.log@, Draw::Clock(r));
        }
        self.log = Ghost(self.log@.push(Draw::Clock(r)));
        r
    }
}

} // verus!
