//! The admission threshold: one fixed-point scalar that gates volunteering. It
//! shrinks towards a floor as providers join and grows back as they leave.
use vstd::prelude::*;
use crate::hashing::{blake2_256, spec_blake2_256};

verus! {

/// The fixed-point representation of the number one: a scalar `x` stands for
/// `x / ONE`.
pub const ONE: u128 = 1_000_000_000_000_000_000;

/// Parameters of the threshold curve, all in fixed point.
#[derive(Debug, Clone, Copy, PartialEq, Eq, Structural)]
pub struct ThresholdConfig {
    /// The floor that the threshold approaches and never crosses.
    pub asymptote: u128,
    /// How far above the floor the threshold stands with no provider.
    pub multiplier: u128,
    /// The factor, strictly between zero and one, by which the distance to the
    /// floor shrinks for each provider.
    pub decay: u128,
}

impl ThresholdConfig {
    /// The curve starts within `[asymptote, 1]` and the decay is a proper
    /// fraction.
    pub open spec fn valid(&self) -> bool {
        &&& self.asymptote + self.multiplier <= ONE
        &&& 0 < self.decay < ONE
    }

    /// Tells whether the parameters are valid.
    pub fn is_valid(&self) -> (ok: bool)
        ensures
            ok == self.valid(),
    {
        self.asymptote <= ONE && self.multiplier <= ONE - self.asymptote && 0 < self.decay && self.decay < ONE
    }
}

/// One step of decay: `base` times `decay`, rounded down.
pub open spec fn spec_decay_step(base: nat, decay: nat) -> nat {
    base * decay / (ONE as nat)
}

/// `base` after `n` steps of decay.
pub open spec fn spec_decayed(base: nat, decay: nat, n: nat) -> nat
    decreases n,
{
    if n == 0 {
        base
    } else {
        spec_decay_step(spec_decayed(base, decay, (n - 1) as nat), decay)
    }
}

/// One step of growth, the counterpart of decay: `base` divided by `decay`,
/// rounded down.
pub open spec fn spec_growth_step(base: nat, decay: nat) -> nat {
    base * (ONE as nat) / decay
}

/// The threshold for `n` providers: the floor plus the multiplier decayed `n`
/// times.
pub open spec fn spec_compute_point(config: ThresholdConfig, n: nat) -> nat {
    config.asymptote as nat + spec_decayed(config.multiplier as nat, config.decay as nat, n)
}

/// The threshold after one more provider has joined.
pub open spec fn spec_joined(config: ThresholdConfig, threshold: nat) -> nat {
    config.asymptote as nat + spec_decay_step((threshold - config.asymptote) as nat, config.decay as nat)
}

/// The threshold after one provider has left, never above one.
pub open spec fn spec_left(config: ThresholdConfig, threshold: nat) -> nat {
    let grown = config.asymptote as nat + spec_growth_step((threshold - config.asymptote) as nat, config.decay as nat);
    if grown > ONE {
        ONE as nat
    } else {
        grown
    }
}

/// A step of decay never grows its argument, and shrinks whatever is not zero.
pub proof fn lemma_decay_step(base: nat, decay: nat)
    requires
        0 < decay < ONE,
    ensures
        spec_decay_step(base, decay) <= base,
        base > 0 ==> spec_decay_step(base, decay) < base,
        spec_decay_step(0, decay) == 0,
{
    let one = ONE as nat;
    assert(base * decay <= base * one - base) by (nonlinear_arith)
        requires
            0 < decay < one,
    ;
    assert(base * decay / one <= (base * one - base) / (one as int)) by (nonlinear_arith)
        requires
            base * decay <= base * one - base,
            one > 0,
    ;
    if base > 0 {
        assert((base * one - base) / (one as int) < base) by (nonlinear_arith)
            requires
                base > 0,
                one > 0,
        ;
    } else {
        assert(base * decay == 0) by (nonlinear_arith)
            requires
                base == 0,
        ;
    }
    assert(0nat * decay == 0) by (nonlinear_arith);
}

/// A step of growth never shrinks its argument.
pub proof fn lemma_growth_step(base: nat, decay: nat)
    requires
        0 < decay < ONE,
    ensures
        spec_growth_step(base, decay) >= base,
{
    let one = ONE as nat;
    assert(base * one >= base * decay) by (nonlinear_arith)
        requires
            decay < one,
    ;
    assert(base * one / decay >= base) by (nonlinear_arith)
        requires
            base * one >= base * decay,
            decay > 0,
    ;
}

/// Decay loses at least one unit per step until nothing is left.
pub proof fn lemma_decayed_bound(base: nat, decay: nat, n: nat)
    requires
        0 < decay < ONE,
    ensures
        spec_decayed(base, decay, n) <= base,
        spec_decayed(base, decay, n) + n <= base || spec_decayed(base, decay, n) == 0,
    decreases n,
{
    if n > 0 {
        lemma_decayed_bound(base, decay, (n - 1) as nat);
        lemma_decay_step(spec_decayed(base, decay, (n - 1) as nat), decay);
    }
}

/// The threshold curve never goes below the floor nor above its start.
pub proof fn lemma_point_bounds(config: ThresholdConfig, n: nat)
    requires
        config.valid(),
    ensures
        config.asymptote <= spec_compute_point(config, n) <= config.asymptote + config.multiplier,
        spec_compute_point(config, n) <= ONE,
{
    lemma_decayed_bound(config.multiplier as nat, config.decay as nat, n);
}

/// The threshold curve falls with every provider for as long as it stands
/// above the floor; on the floor it stays.
pub proof fn lemma_point_step(config: ThresholdConfig, n: nat)
    requires
        config.valid(),
    ensures
        spec_compute_point(config, n + 1) <= spec_compute_point(config, n),
        spec_compute_point(config, n) > config.asymptote ==> spec_compute_point(config, n + 1)
            < spec_compute_point(config, n),
        spec_compute_point(config, n) == config.asymptote ==> spec_compute_point(config, n + 1)
            == config.asymptote,
{
    lemma_decay_step(spec_decayed(config.multiplier as nat, config.decay as nat, n), config.decay as nat);
    assert(((n + 1) - 1) as nat == n);
}

/// More providers never mean a higher threshold, and mean a lower one while
/// the larger count still stands above the floor.
pub proof fn lemma_point_decreasing(config: ThresholdConfig, n: nat, m: nat)
    requires
        config.valid(),
        n < m,
    ensures
        spec_compute_point(config, m) <= spec_compute_point(config, n),
        spec_compute_point(config, n) > config.asymptote ==> spec_compute_point(config, m) < spec_compute_point(
            config,
            n,
        ),
    decreases m - n,
{
    lemma_point_step(config, n);
    if n + 1 < m {
        lemma_point_decreasing(config, n + 1, m);
    }
}

/// The floor is reached: from some provider count on, the threshold is the
/// asymptote itself.
pub proof fn lemma_point_reaches_asymptote(config: ThresholdConfig, n: nat)
    requires
        config.valid(),
        n >= config.multiplier,
    ensures
        spec_compute_point(config, n) == config.asymptote,
{
    lemma_decayed_bound(config.multiplier as nat, config.decay as nat, n);
}

/// A provider joining moves the threshold from one point of the curve to the
/// next.
pub proof fn lemma_joined_follows_curve(config: ThresholdConfig, n: nat)
    requires
        config.valid(),
    ensures
        spec_joined(config, spec_compute_point(config, n)) == spec_compute_point(config, n + 1),
{
    assert(((n + 1) - 1) as nat == n);
}

/// A provider joining never raises the threshold, lowers it while it stands
/// above the floor, and never takes it below the floor.
pub proof fn lemma_joined_bounds(config: ThresholdConfig, threshold: nat)
    requires
        config.valid(),
        config.asymptote <= threshold <= ONE,
    ensures
        config.asymptote <= spec_joined(config, threshold) <= threshold,
        threshold > config.asymptote ==> spec_joined(config, threshold) < threshold,
        threshold == config.asymptote ==> spec_joined(config, threshold) == config.asymptote,
{
    lemma_decay_step((threshold - config.asymptote) as nat, config.decay as nat);
}

/// The threshold after `n` providers have joined one after another.
pub open spec fn spec_joined_times(config: ThresholdConfig, threshold: nat, n: nat) -> nat
    decreases n,
{
    if n == 0 {
        threshold
    } else {
        spec_joined(config, spec_joined_times(config, threshold, (n - 1) as nat))
    }
}

/// Sign-up after sign-up the threshold decays towards the floor: after `n`
/// sign-ups it stands above the floor by the `n` times decayed distance it
/// started with; it never rises and never goes below the floor; it falls with
/// every sign-up for as long as it stands above the floor; and after as many
/// sign-ups as the distance has units it is the floor itself and stays there.
pub proof fn lemma_sign_ups(config: ThresholdConfig, threshold: nat, n: nat)
    requires
        config.valid(),
        config.asymptote <= threshold <= ONE,
    ensures
        spec_joined_times(config, threshold, n) == config.asymptote + spec_decayed(
            (threshold - config.asymptote) as nat,
            config.decay as nat,
            n,
        ),
        config.asymptote <= spec_joined_times(config, threshold, n) <= threshold,
        spec_joined_times(config, threshold, n + 1) <= spec_joined_times(config, threshold, n),
        spec_joined_times(config, threshold, n) > config.asymptote ==> spec_joined_times(config, threshold, n + 1)
            < spec_joined_times(config, threshold, n),
        n >= threshold - config.asymptote ==> spec_joined_times(config, threshold, n) == config.asymptote,
    decreases n,
{
    let base = (threshold - config.asymptote) as nat;
    let decay = config.decay as nat;
    if n > 0 {
        lemma_sign_ups(config, threshold, (n - 1) as nat);
    }
    lemma_decayed_bound(base, decay, n);
    lemma_decay_step(spec_decayed(base, decay, n), decay);
    assert(((n + 1) - 1) as nat == n);
}

/// A run of sign-ups that starts at the head of the curve follows the curve:
/// after `n` sign-ups the threshold is the one computed for `n` providers.
pub proof fn lemma_sign_ups_follow_curve(config: ThresholdConfig, n: nat)
    requires
        config.valid(),
    ensures
        spec_joined_times(config, spec_compute_point(config, 0), n) == spec_compute_point(config, n),
{
    lemma_sign_ups(config, spec_compute_point(config, 0), n);
}

/// A provider leaving never lowers the threshold and never takes it above one.
pub proof fn lemma_left_bounds(config: ThresholdConfig, threshold: nat)
    requires
        config.valid(),
        config.asymptote <= threshold <= ONE,
    ensures
        threshold <= spec_left(config, threshold) <= ONE,
{
    lemma_growth_step((threshold - config.asymptote) as nat, config.decay as nat);
}

/// Applies one step of decay.
pub fn decay_step(base: u128, decay: u128) -> (r: u128)
    requires
        base <= ONE,
        0 < decay < ONE,
    ensures
        r == spec_decay_step(base as nat, decay as nat),
        r <= base,
{
    proof {
        lemma_decay_step(base as nat, decay as nat);
        assert(base * decay <= ONE * ONE) by (nonlinear_arith)
            requires
                base <= ONE,
                decay < ONE,
        ;
    }
    base * decay / ONE
}

/// The threshold for `provider_count` providers.
pub fn compute_point(config: &ThresholdConfig, provider_count: u32) -> (point: u128)
    requires
        config.valid(),
    ensures
        point == spec_compute_point(*config, provider_count as nat),
        config.asymptote <= point <= ONE,
{
    let mut base: u128 = config.multiplier;
    let mut i: u32 = 0;
    while i < provider_count && base > 0
        invariant
            config.valid(),
            i <= provider_count,
            base <= config.multiplier,
            base == spec_decayed(config.multiplier as nat, config.decay as nat, i as nat),
        decreases provider_count - i,
    {
        base = decay_step(base, config.decay);
        i = i + 1;
    }
    proof {
        if i < provider_count {
            lemma_decayed_zero(config.multiplier as nat, config.decay as nat, i as nat, provider_count as nat);
        }
    }
    config.asymptote + base
}

/// Once decay has reached zero it stays there.
pub proof fn lemma_decayed_zero(base: nat, decay: nat, n: nat, m: nat)
    requires
        0 < decay < ONE,
        n <= m,
        spec_decayed(base, decay, n) == 0,
    ensures
        spec_decayed(base, decay, m) == 0,
    decreases m - n,
{
    if n < m {
        lemma_decay_step(0, decay);
        assert(((n + 1) - 1) as nat == n);
        lemma_decayed_zero(base, decay, n + 1, m);
    }
}

/// The scalar that a digest stands for: its first sixteen bytes read as one
/// number, most significant byte first, reduced modulo one.
pub open spec fn spec_scalar(digest: Seq<u8>) -> nat {
    spec_scalar_prefix(digest, 16)
}

/// The scalar of the first `n` bytes of `digest`.
pub open spec fn spec_scalar_prefix(digest: Seq<u8>, n: nat) -> nat
    decreases n,
{
    if n == 0 {
        0
    } else {
        (spec_scalar_prefix(digest, (n - 1) as nat) * 256 + digest[n - 1] as nat) % (ONE as nat)
    }
}

/// Reads a digest as a scalar in `[0, 1)`.
pub fn scalar_of_digest(digest: &[u8; 32]) -> (scalar: u128)
    ensures
        scalar == spec_scalar(digest@),
        scalar < ONE,
{
    let mut acc: u128 = 0;
    let mut i: usize = 0;
    while i < 16
        invariant
            i <= 16,
            acc < ONE,
            acc == spec_scalar_prefix(digest@, i as nat),
        decreases 16 - i,
    {
        acc = (acc * 256 + digest[i] as u128) % ONE;
        i = i + 1;
    }
    acc
}

/// Tells whether a scalar passes a threshold: it does when it is not above it.
pub fn scalar_passes(scalar: u128, threshold: u128) -> (ok: bool)
    ensures
        ok == (scalar <= threshold),
{
    scalar <= threshold
}

/// The admission threshold together with the parameters of its curve.
#[derive(Debug, Clone, Copy, PartialEq, Eq, Structural)]
pub struct AdmissionThreshold {
    config: ThresholdConfig,
    threshold: u128,
}

impl AdmissionThreshold {
    /// The parameters are valid and the threshold lies in `[asymptote, 1]`.
    pub closed spec fn wf(&self) -> bool {
        &&& self.config.valid()
        &&& self.config.asymptote <= self.threshold <= ONE
    }

    /// The parameters of the curve.
    pub closed spec fn spec_config(&self) -> ThresholdConfig {
        self.config
    }

    /// The current threshold.
    pub closed spec fn spec_threshold(&self) -> u128 {
        self.threshold
    }

    /// What validity means, in terms of the parts.
    pub proof fn lemma_wf(&self)
        ensures
            self.wf() <==> self.spec_config().valid() && self.spec_config().asymptote <= self.spec_threshold()
                <= ONE,
    {
    }

    /// The threshold of a network without providers: the start of the curve.
    /// `None` where the parameters are not valid.
    pub fn new(config: ThresholdConfig) -> (r: Option<Self>)
        ensures
            r is Some <==> config.valid(),
            r matches Some(t) ==> t.wf() && t.spec_config() == config && t.spec_threshold()
                == spec_compute_point(config, 0),
    {
        if config.is_valid() {
            Some(AdmissionThreshold { config, threshold: config.asymptote + config.multiplier })
        } else {
            None
        }
    }

    /// A threshold set to a given value. `None` where the parameters are not
    /// valid or the value lies outside `[asymptote, 1]`.
    pub fn seeded(config: ThresholdConfig, threshold: u128) -> (r: Option<Self>)
        ensures
            r is Some <==> config.valid() && config.asymptote <= threshold <= ONE,
            r matches Some(t) ==> t.wf() && t.spec_config() == config && t.spec_threshold() == threshold,
    {
        if config.is_valid() && config.asymptote <= threshold && threshold <= ONE {
            Some(AdmissionThreshold { config, threshold })
        } else {
            None
        }
    }

    /// The current threshold.
    pub fn threshold(&self) -> (t: u128)
        ensures
            t == self.spec_threshold(),
    {
        self.threshold
    }

    /// The floor of the threshold.
    pub fn asymptote(&self) -> (a: u128)
        ensures
            a == self.spec_config().asymptote,
    {
        self.config.asymptote
    }

    /// A provider has joined: the distance to the floor decays by one step.
    pub fn on_provider_joined(&mut self)
        requires
            old(self).wf(),
        ensures
            final(self).wf(),
            final(self).spec_config() == old(self).spec_config(),
            final(self).spec_threshold() == spec_joined(old(self).spec_config(), old(self).spec_threshold() as nat),
            final(self).spec_threshold() <= old(self).spec_threshold(),
            old(self).spec_threshold() > old(self).spec_config().asymptote ==> final(self).spec_threshold() < old(
                self,
            ).spec_threshold(),
    {
        proof {
            lemma_joined_bounds(self.config, self.threshold as nat);
        }
        let base: u128 = self.threshold - self.config.asymptote;
        self.threshold = self.config.asymptote + decay_step(base, self.config.decay);
    }

    /// A provider has left: the distance to the floor grows by one step, and
    /// the threshold stops at one.
    pub fn on_provider_left(&mut self)
        requires
            old(self).wf(),
        ensures
            final(self).wf(),
            final(self).spec_config() == old(self).spec_config(),
            final(self).spec_threshold() == spec_left(old(self).spec_config(), old(self).spec_threshold() as nat),
            final(self).spec_threshold() >= old(self).spec_threshold(),
    {
        proof {
            lemma_left_bounds(self.config, self.threshold as nat);
        }
        let base: u128 = self.threshold - self.config.asymptote;
        assert(base * ONE <= ONE * ONE) by (nonlinear_arith)
            requires
                base <= ONE,
        ;
        let grown: u128 = base * ONE / self.config.decay;
        if grown > ONE - self.config.asymptote {
            self.threshold = ONE;
        } else {
            self.threshold = self.config.asymptote + grown;
        }
    }

    /// The scalar that decides the eligibility of a provider for a subject.
    pub open spec fn spec_eligibility_scalar(provider_id: Seq<u8>, randomness: Seq<u8>) -> nat {
        spec_scalar(spec_blake2_256(provider_id + randomness))
    }

    /// Tells whether a provider may volunteer for a subject: the scalar drawn
    /// from the provider and the subject's randomness must not be above the
    /// threshold.
    pub fn is_eligible(&self, provider_id: &[u8], randomness: &[u8; 32]) -> (ok: bool)
        ensures
            ok == (Self::spec_eligibility_scalar(provider_id@, randomness@) <= self.spec_threshold()),
    {
        let mut subject: Vec<u8> = Vec::new();
        let mut i: usize = 0;
        while i < provider_id.len()
            invariant
                i <= provider_id.len(),
                subject@ == provider_id@.subrange(0, i as int),
            decreases provider_id.len() - i,
        {
            subject.push(provider_id[i]);
            assert(subject@ =~= provider_id@.subrange(0, i + 1));
            i = i + 1;
        }
        let mut j: usize = 0;
        while j < 32
            invariant
                j <= 32,
                subject@ == provider_id@ + randomness@.subrange(0, j as int),
            decreases 32 - j,
        {
            subject.push(randomness[j]);
            assert(subject@ =~= provider_id@ + randomness@.subrange(0, j + 1));
            j = j + 1;
        }
        assert(subject@ =~= provider_id@ + randomness@);
        let digest = blake2_256(subject.as_slice());
        scalar_passes(scalar_of_digest(&digest), self.threshold)
    }
}

} // verus!
