//! Call-registry rules: the maximum call duration, and reputation-weighted
//! individual staking limits.
//!
//! A user's personal stake limit is derived from their prediction record and
//! their stake volume relative to the platform average, in basis points
//! (`10_000` = 1.0):
//!
//! ```text
//! accuracy_bps     = total_correct * 10_000 / max(total_resolved, 1)
//! factor_bps       = 10_000 + accuracy_bps * reputation_multiplier / 10_000
//! volume_factor    = min(user_volume * 10_000 / platform_average_volume, 20_000)
//! reputation_limit = base_stake_limit * factor_bps / 10_000 * volume_factor / 10_000
//! ```
//!
//! Users with fewer than `NEW_USER_RESOLVED_THRESHOLD` resolved calls get
//! exactly `base_stake_limit`. A positive `max_stake_per_user` is an absolute
//! ceiling on top; a non-positive `base_stake_limit` means "no reputation
//! limit".
use vstd::prelude::*;
use std::collections::BTreeMap;
use crate::AccountId;
use crate::arith::fits_i128;

verus! {

broadcast use vstd::std_specs::btree::group_btree_axioms, vstd::laws_cmp::group_laws_cmp;

/// Default maximum call duration: 30 days in seconds.
pub const DEFAULT_MAX_DURATION_SECS: u64 = 2_592_000;

/// Basis-point scale: `10_000` is 1.0.
pub const BPS_SCALE: i128 = 10_000;

/// Resolved calls needed before reputation scaling applies.
pub const NEW_USER_RESOLVED_THRESHOLD: u32 = 10;

/// Cap on the volume factor: 2.0.
pub const MAX_VOLUME_FACTOR_BPS: i128 = 20_000;

/// A creator's prediction record.
#[derive(Clone, Copy, Debug, PartialEq, Eq, Structural)]
pub struct CreatorStats {
    pub total_resolved: u32,
    pub total_correct: u32,
}

/// Platform-wide staking totals.
#[derive(Clone, Copy, Debug, PartialEq, Eq, Structural)]
pub struct GlobalStats {
    pub total_unique_stakers: u64,
    pub total_stake_volume: i128,
}

/// The registry configuration read by the staking limits.
#[derive(Clone, Copy, Debug, PartialEq, Eq, Structural)]
pub struct ContractConfig {
    pub admin: AccountId,
    pub max_stake_per_user: i128,
    pub base_stake_limit: i128,
    pub reputation_multiplier: u32,
}

/// The administrative parameters whose changes are published.
#[derive(Clone, Copy, Debug, PartialEq, Eq, Structural)]
pub enum AdminParam {
    MaxDurationSecs,
    BaseStakeLimit,
    ReputationMultiplier,
}

/// Events the registry rules publish.
#[derive(Clone, Copy, Debug, PartialEq, Eq, Structural)]
pub enum CallRegistryEvent {
    AdminParamsChangedU64 { param: AdminParam, admin: AccountId, old_value: u64, new_value: u64 },
    AdminParamsChangedI128 { param: AdminParam, admin: AccountId, old_value: i128, new_value: i128 },
    AdminParamsChangedU32 { param: AdminParam, admin: AccountId, old_value: u32, new_value: u32 },
    StakeLimitUpdated { user: AccountId, new_limit: i128 },
}

/// The stored state the registry rules read and write, plus the events
/// published.
pub struct CallRegistry {
    pub config: Option<ContractConfig>,
    pub max_duration: Option<u64>,
    pub creator_stats: BTreeMap<AccountId, CreatorStats>,
    pub global_stats: GlobalStats,
    pub user_stake_volumes: BTreeMap<AccountId, i128>,
    pub events: Vec<CallRegistryEvent>,
}

/// `accuracy_bps`: correct calls per resolved call (at least one), in bps.
pub open spec fn accuracy_spec(stats: CreatorStats) -> int {
    let denom: int = if stats.total_resolved >= 1 { stats.total_resolved as int } else { 1 };
    stats.total_correct * BPS_SCALE / denom
}

/// The platform average stake volume, when there is stake history.
pub open spec fn platform_average(g: GlobalStats) -> int {
    (g.total_stake_volume as int) / (g.total_unique_stakers as int)
}

/// The volume factor can be computed without overflow.
pub open spec fn volume_fits(g: GlobalStats, user_volume: i128) -> bool {
    g.total_unique_stakers == 0 || g.total_stake_volume <= 0 || platform_average(g) <= 0
        || fits_i128((if user_volume > 0 { user_volume as int } else { 0 }) * BPS_SCALE)
}

/// `volume_factor_bps`: the user's volume relative to the platform average,
/// in bps, capped at 2.0; 1.0 when the platform has no stake history.
pub open spec fn volume_factor_spec(g: GlobalStats, user_volume: i128) -> int {
    if g.total_unique_stakers == 0 || g.total_stake_volume <= 0 || platform_average(g) <= 0 {
        BPS_SCALE as int
    } else {
        let raw = (if user_volume > 0 { user_volume as int } else { 0 }) * BPS_SCALE / platform_average(g);
        if raw <= MAX_VOLUME_FACTOR_BPS { raw } else { MAX_VOLUME_FACTOR_BPS as int }
    }
}

/// `factor_bps`: 1.0 plus the accuracy scaled by the multiplier.
pub open spec fn factor_spec(stats: CreatorStats, multiplier: u32) -> int {
    BPS_SCALE + accuracy_spec(stats) * multiplier / (BPS_SCALE as int)
}

/// The limit after the accuracy factor.
pub open spec fn after_accuracy_spec(base: i128, stats: CreatorStats, multiplier: u32) -> int {
    base * factor_spec(stats, multiplier) / (BPS_SCALE as int)
}

/// The reputation limit applies the full formula (a configured base and a
/// proven user).
pub open spec fn uses_formula(base: i128, stats: CreatorStats) -> bool {
    base > 0 && stats.total_resolved >= NEW_USER_RESOLVED_THRESHOLD
}

/// Every intermediate value of the reputation formula fits in an `i128`.
pub open spec fn reputation_fits(
    base: i128,
    multiplier: u32,
    stats: CreatorStats,
    g: GlobalStats,
    user_volume: i128,
) -> bool {
    uses_formula(base, stats) ==> {
        &&& volume_fits(g, user_volume)
        &&& fits_i128(base * factor_spec(stats, multiplier))
        &&& fits_i128(after_accuracy_spec(base, stats, multiplier) * volume_factor_spec(g, user_volume))
    }
}

/// The reputation limit: none when the base is not configured, the base
/// itself for new users, the full formula otherwise.
pub open spec fn reputation_limit_spec(
    base: i128,
    multiplier: u32,
    stats: CreatorStats,
    g: GlobalStats,
    user_volume: i128,
) -> Option<int> {
    if base <= 0 {
        None
    } else if stats.total_resolved < NEW_USER_RESOLVED_THRESHOLD {
        Some(base as int)
    } else {
        Some(after_accuracy_spec(base, stats, multiplier) * volume_factor_spec(g, user_volume) / (BPS_SCALE as int))
    }
}

/// The limit actually enforced: the reputation limit (unbounded when there
/// is none), under a positive `max_stake_per_user`.
pub open spec fn effective_limit_spec(
    base: i128,
    multiplier: u32,
    max_stake_per_user: i128,
    stats: CreatorStats,
    g: GlobalStats,
    user_volume: i128,
) -> int {
    let rep = match reputation_limit_spec(base, multiplier, stats, g, user_volume) {
        Some(l) => l,
        None => i128::MAX as int,
    };
    if max_stake_per_user > 0 && max_stake_per_user < rep {
        max_stake_per_user as int
    } else {
        rep
    }
}

/// Compute `accuracy_bps` for a record.
pub fn accuracy_bps(stats: &CreatorStats) -> (r: i128)
    ensures
        r == accuracy_spec(*stats),
{
    let denom: i128 = if stats.total_resolved >= 1 {
        stats.total_resolved as i128
    } else {
        1
    };
    (stats.total_correct as i128) * BPS_SCALE / denom
}

/// Compute `volume_factor_bps` of `user_volume` against the platform totals.
pub fn volume_factor_bps(global: &GlobalStats, user_volume: i128) -> (r: i128)
    requires
        volume_fits(*global, user_volume),
    ensures
        r == volume_factor_spec(*global, user_volume),
{
    if global.total_unique_stakers == 0 || global.total_stake_volume <= 0 {
        return BPS_SCALE;
    }
    let platform_average_volume = global.total_stake_volume / (global.total_unique_stakers as i128);
    if platform_average_volume <= 0 {
        return BPS_SCALE;
    }
    let volume = if user_volume > 0 {
        user_volume
    } else {
        0
    };
    let raw_bps = volume * BPS_SCALE / platform_average_volume;
    if raw_bps <= MAX_VOLUME_FACTOR_BPS {
        raw_bps
    } else {
        MAX_VOLUME_FACTOR_BPS
    }
}

/// Compute the reputation limit (`None` when the base is not configured).
pub fn reputation_limit(
    base_stake_limit: i128,
    reputation_multiplier: u32,
    stats: &CreatorStats,
    global: &GlobalStats,
    user_volume: i128,
) -> (r: Option<i128>)
    requires
        reputation_fits(base_stake_limit, reputation_multiplier, *stats, *global, user_volume),
    ensures
        r == (match reputation_limit_spec(base_stake_limit, reputation_multiplier, *stats, *global, user_volume) {
            Some(l) => Some(l as i128),
            None => None,
        }),
        r matches Some(l) ==> base_stake_limit > 0 && l >= 0,
{
    if base_stake_limit <= 0 {
        return None;
    }
    if stats.total_resolved < NEW_USER_RESOLVED_THRESHOLD {
        return Some(base_stake_limit);
    }
    let acc_bps = accuracy_bps(stats);
    proof {
        assert(0 <= acc_bps <= 42949672950000) by (nonlinear_arith)
            requires
                acc_bps == accuracy_spec(*stats),
        {
        }
        assert(0 <= acc_bps * (reputation_multiplier as int) <= 42949672950000 * 4294967295)
            by (nonlinear_arith)
            requires
                0 <= acc_bps <= 42949672950000,
        {
        }
    }
    let reputation_term = acc_bps * (reputation_multiplier as i128) / BPS_SCALE;
    let factor_bps = BPS_SCALE + reputation_term;
    let vol_factor_bps = volume_factor_bps(global, user_volume);
    let scaled = base_stake_limit * factor_bps;
    let after_accuracy = scaled / BPS_SCALE;
    let scaled_volume = after_accuracy * vol_factor_bps;
    proof {
        assert(scaled >= 0) by (nonlinear_arith)
            requires
                scaled == base_stake_limit * factor_bps,
                base_stake_limit > 0,
                factor_bps >= BPS_SCALE,
        {
        }
        assert(scaled_volume >= 0) by (nonlinear_arith)
            requires
                scaled_volume == after_accuracy * vol_factor_bps,
                after_accuracy >= 0,
                vol_factor_bps >= 0,
        {
        }
    }
    Some(scaled_volume / BPS_SCALE)
}

/// The stake limit enforced on a user: the reputation limit (`i128::MAX`
/// when there is none) capped by a positive `max_stake_per_user`.
pub fn effective_stake_limit(
    base_stake_limit: i128,
    reputation_multiplier: u32,
    max_stake_per_user: i128,
    stats: &CreatorStats,
    global: &GlobalStats,
    user_volume: i128,
) -> (r: i128)
    requires
        reputation_fits(base_stake_limit, reputation_multiplier, *stats, *global, user_volume),
    ensures
        r == effective_limit_spec(
            base_stake_limit,
            reputation_multiplier,
            max_stake_per_user,
            *stats,
            *global,
            user_volume,
        ),
{
    let rep_limit = match reputation_limit(base_stake_limit, reputation_multiplier, stats, global, user_volume) {
        Some(l) => l,
        None => i128::MAX,
    };
    if max_stake_per_user > 0 && max_stake_per_user < rep_limit {
        max_stake_per_user
    } else {
        rep_limit
    }
}

/// Users with fewer than `NEW_USER_RESOLVED_THRESHOLD` resolved calls are
/// held to exactly the base limit (under the admin ceiling), whatever their
/// accuracy or volume.
pub proof fn lemma_new_users_get_base_limit(
    base: i128,
    multiplier: u32,
    max_stake_per_user: i128,
    stats: CreatorStats,
    g: GlobalStats,
    user_volume: i128,
)
    requires
        base > 0,
        stats.total_resolved < NEW_USER_RESOLVED_THRESHOLD,
    ensures
        reputation_fits(base, multiplier, stats, g, user_volume),
        effective_limit_spec(base, multiplier, max_stake_per_user, stats, g, user_volume) == if max_stake_per_user > 0
            && max_stake_per_user < base {
            max_stake_per_user as int
        } else {
            base as int
        },
{
}

/// A positive `max_stake_per_user` is an absolute ceiling: reputation never
/// lifts a limit above it.
pub proof fn lemma_limit_within_ceiling(
    base: i128,
    multiplier: u32,
    max_stake_per_user: i128,
    stats: CreatorStats,
    g: GlobalStats,
    user_volume: i128,
)
    requires
        max_stake_per_user > 0,
    ensures
        effective_limit_spec(base, multiplier, max_stake_per_user, stats, g, user_volume) <= max_stake_per_user,
{
}

/// With neither a base limit nor a ceiling configured, no limit applies.
pub proof fn lemma_unconfigured_is_unlimited(
    base: i128,
    multiplier: u32,
    max_stake_per_user: i128,
    stats: CreatorStats,
    g: GlobalStats,
    user_volume: i128,
)
    requires
        base <= 0,
        max_stake_per_user <= 0,
    ensures
        effective_limit_spec(base, multiplier, max_stake_per_user, stats, g, user_volume) == i128::MAX,
{
}

/// The volume factor lies between 0 and 2.0.
pub proof fn lemma_volume_factor_bounded(g: GlobalStats, user_volume: i128)
    ensures
        0 <= volume_factor_spec(g, user_volume) <= MAX_VOLUME_FACTOR_BPS,
{
    if !(g.total_unique_stakers == 0 || g.total_stake_volume <= 0 || platform_average(g) <= 0) {
        let v: int = if user_volume > 0 { user_volume as int } else { 0 };
        assert(v * BPS_SCALE / platform_average(g) >= 0) by (nonlinear_arith)
            requires
                v >= 0,
                platform_average(g) > 0,
        {
        }
    }
}

/// Accuracy of a consistent record (no more correct than resolved calls)
/// lies between 0 and 1.0.
pub proof fn lemma_accuracy_bounded(stats: CreatorStats)
    requires
        stats.total_correct <= stats.total_resolved,
    ensures
        0 <= accuracy_spec(stats) <= BPS_SCALE,
{
    let denom: int = if stats.total_resolved >= 1 { stats.total_resolved as int } else { 1 };
    assert(0 <= stats.total_correct * BPS_SCALE / denom <= BPS_SCALE) by (nonlinear_arith)
        requires
            0 <= stats.total_correct <= denom,
            denom >= 1,
    {
    }
}

/// Among proven users with the same number of resolved calls and the same
/// volume, a better record never earns a lower reputation limit.
pub proof fn lemma_limit_monotone_in_accuracy(
    base: i128,
    multiplier: u32,
    a: CreatorStats,
    b: CreatorStats,
    g: GlobalStats,
    user_volume: i128,
)
    requires
        base > 0,
        a.total_resolved == b.total_resolved,
        a.total_resolved >= NEW_USER_RESOLVED_THRESHOLD,
        a.total_correct <= b.total_correct,
    ensures
        reputation_limit_spec(base, multiplier, a, g, user_volume)->0 <= reputation_limit_spec(
            base,
            multiplier,
            b,
            g,
            user_volume,
        )->0,
{
    let d = a.total_resolved as int;
    let acc_a = accuracy_spec(a);
    let acc_b = accuracy_spec(b);
    assert(acc_a <= acc_b) by (nonlinear_arith)
        requires
            acc_a == a.total_correct * BPS_SCALE / d,
            acc_b == b.total_correct * BPS_SCALE / d,
            a.total_correct <= b.total_correct,
            d >= 1,
    {
        vstd::arithmetic::div_mod::lemma_div_is_ordered(a.total_correct * BPS_SCALE, b.total_correct * BPS_SCALE, d);
    }
    let m = multiplier as int;
    let fa = factor_spec(a, multiplier);
    let fb = factor_spec(b, multiplier);
    assert(fa <= fb) by {
        assert(acc_a * m <= acc_b * m) by (nonlinear_arith)
            requires
                acc_a <= acc_b,
                m >= 0,
        {
        }
        vstd::arithmetic::div_mod::lemma_div_is_ordered(acc_a * m, acc_b * m, BPS_SCALE as int);
    }
    let b_int = base as int;
    assert(b_int * fa <= b_int * fb) by (nonlinear_arith)
        requires
            fa <= fb,
            b_int > 0,
    {
    }
    vstd::arithmetic::div_mod::lemma_div_is_ordered(b_int * fa, b_int * fb, BPS_SCALE as int);
    let va = after_accuracy_spec(base, a, multiplier);
    let vb = after_accuracy_spec(base, b, multiplier);
    let vf = volume_factor_spec(g, user_volume);
    lemma_volume_factor_bounded(g, user_volume);
    assert(va * vf <= vb * vf) by (nonlinear_arith)
        requires
            va <= vb,
            vf >= 0,
    {
    }
    vstd::arithmetic::div_mod::lemma_div_is_ordered(va * vf, vb * vf, BPS_SCALE as int);
}

impl CallRegistry {
    /// The maximum call duration: the configured one, else 30 days.
    pub open spec fn max_duration_of(self) -> u64 {
        match self.max_duration {
            Some(d) => d,
            None => DEFAULT_MAX_DURATION_SECS,
        }
    }

    /// A user's record, all zero when none is stored.
    pub open spec fn stats_of(self, user: AccountId) -> CreatorStats {
        if self.creator_stats@.contains_key(user) {
            self.creator_stats@[user]
        } else {
            CreatorStats { total_resolved: 0, total_correct: 0 }
        }
    }

    /// A user's historical stake volume, 0 when none is stored.
    pub open spec fn volume_of(self, user: AccountId) -> i128 {
        if self.user_stake_volumes@.contains_key(user) {
            self.user_stake_volumes@[user]
        } else {
            0
        }
    }

    /// The maximum call duration.
    pub fn get_max_duration(&self) -> (r: u64)
        ensures
            r == self.max_duration_of(),
    {
        match self.max_duration {
            Some(d) => d,
            None => DEFAULT_MAX_DURATION_SECS,
        }
    }

    /// Set the maximum call duration (on behalf of `admin`); it must be
    /// positive. Publishes the change.
    pub fn set_max_duration(&mut self, admin: AccountId, max_duration_secs: u64)
        requires
            max_duration_secs > 0,
        ensures
            final(self).max_duration == Some(max_duration_secs),
            final(self).events@ == old(self).events@.push(
                CallRegistryEvent::AdminParamsChangedU64 {
                    param: AdminParam::MaxDurationSecs,
                    admin,
                    old_value: old(self).max_duration_of(),
                    new_value: max_duration_secs,
                },
            ),
            *final(self) == (CallRegistry {
                max_duration: Some(max_duration_secs),
                events: final(self).events,
                ..*old(self)
            }),
    {
        let old_value = self.get_max_duration();
        self.max_duration = Some(max_duration_secs);
        self.events.push(
            CallRegistryEvent::AdminParamsChangedU64 {
                param: AdminParam::MaxDurationSecs,
                admin,
                old_value,
                new_value: max_duration_secs,
            },
        );
    }

    /// Whether a call created at `now` to end at `end_ts` passes the duration
    /// check: it ends in the future and lasts no longer than the maximum.
    pub fn duration_within_limit(&self, now: u64, end_ts: u64) -> (b: bool)
        ensures
            b == (end_ts > now && end_ts - now <= self.max_duration_of()),
    {
        end_ts > now && end_ts - now <= self.get_max_duration()
    }

    /// The check made before a call is created at `now` to end at `end_ts`:
    /// the end must lie in the future and the call last no longer than the
    /// maximum duration. Creation is aborted otherwise, so callers establish
    /// both; nothing else happens.
    pub fn assert_duration_within_limit(&self, now: u64, end_ts: u64)
        requires
            end_ts > now,
            end_ts - now <= self.max_duration_of(),
    {
    }

    /// A user's record (all zero when none is stored).
    pub fn get_creator_stats(&self, user: AccountId) -> (r: CreatorStats)
        ensures
            r == self.stats_of(user),
    {
        match self.creator_stats.get(&user) {
            Some(s) => *s,
            None => CreatorStats { total_resolved: 0, total_correct: 0 },
        }
    }

    /// A user's historical stake volume (0 when none is stored).
    pub fn get_user_total_stake_volume(&self, user: AccountId) -> (r: i128)
        ensures
            r == self.volume_of(user),
    {
        match self.user_stake_volumes.get(&user) {
            Some(v) => *v,
            None => 0,
        }
    }

    /// The stake limit currently in effect for `user`, from their record,
    /// their volume and the configured parameters.
    pub fn get_user_stake_limit(&self, user: AccountId) -> (r: i128)
        requires
            self.config is Some,
            reputation_fits(
                self.config->0.base_stake_limit,
                self.config->0.reputation_multiplier,
                self.stats_of(user),
                self.global_stats,
                self.volume_of(user),
            ),
        ensures
            r == effective_limit_spec(
                self.config->0.base_stake_limit,
                self.config->0.reputation_multiplier,
                self.config->0.max_stake_per_user,
                self.stats_of(user),
                self.global_stats,
                self.volume_of(user),
            ),
    {
        let config = self.config.unwrap();
        let stats = self.get_creator_stats(user);
        let user_volume = self.get_user_total_stake_volume(user);
        effective_stake_limit(
            config.base_stake_limit,
            config.reputation_multiplier,
            config.max_stake_per_user,
            &stats,
            &self.global_stats,
            user_volume,
        )
    }

    /// Set `base_stake_limit` and `reputation_multiplier` (on behalf of the
    /// admin); the base may not be negative. Publishes both changes.
    pub fn set_reputation_params(&mut self, base_limit: i128, multiplier: u32)
        requires
            base_limit >= 0,
            old(self).config is Some,
        ensures
            ({
                let c = old(self).config->0;
                &&& final(self).config == Some(ContractConfig { base_stake_limit: base_limit, reputation_multiplier: multiplier, ..c })
                &&& final(self).events@ == old(self).events@.push(
                    CallRegistryEvent::AdminParamsChangedI128 {
                        param: AdminParam::BaseStakeLimit,
                        admin: c.admin,
                        old_value: c.base_stake_limit,
                        new_value: base_limit,
                    },
                ).push(
                    CallRegistryEvent::AdminParamsChangedU32 {
                        param: AdminParam::ReputationMultiplier,
                        admin: c.admin,
                        old_value: c.reputation_multiplier,
                        new_value: multiplier,
                    },
                )
                &&& *final(self) == (CallRegistry { config: final(self).config, events: final(self).events, ..*old(self) })
            }),
    {
        let mut config = self.config.unwrap();
        let old_base = config.base_stake_limit;
        let old_multiplier = config.reputation_multiplier;
        config.base_stake_limit = base_limit;
        config.reputation_multiplier = multiplier;
        self.config = Some(config);
        self.events.push(
            CallRegistryEvent::AdminParamsChangedI128 {
                param: AdminParam::BaseStakeLimit,
                admin: config.admin,
                old_value: old_base,
                new_value: base_limit,
            },
        );
        self.events.push(
            CallRegistryEvent::AdminParamsChangedU32 {
                param: AdminParam::ReputationMultiplier,
                admin: config.admin,
                old_value: old_multiplier,
                new_value: multiplier,
            },
        );
    }

    /// Compare `user`'s limit before and after a change of their record and
    /// publish `StakeLimitUpdated` with the new limit iff it changed.
    pub fn maybe_emit_stake_limit_updated(
        &mut self,
        user: AccountId,
        config: &ContractConfig,
        old_stats: &CreatorStats,
        new_stats: &CreatorStats,
        user_volume: i128,
    )
        requires
            reputation_fits(config.base_stake_limit, config.reputation_multiplier, *old_stats, old(self).global_stats, user_volume),
            reputation_fits(config.base_stake_limit, config.reputation_multiplier, *new_stats, old(self).global_stats, user_volume),
        ensures
            ({
                let old_limit = effective_limit_spec(config.base_stake_limit, config.reputation_multiplier, config.max_stake_per_user, *old_stats, old(self).global_stats, user_volume);
                let new_limit = effective_limit_spec(config.base_stake_limit, config.reputation_multiplier, config.max_stake_per_user, *new_stats, old(self).global_stats, user_volume);
                &&& old_limit == new_limit ==> *final(self) == *old(self)
                &&& old_limit != new_limit ==> final(self).events@ == old(self).events@.push(
                        CallRegistryEvent::StakeLimitUpdated { user, new_limit: new_limit as i128 },
                    )
                    && *final(self) == (CallRegistry { events: final(self).events, ..*old(self) })
            }),
    {
        let old_limit = effective_stake_limit(
            config.base_stake_limit,
            config.reputation_multiplier,
            config.max_stake_per_user,
            old_stats,
            &self.global_stats,
            user_volume,
        );
        let new_limit = effective_stake_limit(
            config.base_stake_limit,
            config.reputation_multiplier,
            config.max_stake_per_user,
            new_stats,
            &self.global_stats,
            user_volume,
        );
        if old_limit != new_limit {
            self.events.push(CallRegistryEvent::StakeLimitUpdated { user, new_limit });
        }
    }
}

} // verus!
