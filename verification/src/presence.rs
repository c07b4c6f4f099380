//! Presence: a character counts as online while its client keeps checking in.
use vstd::prelude::*;

verus! {

/// How long a character stays online without hearing from its client.
pub const PRESENCE_TIMEOUT_SECONDS: i64 = 15;

/// Microseconds in a second.
pub const MICROS_PER_SECOND: i128 = 1_000_000;

/// Whether a character last seen at `last_seen_micros` has timed out at
/// `now_micros` (both microseconds since the epoch): at least 15 whole
/// seconds have elapsed. A `last_seen` in the future is clock weirdness, not
/// absence, and never times out.
pub open spec fn stale(now_micros: int, last_seen_micros: int) -> bool {
    last_seen_micros <= now_micros && (now_micros - last_seen_micros) / 1_000_000 >= PRESENCE_TIMEOUT_SECONDS
}

pub fn is_presence_stale(now_micros: i64, last_seen_micros: i64) -> (b: bool)
    ensures
        b == stale(now_micros as int, last_seen_micros as int),
{
    if last_seen_micros > now_micros {
        return false;
    }
    let elapsed = (now_micros as i128) - (last_seen_micros as i128);
    let seconds = elapsed / MICROS_PER_SECOND;
    seconds >= PRESENCE_TIMEOUT_SECONDS as i128
}

/// A heartbeat resets the clock: a character seen now is not stale.
pub proof fn law_fresh_heartbeat_is_not_stale(now_micros: int)
    ensures
        !stale(now_micros, now_micros),
{
}

/// The timeout is fifteen seconds to the microsecond: a character last seen
/// in the past is stale exactly when at least 15 000 000 microseconds have
/// gone by.
pub proof fn law_timeout_is_fifteen_seconds(now_micros: int, last_seen_micros: int)
    ensures
        stale(now_micros, last_seen_micros) <==> (last_seen_micros <= now_micros && now_micros
            - last_seen_micros >= 15_000_000),
{
    if last_seen_micros <= now_micros {
        let d = now_micros - last_seen_micros;
        assert(d / 1_000_000 >= 15 <==> d >= 15_000_000) by (nonlinear_arith)
            requires
                d >= 0,
        ;
    }
}

/// Once stale, a character stays stale as time moves on without a heartbeat.
pub proof fn law_staleness_persists(later: int, now: int, last_seen: int)
    requires
        now <= later,
        stale(now, last_seen),
    ensures
        stale(later, last_seen),
{
    assert((later - last_seen) / 1_000_000 >= (now - last_seen) / 1_000_000) by (nonlinear_arith)
        requires
            now <= later,
            last_seen <= now,
    ;
}

/// A character's presence as stored.
#[derive(Debug, Clone, Copy, PartialEq, Eq, Structural)]
pub struct PresenceRow {
    pub online: bool,
    /// When its client last checked in, in microseconds since the epoch.
    pub last_seen_micros: i64,
}

/// The positions, among the first `n` rows, of the characters to mark
/// offline: online ones that have timed out.
pub open spec fn expired_among(rows: Seq<PresenceRow>, n: nat, now_micros: i64) -> Seq<usize>
    decreases n,
{
    if n == 0 {
        Seq::empty()
    } else {
        let rest = expired_among(rows, (n - 1) as nat, now_micros);
        let row = rows[n - 1];
        if row.online && stale(now_micros as int, row.last_seen_micros as int) {
            rest.push((n - 1) as usize)
        } else {
            rest
        }
    }
}

/// Every row the expiry pass lists is one of the first `n`, and a row among
/// them is listed exactly when it is online and stale.
pub proof fn law_expired_are_exactly_the_stale_online_rows(rows: Seq<PresenceRow>, n: nat, now_micros: i64)
    requires
        n <= rows.len(),
        rows.len() <= usize::MAX,
    ensures
        forall|e: usize| #[trigger] expired_among(rows, n, now_micros).contains(e) ==> (e as int) < n,
        forall|k: int|
            0 <= k < n ==> (#[trigger] expired_among(rows, n, now_micros).contains(k as usize) <==> (
            rows[k].online && stale(now_micros as int, rows[k].last_seen_micros as int))),
    decreases n,
{
    broadcast use vstd::seq_lib::lemma_seq_contains_after_push;

    if n > 0 {
        law_expired_are_exactly_the_stale_online_rows(rows, (n - 1) as nat, now_micros);
        let rest = expired_among(rows, (n - 1) as nat, now_micros);
        assert forall|k: int|
            0 <= k < n implies (#[trigger] expired_among(rows, n, now_micros).contains(k as usize) <==> (
            rows[k].online && stale(now_micros as int, rows[k].last_seen_micros as int))) by {
            if k < n - 1 {
                assert(rest.contains(k as usize) <==> (rows[k].online && stale(
                    now_micros as int,
                    rows[k].last_seen_micros as int,
                )));
                assert((k as usize) != ((n - 1) as usize));
            } else {
                assert(!rest.contains(k as usize));
            }
        }
    }
}

/// The characters the tick marks offline, by position in table order:
/// those online whose client has not checked in for the timeout.
pub fn players_to_expire(rows: &[PresenceRow], now_micros: i64) -> (expired: Vec<usize>)
    ensures
        expired@ == expired_among(rows@, rows@.len(), now_micros),
        forall|k: int|
            0 <= k < rows@.len() ==> (#[trigger] expired@.contains(k as usize) <==> (rows@[k].online && stale(
                now_micros as int,
                rows@[k].last_seen_micros as int,
            ))),
        forall|e: usize| #[trigger] expired@.contains(e) ==> (e as int) < rows@.len(),
{
    let mut expired: Vec<usize> = Vec::new();
    let mut i: usize = 0;
    while i < rows.len()
        invariant
            i <= rows@.len(),
            expired@ == expired_among(rows@, i as nat, now_micros),
        decreases rows@.len() - i,
    {
        let row = rows[i];
        if row.online && is_presence_stale(now_micros, row.last_seen_micros) {
            expired.push(i);
        }
        i = i + 1;
    }
    proof {
        law_expired_are_exactly_the_stale_online_rows(rows@, rows@.len(), now_micros);
    }
    expired
}

} // verus!
