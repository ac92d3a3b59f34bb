//! The market-data adapter: one-minute history of a symbol, newest bar first,
//! at most as many bars as the host asked for.
use vstd::prelude::*;

use crate::codec::{day_seconds_of, epoch_seconds_of, fits_i64, from_day_seconds, to_day_seconds};
use crate::marshal::written;
use crate::provider::{connect, now_seconds, time_and_sales, Bar};
use crate::session::SessionConfig;

verus! {

/// How far back the Tradier provider serves one-minute bars, in seconds;
/// the window is a parameter of the functions below, this is its usual value.
pub const DEFAULT_RETENTION_WINDOW_SECONDS: i64 = 29 * 86400;

/// One candle for the host: its date in seconds since the reference instant,
/// and the provider's entry with the prices and the volume.
pub struct Candle<Q> {
    pub time: i128,
    pub quote: Q,
}

/// Why a history request gave no candles.
#[derive(Debug, PartialEq, Eq, Structural)]
pub enum HistoryError {
    /// No login has succeeded yet.
    SessionNotReady,
    /// A bar length other than one minute was asked for.
    UnsupportedGranularity,
    /// A bound of the range lies outside the Unix times an `i64` holds.
    DateOutOfRange,
    /// The provider could not be reached or refused the query.
    ProviderError,
}

/// The Unix time range, in seconds, that a history query asks the provider for.
#[derive(Debug, PartialEq, Eq, Structural)]
pub struct HistoryQuery {
    pub start: i64,
    pub end: i64,
}

pub open spec fn max_int(a: int, b: int) -> int {
    if a >= b { a } else { b }
}

/// The start of a query once it is moved forward into the retention window
/// of `window` seconds that ends at `now`.
pub open spec fn clamped_start(requested: int, now: int, window: int) -> int {
    max_int(requested, now - window)
}

/// The candle that stands for a bar.
pub open spec fn candle_of<Q>(bar: Bar<Q>) -> Candle<Q> {
    Candle { time: day_seconds_of(bar.timestamp as int) as i128, quote: bar.quote }
}

/// `out` holds the candles of the `max_ticks` newest bars of `bars` (of all
/// of them where there are no more), newest first; candle `i` stands for the
/// bar at position `picks[i]`, and no bar is picked twice.
pub open spec fn newest_first_by<Q>(
    bars: Seq<Bar<Q>>,
    max_ticks: nat,
    out: Seq<Candle<Q>>,
    picks: Seq<int>,
) -> bool {
    &&& out.len() == (if bars.len() <= max_ticks { bars.len() } else { max_ticks })
    &&& picks.len() == out.len()
    &&& picks.no_duplicates()
    &&& forall|i: int|
        0 <= i < out.len() ==> 0 <= #[trigger] picks[i] < bars.len() && out[i] == candle_of(
            bars[picks[i]],
        )
    &&& forall|i: int, j: int|
        0 <= i < j < out.len() ==> bars[picks[i]].timestamp >= bars[picks[j]].timestamp
    &&& forall|i: int, k: int|
        0 <= i < out.len() && 0 <= k < bars.len() && !picks.contains(k) ==> bars[picks[i]].timestamp
            >= bars[k].timestamp
}

/// `out` holds the candles of the `max_ticks` newest bars of `bars`, newest
/// first, whatever order `bars` comes in.
pub open spec fn is_newest_first<Q>(bars: Seq<Bar<Q>>, max_ticks: nat, out: Seq<Candle<Q>>) -> bool {
    exists|picks: Seq<int>| newest_first_by(bars, max_ticks, out, picks)
}

/// What a history request on the given arguments asks the provider for, the
/// clock reading `now`.
pub open spec fn history_query_spec(
    logged_in: bool,
    start_day: int,
    end_day: int,
    tick_minutes: int,
    now: int,
    window: int,
) -> Result<HistoryQuery, HistoryError> {
    if !logged_in {
        Err(HistoryError::SessionNotReady)
    } else if tick_minutes != 1 {
        Err(HistoryError::UnsupportedGranularity)
    } else if !fits_i64(epoch_seconds_of(start_day)) || !fits_i64(epoch_seconds_of(end_day)) {
        Err(HistoryError::DateOutOfRange)
    } else {
        Ok(
            HistoryQuery {
                start: clamped_start(epoch_seconds_of(start_day), now, window) as i64,
                end: epoch_seconds_of(end_day) as i64,
            },
        )
    }
}

/// The later of `requested` and the start of the retention window of
/// `window` seconds that ends at `now`.
pub fn clamp_start(requested: i64, now: i64, window: i64) -> (r: i64)
    requires
        window >= 0,
    ensures
        r == clamped_start(requested as int, now as int, window as int),
        r >= now - window,
        r >= requested,
{
    if now < i64::MIN + window {
        requested
    } else {
        let earliest = now - window;
        if requested >= earliest {
            requested
        } else {
            earliest
        }
    }
}

/// Decides the query of a history request: the bar length must be one
/// minute, and the start is moved forward into the retention window.
pub fn history_query(
    logged_in: bool,
    start_day: i128,
    end_day: i128,
    tick_minutes: i32,
    now: i64,
    window: i64,
) -> (r: Result<HistoryQuery, HistoryError>)
    requires
        window >= 0,
    ensures
        r == history_query_spec(
            logged_in,
            start_day as int,
            end_day as int,
            tick_minutes as int,
            now as int,
            window as int,
        ),
{
    if !logged_in {
        return Err(HistoryError::SessionNotReady);
    }
    if tick_minutes != 1 {
        return Err(HistoryError::UnsupportedGranularity);
    }
    match (from_day_seconds(start_day), from_day_seconds(end_day)) {
        (Some(start), Some(end)) => Ok(HistoryQuery { start: clamp_start(start, now, window), end }),
        _ => Err(HistoryError::DateOutOfRange),
    }
}


/// Position in `bars` of a bar with the latest timestamp; among equal
/// timestamps, the last of them.
fn latest_position<Q>(bars: &Vec<Bar<Q>>) -> (r: usize)
    requires
        bars@.len() > 0,
    ensures
        r < bars@.len(),
        forall|m: int| 0 <= m < bars@.len() ==> bars@[m].timestamp <= bars@[r as int].timestamp,
{
    let mut best: usize = 0;
    let mut k: usize = 1;
    while k < bars.len()
        invariant
            best < k <= bars@.len(),
            forall|m: int| 0 <= m < k ==> bars@[m].timestamp <= bars@[best as int].timestamp,
        decreases bars@.len() - k,
    {
        if bars[k].timestamp >= bars[best].timestamp {
            best = k;
        }
        k += 1;
    }
    best
}

/// Turns the `max_ticks` newest bars into candles, newest first, whatever
/// order the bars come in; all of them where there are no more.
pub fn newest_first<Q>(bars: Vec<Bar<Q>>, max_ticks: usize) -> (r: Vec<Candle<Q>>)
    ensures
        is_newest_first(bars@, max_ticks as nat, r@),
        r@.len() == if bars@.len() <= max_ticks { bars@.len() } else { max_ticks as nat },
        forall|i: int, j: int| 0 <= i < j < r@.len() ==> r@[i].time >= r@[j].time,
{
    let ghost all = bars@;
    let ghost n = all.len() as int;
    let mut rest = bars;
    let mut out: Vec<Candle<Q>> = Vec::new();
    let ghost mut rem: Seq<int> = Seq::new(all.len(), |k: int| k);
    let ghost mut taken: Seq<int> = Seq::empty();
    assert forall|k: int| 0 <= k < n implies rem.contains(k) || taken.contains(k) by {
        assert(rem[k] == k);
    }
    while out.len() < max_ticks && rest.len() > 0
        invariant
            n == all.len(),
            out@.len() <= max_ticks,
            rest@.len() == rem.len(),
            out@.len() == taken.len(),
            rem.len() + taken.len() == n,
            rem.no_duplicates(),
            taken.no_duplicates(),
            forall|k: int| 0 <= k < rem.len() ==> 0 <= #[trigger] rem[k] < n && rest@[k] == all[rem[k]],
            forall|i: int|
                0 <= i < taken.len() ==> 0 <= #[trigger] taken[i] < n && out@[i] == candle_of(
                    all[taken[i]],
                ),
            forall|i: int, k: int| 0 <= i < taken.len() && 0 <= k < rem.len() ==> taken[i] != rem[k],
            forall|k: int| 0 <= k < n ==> rem.contains(k) || taken.contains(k),
            forall|i: int, j: int|
                0 <= i < j < taken.len() ==> all[taken[i]].timestamp >= all[taken[j]].timestamp,
            forall|i: int, k: int|
                0 <= i < taken.len() && 0 <= k < rem.len() ==> all[taken[i]].timestamp
                    >= all[rem[k]].timestamp,
        decreases rest@.len(),
    {
        let p = latest_position(&rest);
        let ghost pick = rem[p as int];
        let ghost old_rem = rem;
        let ghost old_taken = taken;
        let bar = rest.remove(p);
        let time = to_day_seconds(bar.timestamp);
        out.push(Candle { time, quote: bar.quote });
        proof {
            rem = old_rem.remove(p as int);
            taken = old_taken.push(pick);
            assert forall|k: int| 0 <= k < rem.len() implies 0 <= #[trigger] rem[k] < n && rest@[k]
                == all[rem[k]] by {
                if k < p {
                    assert(rem[k] == old_rem[k]);
                } else {
                    assert(rem[k] == old_rem[k + 1]);
                }
            }
            assert forall|i: int| 0 <= i < taken.len() implies 0 <= #[trigger] taken[i] < n
                && out@[i] == candle_of(all[taken[i]]) by {
                if i < old_taken.len() {
                    assert(taken[i] == old_taken[i]);
                }
            }
            assert forall|a: int, b: int| 0 <= a < b < rem.len() implies rem[a] != rem[b] by {
                let oa = if a < p { a } else { a + 1 };
                let ob = if b < p { b } else { b + 1 };
                assert(rem[a] == old_rem[oa]);
                assert(rem[b] == old_rem[ob]);
            }
            assert forall|a: int, b: int| 0 <= a < b < taken.len() implies taken[a] != taken[b] by {
                if b == old_taken.len() {
                    assert(taken[a] == old_taken[a]);
                } else {
                    assert(taken[a] == old_taken[a]);
                    assert(taken[b] == old_taken[b]);
                }
            }
            assert forall|i: int, k: int| 0 <= i < taken.len() && 0 <= k < rem.len() implies taken[i]
                != rem[k] by {
                let ok = if k < p { k } else { k + 1 };
                assert(rem[k] == old_rem[ok]);
                if i < old_taken.len() {
                    assert(taken[i] == old_taken[i]);
                }
            }
            assert forall|k: int| 0 <= k < n implies rem.contains(k) || taken.contains(k) by {
                if old_taken.contains(k) {
                    let w = choose|w: int| 0 <= w < old_taken.len() && old_taken[w] == k;
                    assert(taken[w] == k);
                } else {
                    let w = choose|w: int| 0 <= w < old_rem.len() && old_rem[w] == k;
                    if w == p {
                        assert(taken[old_taken.len() as int] == k);
                    } else if w < p {
                        assert(rem[w] == k);
                    } else {
                        assert(rem[w - 1] == k);
                    }
                }
            }
            assert forall|i: int, j: int| 0 <= i < j < taken.len() implies all[taken[i]].timestamp
                >= all[taken[j]].timestamp by {
                assert(taken[i] == old_taken[i]);
                if j < old_taken.len() {
                    assert(taken[j] == old_taken[j]);
                } else {
                    assert(old_rem[p as int] == pick);
                }
            }
            assert forall|i: int, k: int| 0 <= i < taken.len() && 0 <= k < rem.len() implies all[taken[i]].timestamp
                >= all[rem[k]].timestamp by {
                let ok = if k < p { k } else { k + 1 };
                assert(rem[k] == old_rem[ok]);
                assert(rest@.len() == rem.len());
                if i < old_taken.len() {
                    assert(taken[i] == old_taken[i]);
                } else {
                    assert(old_rem[ok] != pick);
                }
            }
        }
    }
    proof {
        assert forall|i: int, k: int|
            0 <= i < out@.len() && 0 <= k < n && !taken.contains(k) implies all[taken[i]].timestamp
                >= all[k].timestamp by {
            let w = choose|w: int| 0 <= w < rem.len() && rem[w] == k;
        }
        assert(newest_first_by(all, max_ticks as nat, out@, taken));
        assert forall|i: int, j: int| 0 <= i < j < out@.len() implies out@[i].time >= out@[j].time by {
            assert(out@[i] == candle_of(all[taken[i]]));
            assert(out@[j] == candle_of(all[taken[j]]));
        }
    }
    out
}

/// What a history request makes of the provider's answer: a failure is a
/// `ProviderError`, and bars become the candles of the `max_ticks` newest of
/// them, newest first.
pub fn history_from_answer<Q>(answer: Result<Vec<Bar<Q>>, String>, max_ticks: usize) -> (r: Result<
    Vec<Candle<Q>>,
    HistoryError,
>)
    ensures
        answer is Err ==> r == Err::<Vec<Candle<Q>>, HistoryError>(HistoryError::ProviderError),
        answer matches Ok(bars) ==> (r matches Ok(candles) && is_newest_first(
            bars@,
            max_ticks as nat,
            candles@,
        )),
{
    match answer {
        Ok(bars) => Ok(newest_first(bars, max_ticks)),
        Err(_) => Err(HistoryError::ProviderError),
    }
}

/// Fetches the one-minute bars of `symbol` between two dates given in
/// seconds since the reference instant, the start moved forward into the
/// retention window of `window` seconds; returns the candles of the
/// `max_ticks` newest bars, newest first. Without a login configuration it
/// fails before any network call.
pub fn fetch_history(
    config: &Option<SessionConfig>,
    symbol: &str,
    start_day: i128,
    end_day: i128,
    tick_minutes: i32,
    max_ticks: usize,
    window: i64,
) -> (r: Result<Vec<Candle<tradier::types::TimeSalesEntry>>, HistoryError>)
    requires
        window >= 0,
    ensures
        r == Err::<Vec<Candle<tradier::types::TimeSalesEntry>>, HistoryError>(
            HistoryError::SessionNotReady,
        ) <==> config is None,
        r == Err::<Vec<Candle<tradier::types::TimeSalesEntry>>, HistoryError>(
            HistoryError::UnsupportedGranularity,
        ) <==> config is Some && tick_minutes != 1,
        r == Err::<Vec<Candle<tradier::types::TimeSalesEntry>>, HistoryError>(
            HistoryError::DateOutOfRange,
        ) <==> config is Some && tick_minutes == 1 && (!fits_i64(epoch_seconds_of(start_day as int))
            || !fits_i64(epoch_seconds_of(end_day as int))),
        config is Some && tick_minutes == 1 && fits_i64(epoch_seconds_of(start_day as int))
            && fits_i64(epoch_seconds_of(end_day as int)) ==> (r is Ok || r == Err::<
            Vec<Candle<tradier::types::TimeSalesEntry>>,
            HistoryError,
        >(HistoryError::ProviderError)),
        r matches Ok(candles) ==> exists|bars: Seq<Bar<tradier::types::TimeSalesEntry>>|
            #[trigger] is_newest_first(bars, max_ticks as nat, candles@),
{
    let settings = match config {
        Some(settings) => settings,
        None => return Err(HistoryError::SessionNotReady),
    };
    let now = now_seconds();
    let query = match history_query(true, start_day, end_day, tick_minutes, now, window) {
        Ok(query) => query,
        Err(e) => return Err(e),
    };
    let client = match connect(settings) {
        Ok(client) => client,
        Err(_) => return Err(HistoryError::ProviderError),
    };
    let answer = time_and_sales(&client, symbol, query.start, query.end);
    let ghost provided = answer;
    let r = history_from_answer(answer, max_ticks);
    proof {
        if let Ok(bars) = provided {
            assert(is_newest_first(bars@, max_ticks as nat, r->Ok_0@));
        }
    }
    r
}

/// Whatever start a history request names, however far back, the query
/// that goes to the provider starts no earlier than the retention window
/// that ends at `now`, and no earlier than the requested start.
pub proof fn lemma_history_start_in_window(start_day: int, end_day: int, now: i64, window: i64)
    requires
        window >= 0,
        fits_i64(epoch_seconds_of(start_day)),
        fits_i64(epoch_seconds_of(end_day)),
    ensures
        history_query_spec(true, start_day, end_day, 1, now as int, window as int) matches Ok(q)
            && q.start >= now - window && q.start >= epoch_seconds_of(start_day),
{
    let q = clamped_start(epoch_seconds_of(start_day), now as int, window as int);
    assert(fits_i64(q));
}

/// Candles of a history answer copied into a buffer of `max_ticks` records:
/// where the provider sent more bars than that, exactly `max_ticks` records
/// are written; else exactly as many as there were bars.
pub proof fn lemma_history_truncation<Q>(bars: Seq<Bar<Q>>, max_ticks: nat, out: Seq<Candle<Q>>)
    requires
        is_newest_first(bars, max_ticks, out),
    ensures
        bars.len() > max_ticks ==> written(out.len(), max_ticks) == max_ticks,
        bars.len() <= max_ticks ==> written(out.len(), max_ticks) == bars.len(),
{
    let picks = choose|picks: Seq<int>| newest_first_by(bars, max_ticks, out, picks);
}

/// Where the bars' timestamps are distinct, the candles come out strictly
/// newest first, whatever order the provider sent the bars in, and the
/// first candle stands for the latest bar.
pub proof fn lemma_newest_first_descending<Q>(bars: Seq<Bar<Q>>, max_ticks: nat, out: Seq<Candle<Q>>)
    requires
        is_newest_first(bars, max_ticks, out),
        forall|a: int, b: int|
            0 <= a < b < bars.len() ==> bars[a].timestamp != bars[b].timestamp,
    ensures
        forall|i: int, j: int| 0 <= i < j < out.len() ==> out[i].time > out[j].time,
        out.len() > 0 ==> forall|k: int|
            0 <= k < bars.len() ==> day_seconds_of(bars[k].timestamp as int) <= out[0].time,
{
    let picks = choose|picks: Seq<int>| newest_first_by(bars, max_ticks, out, picks);
    assert forall|i: int, j: int| 0 <= i < j < out.len() implies out[i].time > out[j].time by {
        assert(picks[i] != picks[j]);
        assert(0 <= picks[i] < bars.len() && 0 <= picks[j] < bars.len());
        if picks[i] < picks[j] {
            assert(bars[picks[i]].timestamp != bars[picks[j]].timestamp);
        } else {
            assert(bars[picks[j]].timestamp != bars[picks[i]].timestamp);
        }
    }
    if out.len() > 0 {
        assert forall|k: int| 0 <= k < bars.len() implies day_seconds_of(bars[k].timestamp as int)
            <= out[0].time by {
            assert(0 <= picks[0] < bars.len());
            if picks.contains(k) {
                let w = choose|w: int| 0 <= w < picks.len() && picks[w] == k;
                if w > 0 {
                    assert(bars[picks[0]].timestamp >= bars[picks[w]].timestamp);
                }
            }
        }
    }
}

} // verus!
