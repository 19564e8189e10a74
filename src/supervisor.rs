//! The connection supervisor's decisions: what each outcome of a daemon
//! call does to the shared state, and how long to wait before the next
//! connection attempt. The caller performs the calls and the waits.
use vstd::prelude::*;
use vstd::string::StringExecFns;
use crate::status::{
    copy_text, failure_summary, initializing_text, not_responding_text, opt_version_view, opt_view,
    reconnecting_text, timeout_text, DockerError, DockerStatus, DockerVersion,
};

verus! {

/// Wait after a failed attempt once the retry limit is reached: short, so
/// that a daemon in the middle of a restart is seen again quickly.
pub const FAST_RETRY_DELAY_MS: u64 = 500;

/// First step of the exponential backoff below the retry limit.
pub const BACKOFF_BASE_MS: u64 = 500;

/// The backoff stops growing at this power of two.
pub const BACKOFF_MAX_EXPONENT: u32 = 3;

/// Pause before the first tick of the supervisor's loop.
pub const STARTUP_DELAY_MS: u64 = 2000;

/// Time allowed to each update lookup; remote sources are slower than the daemon.
pub const UPDATE_CHECK_TIMEOUT_MS: u64 = 15000;

/// Timings and limits of the supervisor, in milliseconds.
#[derive(Debug, Clone, Copy, PartialEq, Eq)]
pub struct MonitoringConfig {
    pub retry_interval_ms: u64,
    pub health_check_interval_ms: u64,
    pub update_check_interval_ms: u64,
    pub connection_timeout_ms: u64,
    pub max_retries: u32,
}

impl Default for MonitoringConfig {
    fn default() -> (r: MonitoringConfig)
        ensures
            r.retry_interval_ms == 1000,
            r.health_check_interval_ms == 30000,
            r.update_check_interval_ms == 3600000,
            r.connection_timeout_ms == 5000,
            r.max_retries == 3,
    {
        MonitoringConfig {
            retry_interval_ms: 1000,
            health_check_interval_ms: 30000,
            update_check_interval_ms: 3600000,
            connection_timeout_ms: 5000,
            max_retries: 3,
        }
    }
}

pub open spec fn pow2(e: nat) -> nat
    decreases e,
{
    if e == 0 {
        1
    } else {
        2 * pow2((e - 1) as nat)
    }
}

/// The retry counter after one more failure; it stops at its largest value.
pub open spec fn next_retry_count(c: u32) -> u32 {
    if c < u32::MAX {
        (c + 1) as u32
    } else {
        c
    }
}

/// The wait before the next attempt, once `retry_count` failures have been
/// counted: the fast fixed delay at or past the limit, else the base delay
/// times two to the power of the count, the power capped.
pub open spec fn retry_delay_ms(retry_count: u32, max_retries: u32) -> nat {
    if retry_count >= max_retries {
        FAST_RETRY_DELAY_MS as nat
    } else if retry_count <= BACKOFF_MAX_EXPONENT {
        BACKOFF_BASE_MS as nat * pow2(retry_count as nat)
    } else {
        BACKOFF_BASE_MS as nat * pow2(BACKOFF_MAX_EXPONENT as nat)
    }
}

/// The retry counter after `failures` failed attempts in a row, from `start`.
pub open spec fn retry_count_after(start: u32, failures: nat) -> u32
    decreases failures,
{
    if failures == 0 {
        start
    } else {
        next_retry_count(retry_count_after(start, (failures - 1) as nat))
    }
}

/// Whether an update check is due: none has run yet, or the last one is at
/// least one interval old.
pub open spec fn update_check_due_at(last: Option<u64>, now_ms: u64, interval_ms: u64) -> bool {
    match last {
        None => true,
        Some(t) => now_ms >= t && now_ms - t >= interval_ms,
    }
}

/// The delay before the next connection attempt.
pub fn retry_delay(retry_count: u32, max_retries: u32) -> (r: u64)
    ensures
        r as nat == retry_delay_ms(retry_count, max_retries),
{
    proof {
        reveal_with_fuel(pow2, 4);
    }
    if retry_count >= max_retries {
        FAST_RETRY_DELAY_MS
    } else if retry_count == 0 {
        BACKOFF_BASE_MS
    } else if retry_count == 1 {
        BACKOFF_BASE_MS * 2
    } else if retry_count == 2 {
        BACKOFF_BASE_MS * 4
    } else {
        BACKOFF_BASE_MS * 8
    }
}

proof fn lemma_retry_count_after(start: u32, failures: nat)
    ensures
        retry_count_after(start, failures) as nat == (if start + failures <= u32::MAX {
            (start + failures) as nat
        } else {
            u32::MAX as nat
        }),
    decreases failures,
{
    if failures > 0 {
        lemma_retry_count_after(start, (failures - 1) as nat);
    }
}

/// Once `max_retries` attempts in a row have failed, whatever the retry
/// counter held before them, the next attempt is made after the fast fixed
/// delay, not after a longer backoff.
pub proof fn lemma_fast_retry_after_max_failures(start: u32, failures: nat, max_retries: u32)
    requires
        failures >= max_retries,
    ensures
        retry_delay_ms(retry_count_after(start, failures), max_retries)
            == FAST_RETRY_DELAY_MS as nat,
{
    lemma_retry_count_after(start, failures);
}

/// A successful connection resets the backoff: it leaves the retry counter
/// at zero, so the first failure after it waits as long as the very first
/// failure does, however many failures came before.
pub proof fn lemma_backoff_restarts_after_connect(max_retries: u32)
    ensures
        retry_delay_ms(next_retry_count(0), max_retries) == (if max_retries <= 1 {
            FAST_RETRY_DELAY_MS as nat
        } else {
            2 * BACKOFF_BASE_MS as nat
        }),
{
    reveal_with_fuel(pow2, 2);
}

/// The state that the supervisor, the event monitor and the update
/// checker share: the current snapshot and the retry bookkeeping.
pub struct DockerState {
    pub status: DockerStatus,
    /// Whether a daemon connection is held.
    pub connected: bool,
    pub config: MonitoringConfig,
    pub retry_count: u32,
    /// Monotonic time of the last scheduled update check, in milliseconds.
    pub last_update_check_ms: Option<u64>,
}

impl DockerState {
    pub open spec fn wf(&self) -> bool {
        self.status.wf()
    }

    /// The state at start-up: not connected, "Initializing...", default
    /// configuration.
    pub fn new() -> (r: DockerState)
        ensures
            r.wf(),
            !r.connected,
            r.retry_count == 0,
            r.last_update_check_ms is None,
            r.config.max_retries == 3,
            r.config.retry_interval_ms == 1000,
            r.config.health_check_interval_ms == 30000,
            r.config.update_check_interval_ms == 3600000,
            r.config.connection_timeout_ms == 5000,
            !r.status.is_running,
            opt_view(r.status.error) == Some(initializing_text()),
            r.status.engine_version is None,
            r.status.desktop_version is None,
            r.status.engine_update_available is None,
            r.status.desktop_update_available is None,
            r.status.container_count is None,
            r.status.last_checked is None,
    {
        DockerState {
            status: DockerStatus::initializing(),
            connected: false,
            config: MonitoringConfig::default(),
            retry_count: 0,
            last_update_check_ms: None,
        }
    }

    /// Whether the reconnect timer should attempt a connection; while a
    /// connection is held its tick does nothing.
    pub fn needs_connection(&self) -> (r: bool)
        ensures
            r == !self.connected,
    {
        !self.connected
    }

    /// A copy of the current snapshot.
    pub fn get_status(&self) -> (r: DockerStatus)
        ensures
            r@ == self.status@,
    {
        self.status.snapshot()
    }

    /// The daemon's version facts, or an error text when none are known.
    pub fn engine_version(&self) -> (r: Result<DockerVersion, String>)
        ensures
            match r {
                Ok(v) => opt_version_view(self.status.engine_version) == Some(v@),
                Err(e) => self.status.engine_version is None && e@
                    == "Docker version not available"@,
            },
    {
        match &self.status.engine_version {
            Some(v) => Ok(v.copy()),
            None => Err(String::from_str("Docker version not available")),
        }
    }

    /// A connection was made: the snapshot becomes healthy with the facts
    /// just learned, the connection is held, the retry counter restarts.
    pub fn on_connected(
        &mut self,
        engine_version: DockerVersion,
        desktop_version: Option<String>,
        container_count: Option<i32>,
        now: String,
    )
        ensures
            final(self).wf(),
            final(self).connected,
            final(self).retry_count == 0,
            final(self).status.is_running,
            final(self).status.error is None,
            opt_version_view(final(self).status.engine_version) == Some(engine_version@),
            opt_view(final(self).status.desktop_version) == opt_view(desktop_version),
            final(self).status.engine_update_available is None,
            final(self).status.desktop_update_available is None,
            final(self).status.container_count == container_count,
            opt_view(final(self).status.last_checked) == Some(now@),
            final(self).config == old(self).config,
            final(self).last_update_check_ms == old(self).last_update_check_ms,
    {
        self.status = DockerStatus::connected(engine_version, desktop_version, container_count, now);
        self.connected = true;
        self.retry_count = 0;
    }

    /// An attempt to connect failed: the snapshot says why and forgets the
    /// daemon, the retry counter grows by one (saturating), and the result
    /// is the wait before the next attempt.
    pub fn on_connect_failed(&mut self, error: &DockerError, now: String) -> (delay_ms: u64)
        ensures
            final(self).wf(),
            !final(self).connected,
            final(self).retry_count == next_retry_count(old(self).retry_count),
            delay_ms as nat == retry_delay_ms(
                final(self).retry_count,
                final(self).config.max_retries,
            ),
            !final(self).status.is_running,
            opt_view(final(self).status.error) == Some(failure_summary(*error)),
            final(self).status.engine_version is None,
            final(self).status.desktop_version is None,
            final(self).status.engine_update_available is None,
            final(self).status.desktop_update_available is None,
            final(self).status.container_count is None,
            opt_view(final(self).status.last_checked) == Some(now@),
            final(self).config == old(self).config,
            final(self).last_update_check_ms == old(self).last_update_check_ms,
    {
        self.status.mark_connect_failed(error, now);
        self.connected = false;
        if self.retry_count < u32::MAX {
            self.retry_count = self.retry_count + 1;
        }
        retry_delay(self.retry_count, self.config.max_retries)
    }

    /// Whether a health check can run: it needs a held connection.
    pub fn health_check_ready(&self) -> (r: Result<(), DockerError>)
        ensures
            r is Ok <==> self.connected,
            r is Err ==> r == Err::<(), DockerError>(DockerError::ConnectionLost),
    {
        if self.connected {
            Ok(())
        } else {
            Err(DockerError::ConnectionLost)
        }
    }

    /// The daemon answered a health check: the snapshot is healthy,
    /// whatever it was before, with the fresh container count.
    pub fn on_health_ok(&mut self, container_count: Option<i32>, now: String)
        ensures
            final(self).wf(),
            final(self).status.is_running,
            final(self).status.error is None,
            final(self).status.container_count == container_count,
            opt_view(final(self).status.last_checked) == Some(now@),
            final(self).status@.engine_version == old(self).status@.engine_version,
            final(self).status@.desktop_version == old(self).status@.desktop_version,
            final(self).status.engine_update_available
                == old(self).status.engine_update_available,
            final(self).status.desktop_update_available
                == old(self).status.desktop_update_available,
            final(self).connected == old(self).connected,
            final(self).retry_count == old(self).retry_count,
            final(self).config == old(self).config,
            final(self).last_update_check_ms == old(self).last_update_check_ms,
    {
        self.status.mark_healthy(container_count, now);
    }

    /// A health check failed or timed out: the connection is dropped, and a
    /// healthy snapshot becomes unhealthy without container count or update
    /// verdicts (an unhealthy one is left as it is). Returns the error that the check reports.
    pub fn on_health_failed(&mut self, timed_out: bool, now: String) -> (r: DockerError)
        requires
            old(self).wf(),
        ensures
            final(self).wf(),
            !final(self).connected,
            r == (if timed_out {
                DockerError::Timeout
            } else {
                DockerError::ConnectionLost
            }),
            old(self).status.is_running ==> {
                &&& !final(self).status.is_running
                &&& opt_view(final(self).status.error) == Some(
                    if timed_out {
                        timeout_text()
                    } else {
                        not_responding_text()
                    },
                )
                &&& final(self).status.container_count is None
                &&& final(self).status.engine_update_available is None
                &&& final(self).status.desktop_update_available is None
                &&& opt_view(final(self).status.last_checked) == Some(now@)
                &&& final(self).status@.engine_version == old(self).status@.engine_version
                &&& final(self).status@.desktop_version == old(self).status@.desktop_version
            },
            !old(self).status.is_running ==> final(self).status@ == old(self).status@,
            final(self).retry_count == old(self).retry_count,
            final(self).config == old(self).config,
            final(self).last_update_check_ms == old(self).last_update_check_ms,
    {
        self.connected = false;
        self.status.mark_unresponsive(timed_out, now)
    }

    /// The daemon's event stream ended or broke: the connection is dropped.
    /// A healthy snapshot becomes "reconnecting" and keeps its version
    /// facts; an unhealthy one is left as it is. Returns whether the
    /// snapshot changed, and so whether it is to be published.
    pub fn on_event_stream_lost(&mut self, now: String) -> (publish: bool)
        requires
            old(self).wf(),
        ensures
            final(self).wf(),
            !final(self).connected,
            publish == old(self).status.is_running,
            publish ==> {
                &&& !final(self).status.is_running
                &&& opt_view(final(self).status.error) == Some(reconnecting_text())
                &&& final(self).status.container_count is None
                &&& opt_view(final(self).status.last_checked) == Some(now@)
                &&& final(self).status@.engine_version == old(self).status@.engine_version
                &&& final(self).status@.desktop_version == old(self).status@.desktop_version
            },
            !publish ==> final(self).status@ == old(self).status@,
            final(self).retry_count == old(self).retry_count,
            final(self).config == old(self).config,
            final(self).last_update_check_ms == old(self).last_update_check_ms,
    {
        self.connected = false;
        self.status.mark_stream_lost(now)
    }

    /// Whether the update-check timer's tick should run a check at the
    /// monotonic time `now_ms`: skipped when one ran within the interval.
    pub fn update_check_due(&self, now_ms: u64) -> (r: bool)
        ensures
            r == update_check_due_at(
                self.last_update_check_ms,
                now_ms,
                self.config.update_check_interval_ms,
            ),
    {
        match self.last_update_check_ms {
            None => true,
            Some(t) => now_ms >= t && now_ms - t >= self.config.update_check_interval_ms,
        }
    }

    /// The versions that an update check looks up, copied out so that no
    /// lock need be held while the lookups run: the engine's version and
    /// the desktop application's.
    pub fn update_check_targets(&self) -> (r: (Option<String>, Option<String>))
        ensures
            opt_view(r.0) == (match self.status.engine_version {
                Some(v) => Some(v.version@),
                None => None,
            }),
            opt_view(r.1) == opt_view(self.status.desktop_version),
    {
        let engine = match &self.status.engine_version {
            Some(v) => Some(v.version.clone()),
            None => None,
        };
        (engine, copy_text(&self.status.desktop_version))
    }

    /// A scheduled update check finished at the monotonic time `now_ms`:
    /// both verdicts are replaced and the check's time is recorded.
    pub fn on_update_check_done(
        &mut self,
        engine_update: Option<bool>,
        desktop_update: Option<bool>,
        now: String,
        now_ms: u64,
    )
        requires
            old(self).wf(),
        ensures
            final(self).wf(),
            final(self).status.engine_update_available == engine_update,
            final(self).status.desktop_update_available == desktop_update,
            opt_view(final(self).status.last_checked) == Some(now@),
            final(self).last_update_check_ms == Some(now_ms),
            final(self).status.is_running == old(self).status.is_running,
            final(self).status@.error == old(self).status@.error,
            final(self).status@.engine_version == old(self).status@.engine_version,
            final(self).status@.desktop_version == old(self).status@.desktop_version,
            final(self).status.container_count == old(self).status.container_count,
            final(self).connected == old(self).connected,
            final(self).retry_count == old(self).retry_count,
            final(self).config == old(self).config,
    {
        self.status.record_update_check(engine_update, desktop_update, now);
        self.last_update_check_ms = Some(now_ms);
    }

    /// The lookups started right after a connection finished: each verdict
    /// that was determined replaces the old one.
    pub fn on_connect_update_results(
        &mut self,
        engine_update: Option<bool>,
        desktop_update: Option<bool>,
    )
        requires
            old(self).wf(),
        ensures
            final(self).wf(),
            final(self).status.engine_update_available == (if engine_update is Some {
                engine_update
            } else {
                old(self).status.engine_update_available
            }),
            final(self).status.desktop_update_available == (if desktop_update is Some {
                desktop_update
            } else {
                old(self).status.desktop_update_available
            }),
            final(self).status.is_running == old(self).status.is_running,
            final(self).status@.error == old(self).status@.error,
            final(self).status@.engine_version == old(self).status@.engine_version,
            final(self).status@.desktop_version == old(self).status@.desktop_version,
            final(self).status.container_count == old(self).status.container_count,
            final(self).status@.last_checked == old(self).status@.last_checked,
            final(self).connected == old(self).connected,
            final(self).retry_count == old(self).retry_count,
            final(self).config == old(self).config,
            final(self).last_update_check_ms == old(self).last_update_check_ms,
    {
        self.status.merge_update_results(engine_update, desktop_update);
    }
}

} // verus!
