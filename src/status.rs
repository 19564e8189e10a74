//! The daemon status snapshot and the transitions that change it.
use vstd::prelude::*;
use vstd::string::StringExecFns;

verus! {

/// Why an attempt to reach the daemon failed.
#[derive(Debug, Clone, PartialEq, Eq)]
pub enum DockerError {
    NotRunning,
    StartingUp,
    Timeout,
    ConnectionLost,
    Restarting,
    ConnectionFailed(String),
}

/// Version facts reported by the daemon.
#[derive(Debug, Clone, PartialEq, Eq)]
pub struct DockerVersion {
    pub version: String,
    pub api_version: String,
    pub os: String,
    pub arch: String,
}

/// The latest known health of the daemon, as handed to consumers.
#[derive(Debug, Clone, PartialEq, Eq)]
pub struct DockerStatus {
    pub is_running: bool,
    pub engine_version: Option<DockerVersion>,
    pub desktop_version: Option<String>,
    pub engine_update_available: Option<bool>,
    pub desktop_update_available: Option<bool>,
    pub error: Option<String>,
    pub container_count: Option<i32>,
    pub last_checked: Option<String>,
}

pub struct VersionView {
    pub version: Seq<char>,
    pub api_version: Seq<char>,
    pub os: Seq<char>,
    pub arch: Seq<char>,
}

pub struct StatusView {
    pub is_running: bool,
    pub engine_version: Option<VersionView>,
    pub desktop_version: Option<Seq<char>>,
    pub engine_update_available: Option<bool>,
    pub desktop_update_available: Option<bool>,
    pub error: Option<Seq<char>>,
    pub container_count: Option<i32>,
    pub last_checked: Option<Seq<char>>,
}

pub open spec fn opt_view(o: Option<String>) -> Option<Seq<char>> {
    match o {
        Some(s) => Some(s@),
        None => None,
    }
}

impl View for DockerVersion {
    type V = VersionView;

    open spec fn view(&self) -> VersionView {
        VersionView {
            version: self.version@,
            api_version: self.api_version@,
            os: self.os@,
            arch: self.arch@,
        }
    }
}

pub open spec fn opt_version_view(o: Option<DockerVersion>) -> Option<VersionView> {
    match o {
        Some(v) => Some(v@),
        None => None,
    }
}

impl View for DockerStatus {
    type V = StatusView;

    open spec fn view(&self) -> StatusView {
        StatusView {
            is_running: self.is_running,
            engine_version: opt_version_view(self.engine_version),
            desktop_version: opt_view(self.desktop_version),
            engine_update_available: self.engine_update_available,
            desktop_update_available: self.desktop_update_available,
            error: opt_view(self.error),
            container_count: self.container_count,
            last_checked: opt_view(self.last_checked),
        }
    }
}

/// The text of an error, as a person reads it.
pub open spec fn error_text(e: DockerError) -> Seq<char> {
    match e {
        DockerError::NotRunning => "Docker is not running"@,
        DockerError::StartingUp => "Docker is starting up"@,
        DockerError::Timeout => "Docker connection timeout"@,
        DockerError::ConnectionLost => "Docker connection lost"@,
        DockerError::Restarting => "Docker is restarting"@,
        DockerError::ConnectionFailed(d) => "Failed to connect to Docker: "@ + d@,
    }
}

/// The text that a failed connection attempt leaves on the snapshot: the
/// detail of a generic failure is not shown.
pub open spec fn failure_summary(e: DockerError) -> Seq<char> {
    match e {
        DockerError::ConnectionFailed(_) => "Docker connection failed"@,
        _ => error_text(e),
    }
}

pub open spec fn initializing_text() -> Seq<char> {
    "Initializing..."@
}

pub open spec fn not_responding_text() -> Seq<char> {
    "Docker is not responding"@
}

pub open spec fn reconnecting_text() -> Seq<char> {
    "Connection lost, attempting to reconnect..."@
}

pub open spec fn timeout_text() -> Seq<char> {
    "Docker connection timeout"@
}

impl DockerError {
    /// The error's text.
    pub fn message(&self) -> (r: String)
        ensures
            r@ == error_text(*self),
    {
        match self {
            DockerError::NotRunning => String::from_str("Docker is not running"),
            DockerError::StartingUp => String::from_str("Docker is starting up"),
            DockerError::Timeout => String::from_str("Docker connection timeout"),
            DockerError::ConnectionLost => String::from_str("Docker connection lost"),
            DockerError::Restarting => String::from_str("Docker is restarting"),
            DockerError::ConnectionFailed(d) => {
                let head = String::from_str("Failed to connect to Docker: ");
                head.concat(d.as_str())
            },
        }
    }

    /// The text that a failed connection attempt puts on the snapshot.
    pub fn summary(&self) -> (r: String)
        ensures
            r@ == failure_summary(*self),
    {
        match self {
            DockerError::ConnectionFailed(_) => String::from_str("Docker connection failed"),
            _ => self.message(),
        }
    }
}

pub fn copy_text(o: &Option<String>) -> (r: Option<String>)
    ensures
        opt_view(r) == opt_view(*o),
{
    match o {
        Some(s) => Some(s.clone()),
        None => None,
    }
}

pub open spec fn or_unknown(o: Option<String>) -> Seq<char> {
    match o {
        Some(s) => s@,
        None => "Unknown"@,
    }
}

fn text_or_unknown(o: Option<String>) -> (r: String)
    ensures
        r@ == or_unknown(o),
{
    match o {
        Some(s) => s,
        None => String::from_str("Unknown"),
    }
}

impl DockerVersion {
    /// The version facts as the daemon reported them, each missing one
    /// written `Unknown`.
    pub fn from_reported(
        version: Option<String>,
        api_version: Option<String>,
        os: Option<String>,
        arch: Option<String>,
    ) -> (r: DockerVersion)
        ensures
            r.version@ == or_unknown(version),
            r.api_version@ == or_unknown(api_version),
            r.os@ == or_unknown(os),
            r.arch@ == or_unknown(arch),
    {
        DockerVersion {
            version: text_or_unknown(version),
            api_version: text_or_unknown(api_version),
            os: text_or_unknown(os),
            arch: text_or_unknown(arch),
        }
    }

    /// A copy with the same text in each field.
    pub fn copy(&self) -> (r: DockerVersion)
        ensures
            r@ == self@,
    {
        DockerVersion {
            version: self.version.clone(),
            api_version: self.api_version.clone(),
            os: self.os.clone(),
            arch: self.arch.clone(),
        }
    }
}

impl DockerStatus {
    /// A healthy snapshot carries no error, an unhealthy one always does.
    pub open spec fn wf(&self) -> bool {
        self.is_running <==> self.error is None
    }

    /// The snapshot before anything is known of the daemon.
    pub fn initializing() -> (r: DockerStatus)
        ensures
            r.wf(),
            !r.is_running,
            r.engine_version is None,
            r.desktop_version is None,
            r.engine_update_available is None,
            r.desktop_update_available is None,
            opt_view(r.error) == Some(initializing_text()),
            r.container_count is None,
            r.last_checked is None,
    {
        DockerStatus {
            is_running: false,
            engine_version: None,
            desktop_version: None,
            engine_update_available: None,
            desktop_update_available: None,
            error: Some(String::from_str("Initializing...")),
            container_count: None,
            last_checked: None,
        }
    }

    /// The snapshot right after a successful connection: healthy, with
    /// the facts just learned and no update verdict yet.
    pub fn connected(
        engine_version: DockerVersion,
        desktop_version: Option<String>,
        container_count: Option<i32>,
        now: String,
    ) -> (r: DockerStatus)
        ensures
            r.wf(),
            r.is_running,
            r.error is None,
            opt_version_view(r.engine_version) == Some(engine_version@),
            opt_view(r.desktop_version) == opt_view(desktop_version),
            r.engine_update_available is None,
            r.desktop_update_available is None,
            r.container_count == container_count,
            opt_view(r.last_checked) == Some(now@),
    {
        DockerStatus {
            is_running: true,
            engine_version: Some(engine_version),
            desktop_version,
            engine_update_available: None,
            desktop_update_available: None,
            error: None,
            container_count,
            last_checked: Some(now),
        }
    }

    /// A copy of the snapshot, field for field.
    pub fn snapshot(&self) -> (r: DockerStatus)
        ensures
            r@ == self@,
            r.wf() == self.wf(),
    {
        let engine_version = match &self.engine_version {
            Some(v) => Some(v.copy()),
            None => None,
        };
        DockerStatus {
            is_running: self.is_running,
            engine_version,
            desktop_version: copy_text(&self.desktop_version),
            engine_update_available: self.engine_update_available,
            desktop_update_available: self.desktop_update_available,
            error: copy_text(&self.error),
            container_count: self.container_count,
            last_checked: copy_text(&self.last_checked),
        }
    }

    /// A failed connection attempt: unhealthy, with the error's summary,
    /// and nothing left of what was known of the daemon.
    pub fn mark_connect_failed(&mut self, error: &DockerError, now: String)
        ensures
            final(self).wf(),
            !final(self).is_running,
            opt_view(final(self).error) == Some(failure_summary(*error)),
            final(self).engine_version is None,
            final(self).desktop_version is None,
            final(self).engine_update_available is None,
            final(self).desktop_update_available is None,
            final(self).container_count is None,
            opt_view(final(self).last_checked) == Some(now@),
    {
        self.error = Some(error.summary());
        self.is_running = false;
        self.engine_version = None;
        self.desktop_version = None;
        self.engine_update_available = None;
        self.desktop_update_available = None;
        self.container_count = None;
        self.last_checked = Some(now);
    }

    /// A successful health check: healthy whatever came before, with the
    /// fresh container count; versions and update verdicts are kept.
    pub fn mark_healthy(&mut self, container_count: Option<i32>, now: String)
        ensures
            final(self).wf(),
            final(self).is_running,
            final(self).error is None,
            final(self).container_count == container_count,
            opt_view(final(self).last_checked) == Some(now@),
            final(self)@.engine_version == old(self)@.engine_version,
            final(self)@.desktop_version == old(self)@.desktop_version,
            final(self).engine_update_available == old(self).engine_update_available,
            final(self).desktop_update_available == old(self).desktop_update_available,
    {
        self.container_count = container_count;
        self.last_checked = Some(now);
        self.is_running = true;
        self.error = None;
    }

    /// A failed health check. A healthy snapshot becomes unhealthy, with a
    /// text that tells a timeout from a refusal, and loses its container
    /// count and update verdicts (its version facts stay); an unhealthy one
    /// is left as it is. Returns the error that the check reports.
    pub fn mark_unresponsive(&mut self, timed_out: bool, now: String) -> (r: DockerError)
        requires
            old(self).wf(),
        ensures
            final(self).wf(),
            r == (if timed_out {
                DockerError::Timeout
            } else {
                DockerError::ConnectionLost
            }),
            old(self).is_running ==> {
                &&& !final(self).is_running
                &&& opt_view(final(self).error) == Some(
                    if timed_out {
                        timeout_text()
                    } else {
                        not_responding_text()
                    },
                )
                &&& final(self).container_count is None
                &&& final(self).engine_update_available is None
                &&& final(self).desktop_update_available is None
                &&& opt_view(final(self).last_checked) == Some(now@)
                &&& final(self)@.engine_version == old(self)@.engine_version
                &&& final(self)@.desktop_version == old(self)@.desktop_version
            },
            !old(self).is_running ==> final(self)@ == old(self)@,
    {
        if self.is_running {
            self.is_running = false;
            self.engine_update_available = None;
            self.desktop_update_available = None;
            self.error = Some(
                if timed_out {
                    String::from_str("Docker connection timeout")
                } else {
                    String::from_str("Docker is not responding")
                },
            );
            self.container_count = None;
            self.last_checked = Some(now);
        }
        if timed_out {
            DockerError::Timeout
        } else {
            DockerError::ConnectionLost
        }
    }

    /// The daemon's event stream broke. A healthy snapshot becomes
    /// unhealthy with a "reconnecting" text and no container count, but
    /// keeps its version facts; an unhealthy one is left as it is. Returns
    /// whether the snapshot changed.
    pub fn mark_stream_lost(&mut self, now: String) -> (changed: bool)
        requires
            old(self).wf(),
        ensures
            final(self).wf(),
            changed == old(self).is_running,
            changed ==> {
                &&& !final(self).is_running
                &&& opt_view(final(self).error) == Some(reconnecting_text())
                &&& final(self).container_count is None
                &&& opt_view(final(self).last_checked) == Some(now@)
                &&& final(self)@.engine_version == old(self)@.engine_version
                &&& final(self)@.desktop_version == old(self)@.desktop_version
                &&& final(self).engine_update_available == old(self).engine_update_available
                &&& final(self).desktop_update_available == old(
                    self,
                ).desktop_update_available
            },
            !changed ==> final(self)@ == old(self)@,
    {
        if self.is_running {
            self.error = Some(String::from_str("Connection lost, attempting to reconnect..."));
            self.is_running = false;
            self.container_count = None;
            self.last_checked = Some(now);
            true
        } else {
            false
        }
    }

    /// A scheduled update check finished: both verdicts are replaced by
    /// what it found, and the time of the check is recorded.
    pub fn record_update_check(
        &mut self,
        engine_update: Option<bool>,
        desktop_update: Option<bool>,
        now: String,
    )
        requires
            old(self).wf(),
        ensures
            final(self).wf(),
            final(self).engine_update_available == engine_update,
            final(self).desktop_update_available == desktop_update,
            opt_view(final(self).last_checked) == Some(now@),
            final(self).is_running == old(self).is_running,
            final(self)@.error == old(self)@.error,
            final(self)@.engine_version == old(self)@.engine_version,
            final(self)@.desktop_version == old(self)@.desktop_version,
            final(self).container_count == old(self).container_count,
    {
        self.engine_update_available = engine_update;
        self.desktop_update_available = desktop_update;
        self.last_checked = Some(now);
    }

    /// Verdicts found right after a connection: each one that was
    /// determined replaces the old; an undetermined one leaves it.
    pub fn merge_update_results(&mut self, engine_update: Option<bool>, desktop_update: Option<bool>)
        requires
            old(self).wf(),
        ensures
            final(self).wf(),
            final(self).engine_update_available == (if engine_update is Some {
                engine_update
            } else {
                old(self).engine_update_available
            }),
            final(self).desktop_update_available == (if desktop_update is Some {
                desktop_update
            } else {
                old(self).desktop_update_available
            }),
            final(self).is_running == old(self).is_running,
            final(self)@.error == old(self)@.error,
            final(self)@.engine_version == old(self)@.engine_version,
            final(self)@.desktop_version == old(self)@.desktop_version,
            final(self).container_count == old(self).container_count,
            final(self)@.last_checked == old(self)@.last_checked,
    {
        if engine_update.is_some() {
            self.engine_update_available = engine_update;
        }
        if desktop_update.is_some() {
            self.desktop_update_available = desktop_update;
        }
    }
}

} // verus!
