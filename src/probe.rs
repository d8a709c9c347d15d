//! The decisions of the network probe, apart from the network itself.
//!
//! The probe runs four measurements in a fixed order: the external address,
//! a download sample, an upload sample and a series of ping attempts. A
//! `Probe` holds what has been learnt so far; the caller performs the
//! `Action` it asks for, hands back what happened as an `Event`, and receives
//! the next action. Only a transport failure while learning the external
//! address stops the run; any other failure leaves a zero figure.
use crate::fixed::{fixed2_text, hundredths, Fraction};
use crate::measure::{mbps_num, ping_mean, success_count, success_total, throughput_mbps, Elapsed};
use vstd::prelude::*;

verus! {

/// Size of the payload requested for the download sample, in bytes.
pub const DOWNLOAD_BYTES: u64 = 100_000_000;

/// Size of the zero-filled payload sent for the upload sample, in bytes.
pub const UPLOAD_BYTES: u64 = 10_000_000;

/// Number of ping attempts.
pub const PING_ATTEMPTS: usize = 4;

/// Pause after each ping attempt, in milliseconds.
pub const PING_PAUSE_MS: u64 = 500;

/// Whether an HTTP status code reports success (the 2xx class).
pub open spec fn is_success_status(code: u16) -> bool {
    200 <= code <= 299
}

/// Whether an HTTP status code reports success (the 2xx class).
pub fn status_is_success(code: u16) -> (r: bool)
    ensures
        r == is_success_status(code),
{
    200 <= code && code <= 299
}

/// Where the probe stands.
#[derive(Clone, Copy, Debug, PartialEq, Eq, Structural)]
pub enum Phase {
    AwaitIpStatus,
    AwaitIpBody,
    AwaitDownload,
    AwaitUpload,
    AwaitPing,
    Done,
    Aborted,
}

/// What the caller is to do next.
#[derive(Clone, Copy, Debug, PartialEq, Eq, Structural)]
pub enum Action {
    /// Send the request for the external address and report its status.
    RequestIp,
    /// Read the body of the address response as text.
    ReadIpBody,
    /// Fetch `DOWNLOAD_BYTES` bytes and time the request until the whole body
    /// has arrived.
    Download,
    /// Send `UPLOAD_BYTES` zero bytes and time the request until the response.
    Upload,
    /// Send one ping request, time it, then pause `PING_PAUSE_MS` milliseconds.
    Ping,
    /// All measurements are in.
    Finish,
    /// The external address could not be fetched: stop the run.
    Abort,
}

/// What happened when the caller performed an action.
#[derive(Debug)]
pub enum Event {
    /// The address request got a response with this status code.
    IpStatus(u16),
    /// The address response body, as text.
    IpBody(String),
    /// The address request or the reading of its body failed in transport.
    IpFailed,
    /// The download delivered this many bytes in this interval.
    Downloaded(u64, Elapsed),
    DownloadFailed,
    /// The upload was answered after this interval.
    Uploaded(Elapsed),
    UploadFailed,
    /// A ping request was answered after this interval.
    PingReplied(Elapsed),
    PingFailed,
}

/// The figures of a completed run: megabits per second down and up, and the
/// mean ping in milliseconds. A failed measurement shows as zero.
#[derive(Clone, Copy, Debug, PartialEq, Eq, Structural)]
pub struct SpeedResult {
    pub download_mbps: Fraction,
    pub upload_mbps: Fraction,
    pub ping_ms: Fraction,
}

/// The state of a probe run.
#[derive(Debug)]
pub struct Probe {
    pub phase: Phase,
    /// Status code of the address response, once known.
    pub ip_status: Option<u16>,
    /// The external address, when the response reported success.
    pub ip: Option<String>,
    pub download_mbps: Fraction,
    pub upload_mbps: Fraction,
    /// One entry per ping attempt so far: the round trip in whole
    /// milliseconds, or `None` for a failed attempt.
    pub pings: Vec<Option<u64>>,
}

/// The abstract state of a probe run.
pub struct ProbeView {
    pub phase: Phase,
    pub ip_status: Option<u16>,
    pub ip: Option<Seq<char>>,
    pub download_mbps: Fraction,
    pub upload_mbps: Fraction,
    pub pings: Seq<Option<u64>>,
}

impl View for Probe {
    type V = ProbeView;

    open spec fn view(&self) -> ProbeView {
        ProbeView {
            phase: self.phase,
            ip_status: self.ip_status,
            ip: match self.ip {
                Some(s) => Some(s@),
                None => None,
            },
            download_mbps: self.download_mbps,
            upload_mbps: self.upload_mbps,
            pings: self.pings@,
        }
    }
}

/// The zero figure, standing for a failed measurement.
pub open spec fn zero_figure() -> Fraction {
    Fraction { num: 0, den: 1 }
}

/// The throughput figure of a transfer, or zero when no time was measured.
pub open spec fn sample(bytes: u64, elapsed: Elapsed) -> Fraction {
    if elapsed.nanos > 0 {
        Fraction { num: mbps_num(bytes as nat) as u128, den: elapsed.nanos }
    } else {
        zero_figure()
    }
}

/// The action that a probe in phase `p` waits on.
pub open spec fn pending(p: Phase) -> Action {
    match p {
        Phase::AwaitIpStatus => Action::RequestIp,
        Phase::AwaitIpBody => Action::ReadIpBody,
        Phase::AwaitDownload => Action::Download,
        Phase::AwaitUpload => Action::Upload,
        Phase::AwaitPing => Action::Ping,
        Phase::Done => Action::Finish,
        Phase::Aborted => Action::Abort,
    }
}

/// The state after a ping attempt with outcome `o`.
pub open spec fn after_ping(v: ProbeView, o: Option<u64>) -> ProbeView {
    let p = v.pings.push(o);
    ProbeView {
        phase: if p.len() >= PING_ATTEMPTS { Phase::Done } else { Phase::AwaitPing },
        pings: p,
        ..v
    }
}

/// The state after event `e` in state `v`. An event that does not answer the
/// pending action leaves the state as it is.
pub open spec fn next(v: ProbeView, e: Event) -> ProbeView {
    match v.phase {
        Phase::AwaitIpStatus => match e {
            Event::IpStatus(code) => ProbeView {
                phase: if is_success_status(code) {
                    Phase::AwaitIpBody
                } else {
                    Phase::AwaitDownload
                },
                ip_status: Some(code),
                ..v
            },
            Event::IpFailed => ProbeView { phase: Phase::Aborted, ..v },
            _ => v,
        },
        Phase::AwaitIpBody => match e {
            Event::IpBody(s) => ProbeView { phase: Phase::AwaitDownload, ip: Some(s@), ..v },
            Event::IpFailed => ProbeView { phase: Phase::Aborted, ..v },
            _ => v,
        },
        Phase::AwaitDownload => match e {
            Event::Downloaded(bytes, t) => ProbeView {
                phase: Phase::AwaitUpload,
                download_mbps: sample(bytes, t),
                ..v
            },
            Event::DownloadFailed => ProbeView {
                phase: Phase::AwaitUpload,
                download_mbps: zero_figure(),
                ..v
            },
            _ => v,
        },
        Phase::AwaitUpload => match e {
            Event::Uploaded(t) => ProbeView {
                phase: Phase::AwaitPing,
                upload_mbps: sample(UPLOAD_BYTES, t),
                ..v
            },
            Event::UploadFailed => ProbeView {
                phase: Phase::AwaitPing,
                upload_mbps: zero_figure(),
                ..v
            },
            _ => v,
        },
        Phase::AwaitPing => match e {
            Event::PingReplied(t) => after_ping(v, Some(t.nanos / 1_000_000)),
            Event::PingFailed => after_ping(v, None),
            _ => v,
        },
        _ => v,
    }
}

/// Only a transport failure while learning the external address stops a run:
/// no other event, in any phase, takes a probe that is still running to
/// `Aborted`, so failed transfers and pings leave a run going.
pub proof fn lemma_only_address_failure_aborts(v: ProbeView, e: Event)
    requires
        v.phase != Phase::Aborted,
        next(v, e).phase == Phase::Aborted,
    ensures
        e is IpFailed,
        v.phase == Phase::AwaitIpStatus || v.phase == Phase::AwaitIpBody,
{
}

impl ProbeView {
    /// Well-formed: the figures have positive denominators, no ping attempt
    /// is recorded before the pings start, and no more are recorded than are
    /// made.
    pub open spec fn wf(&self) -> bool {
        &&& self.download_mbps.wf()
        &&& self.upload_mbps.wf()
        &&& self.pings.len() <= PING_ATTEMPTS
        &&& (self.phase == Phase::AwaitPing ==> self.pings.len() < PING_ATTEMPTS)
        &&& (self.phase == Phase::AwaitIpStatus || self.phase == Phase::AwaitIpBody
            || self.phase == Phase::AwaitDownload || self.phase == Phase::AwaitUpload)
            ==> self.pings.len() == 0
    }
}

/// The figure for a transfer of `bytes` bytes in `elapsed`.
fn transfer_figure(bytes: u64, elapsed: Elapsed) -> (r: Fraction)
    ensures
        r == sample(bytes, elapsed),
{
    if elapsed.nanos > 0 {
        throughput_mbps(bytes, elapsed)
    } else {
        Fraction::zero()
    }
}

impl Probe {
    /// A probe that has measured nothing yet.
    pub fn new() -> (r: Probe)
        ensures
            r@.wf(),
            r@.phase == Phase::AwaitIpStatus,
            r@.ip_status is None,
            r@.ip is None,
            r@.download_mbps == zero_figure(),
            r@.upload_mbps == zero_figure(),
            r@.pings.len() == 0,
    {
        Probe {
            phase: Phase::AwaitIpStatus,
            ip_status: None,
            ip: None,
            download_mbps: Fraction::zero(),
            upload_mbps: Fraction::zero(),
            pings: Vec::new(),
        }
    }

    /// The action the probe waits on.
    pub fn pending_action(&self) -> (r: Action)
        ensures
            r == pending(self.phase),
    {
        match self.phase {
            Phase::AwaitIpStatus => Action::RequestIp,
            Phase::AwaitIpBody => Action::ReadIpBody,
            Phase::AwaitDownload => Action::Download,
            Phase::AwaitUpload => Action::Upload,
            Phase::AwaitPing => Action::Ping,
            Phase::Done => Action::Finish,
            Phase::Aborted => Action::Abort,
        }
    }

    fn record_ping(&mut self, outcome: Option<u64>)
        requires
            old(self)@.wf(),
            old(self)@.phase == Phase::AwaitPing,
        ensures
            final(self)@ == after_ping(old(self)@, outcome),
            final(self)@.wf(),
    {
        self.pings.push(outcome);
        if self.pings.len() >= PING_ATTEMPTS {
            self.phase = Phase::Done;
        }
    }

    /// Takes in what happened when the pending action was performed and
    /// returns the next action.
    pub fn advance(&mut self, event: Event) -> (r: Action)
        requires
            old(self)@.wf(),
        ensures
            final(self)@ == next(old(self)@, event),
            final(self)@.wf(),
            r == pending(final(self)@.phase),
    {
        match self.phase {
            Phase::AwaitIpStatus => match event {
                Event::IpStatus(code) => {
                    self.ip_status = Some(code);
                    self.phase = if status_is_success(code) {
                        Phase::AwaitIpBody
                    } else {
                        Phase::AwaitDownload
                    };
                },
                Event::IpFailed => {
                    self.phase = Phase::Aborted;
                },
                _ => {},
            },
            Phase::AwaitIpBody => match event {
                Event::IpBody(s) => {
                    self.ip = Some(s);
                    self.phase = Phase::AwaitDownload;
                },
                Event::IpFailed => {
                    self.phase = Phase::Aborted;
                },
                _ => {},
            },
            Phase::AwaitDownload => match event {
                Event::Downloaded(bytes, t) => {
                    self.download_mbps = transfer_figure(bytes, t);
                    self.phase = Phase::AwaitUpload;
                },
                Event::DownloadFailed => {
                    self.download_mbps = Fraction::zero();
                    self.phase = Phase::AwaitUpload;
                },
                _ => {},
            },
            Phase::AwaitUpload => match event {
                Event::Uploaded(t) => {
                    self.upload_mbps = transfer_figure(UPLOAD_BYTES, t);
                    self.phase = Phase::AwaitPing;
                },
                Event::UploadFailed => {
                    self.upload_mbps = Fraction::zero();
                    self.phase = Phase::AwaitPing;
                },
                _ => {},
            },
            Phase::AwaitPing => match event {
                Event::PingReplied(t) => {
                    self.record_ping(Some(t.as_millis()));
                },
                Event::PingFailed => {
                    self.record_ping(None);
                },
                _ => {},
            },
            _ => {},
        }
        self.pending_action()
    }

    /// The figures measured so far; the ping figure is the mean over the
    /// successful attempts, or zero when none succeeded.
    pub fn result(&self) -> (r: SpeedResult)
        ensures
            r.download_mbps == self.download_mbps,
            r.upload_mbps == self.upload_mbps,
            r.ping_ms.wf(),
            success_count(self.pings@) == 0 ==> r.ping_ms == zero_figure(),
            success_count(self.pings@) > 0 ==> r.ping_ms.num == success_total(self.pings@)
                && r.ping_ms.den == success_count(self.pings@),
    {
        SpeedResult {
            download_mbps: self.download_mbps,
            upload_mbps: self.upload_mbps,
            ping_ms: ping_mean(&self.pings),
        }
    }
}

/// `label`, then `value` with two decimal places, then `unit`.
pub fn figure_line(label: &str, value: &Fraction, unit: &str) -> (r: String)
    requires
        value.wf(),
    ensures
        r@ == label@ + fixed2_text(hundredths(value.num as nat, value.den as nat)) + unit@,
{
    let mut out = String::from_str(label);
    let digits = value.to_fixed2();
    out.append(digits.as_str());
    out.append(unit);
    out
}

impl SpeedResult {
    /// Each figure has a positive denominator.
    pub open spec fn wf(&self) -> bool {
        self.download_mbps.wf() && self.upload_mbps.wf() && self.ping_ms.wf()
    }

    /// The line reporting the download figure, as in `Download speed: 800.00 Mbps`.
    pub fn download_line(&self) -> (r: String)
        requires
            self.wf(),
        ensures
            r@ == "Download speed: "@ + fixed2_text(
                hundredths(self.download_mbps.num as nat, self.download_mbps.den as nat),
            ) + " Mbps"@,
    {
        figure_line("Download speed: ", &self.download_mbps, " Mbps")
    }

    /// The line reporting the upload figure, as in `Upload speed: 400.00 Mbps`.
    pub fn upload_line(&self) -> (r: String)
        requires
            self.wf(),
        ensures
            r@ == "Upload speed: "@ + fixed2_text(
                hundredths(self.upload_mbps.num as nat, self.upload_mbps.den as nat),
            ) + " Mbps"@,
    {
        figure_line("Upload speed: ", &self.upload_mbps, " Mbps")
    }

    /// The line reporting the mean ping, as in `Ping: 100.00 ms`.
    pub fn ping_line(&self) -> (r: String)
        requires
            self.wf(),
        ensures
            r@ == "Ping: "@ + fixed2_text(hundredths(self.ping_ms.num as nat, self.ping_ms.den as nat))
                + " ms"@,
    {
        figure_line("Ping: ", &self.ping_ms, " ms")
    }
}

} // verus!
