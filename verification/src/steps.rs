use vstd::prelude::*;

use crate::dispatch::Command;
use crate::errors::DeviceError;

verus! {

/// The security tag under which the TLS credentials are stored and looked
/// up.
pub const SECURITY_TAG: u32 = 0;

/// One blocking request to the external modem/GNSS/TLS capability. The
/// runtime performs it and feeds the result back into the step functions.
#[derive(Clone, Copy, PartialEq, Eq, Structural, Debug)]
pub enum Request {
    /// Configure the GNSS antenna.
    ConfigureGnssAntenna,
    /// Power the modem on.
    ModemOn,
    /// Open a GNSS socket.
    OpenGnssSocket,
    /// Set the GNSS fix interval, in seconds.
    SetFixInterval(u16),
    /// Set the GNSS fix retry limit.
    SetFixRetry(u16),
    /// Set the default NMEA output mask.
    SetNmeaMask,
    /// Start GNSS acquisition with the default delete mask.
    StartGnss,
    /// Put the modem into flight mode.
    ModemFlightMode,
    /// Power the modem off.
    ModemOff,
    /// Block until LTE registration.
    WaitForLte,
    /// Provision the CA certificate chain under this security tag, with no
    /// client certificate and no private key.
    ProvisionCa(u32),
}

/// The steps of the power-on workflow, in order.
#[derive(Clone, Copy, PartialEq, Eq, Structural, Debug)]
pub enum OnStep {
    Antenna,
    PowerOn,
    OpenSocket,
    FixInterval,
    FixRetry,
    NmeaMask,
    Start,
}

/// The request each power-on step makes: the fix interval is 1, the fix
/// retry limit 0, and the NMEA and delete masks the defaults.
pub open spec fn spec_on_request(s: OnStep) -> Request {
    match s {
        OnStep::Antenna => Request::ConfigureGnssAntenna,
        OnStep::PowerOn => Request::ModemOn,
        OnStep::OpenSocket => Request::OpenGnssSocket,
        OnStep::FixInterval => Request::SetFixInterval(1),
        OnStep::FixRetry => Request::SetFixRetry(0),
        OnStep::NmeaMask => Request::SetNmeaMask,
        OnStep::Start => Request::StartGnss,
    }
}

/// The next power-on step when the current one succeeded, in workflow
/// order.
pub open spec fn spec_on_successor(s: OnStep) -> Option<OnStep> {
    match s {
        OnStep::Antenna => Some(OnStep::PowerOn),
        OnStep::PowerOn => Some(OnStep::OpenSocket),
        OnStep::OpenSocket => Some(OnStep::FixInterval),
        OnStep::FixInterval => Some(OnStep::FixRetry),
        OnStep::FixRetry => Some(OnStep::NmeaMask),
        OnStep::NmeaMask => Some(OnStep::Start),
        OnStep::Start => None,
    }
}

/// The power-on workflow's transitions: fail-fast. The first failing step is
/// reported and every remaining step is abandoned; on success the workflow
/// advances in order.
pub open spec fn spec_on_next(s: OnStep, ok: bool) -> Option<OnStep> {
    if ok {
        spec_on_successor(s)
    } else {
        None
    }
}

/// The power-on workflow starts by configuring the GNSS antenna.
pub fn on_first_step() -> (r: OnStep)
    ensures
        r == OnStep::Antenna,
{
    OnStep::Antenna
}

/// The request a power-on step makes.
pub fn on_step_request(s: OnStep) -> (r: Request)
    ensures
        r == spec_on_request(s),
{
    match s {
        OnStep::Antenna => Request::ConfigureGnssAntenna,
        OnStep::PowerOn => Request::ModemOn,
        OnStep::OpenSocket => Request::OpenGnssSocket,
        OnStep::FixInterval => Request::SetFixInterval(1),
        OnStep::FixRetry => Request::SetFixRetry(0),
        OnStep::NmeaMask => Request::SetNmeaMask,
        OnStep::Start => Request::StartGnss,
    }
}

/// The step after `s`, given whether `s` succeeded; `None` ends the
/// workflow, either because it is complete or because a failure abandoned
/// the remaining steps.
pub fn on_next_step(s: OnStep, ok: bool) -> (r: Option<OnStep>)
    ensures
        r == spec_on_next(s, ok),
{
    if !ok {
        return None;
    }
    match s {
        OnStep::Antenna => Some(OnStep::PowerOn),
        OnStep::PowerOn => Some(OnStep::OpenSocket),
        OnStep::OpenSocket => Some(OnStep::FixInterval),
        OnStep::FixInterval => Some(OnStep::FixRetry),
        OnStep::FixRetry => Some(OnStep::NmeaMask),
        OnStep::NmeaMask => Some(OnStep::Start),
        OnStep::Start => None,
    }
}

/// The single blocking request behind each one-shot command — flight mode,
/// power-off, wait-for-signal and certificate provisioning — and nothing for
/// the commands whose workflows have their own step functions.
pub fn single_call_request(c: Command) -> (r: Option<Request>)
    ensures
        c == Command::Flight ==> r == Some(Request::ModemFlightMode),
        c == Command::Off ==> r == Some(Request::ModemOff),
        c == Command::Wait ==> r == Some(Request::WaitForLte),
        c == Command::Store ==> r == Some(Request::ProvisionCa(SECURITY_TAG)),
        (c != Command::Flight && c != Command::Off && c != Command::Wait && c != Command::Store)
            ==> r is None,
{
    match c {
        Command::Flight => Some(Request::ModemFlightMode),
        Command::Off => Some(Request::ModemOff),
        Command::Wait => Some(Request::WaitForLte),
        Command::Store => Some(Request::ProvisionCa(SECURITY_TAG)),
        _ => None,
    }
}

/// The three outcomes of a single GNSS fix read, reported distinctly.
#[derive(Clone, Copy, PartialEq, Eq, Structural, Debug)]
pub enum FixPoll {
    /// The capability had no data yet.
    NoData,
    /// A fix was obtained; its fields are printed as received.
    Obtained,
    /// The read failed.
    Failed(DeviceError),
}

/// Classifies the result of a single fix read; the fix value itself is
/// passed through untouched.
pub fn classify_fix<T>(r: &Result<Option<T>, DeviceError>) -> (k: FixPoll)
    ensures
        r matches Ok(None) ==> k == FixPoll::NoData,
        r matches Ok(Some(_)) ==> k == FixPoll::Obtained,
        r matches Err(e) ==> k == FixPoll::Failed(*e),
{
    match r {
        Ok(None) => FixPoll::NoData,
        Ok(Some(_)) => FixPoll::Obtained,
        Err(e) => FixPoll::Failed(*e),
    }
}

/// The variant bridge entry's two outcomes.
#[derive(Clone, Copy, PartialEq, Eq, Structural, Debug)]
pub enum AtFunStep {
    /// The diagnostic query answered: print its response, then enter the
    /// relaying loop.
    EnterBridge,
    /// The query failed: print an error and stay in normal dispatch.
    Fail,
}

/// The diagnostic query the variant bridge entry issues first: the same
/// `AT+CFUN?` bytes that triggered it.
pub fn at_fun_query() -> (v: Vec<u8>)
    ensures
        v@ == crate::dispatch::tok_at_cfun(),
{
    let v: Vec<u8> = vec![65u8, 84, 43, 67, 70, 85, 78, 63];
    proof {
        assert(v@ =~= crate::dispatch::tok_at_cfun());
    }
    v
}

/// Whether the variant entry proceeds into the bridge: exactly when its
/// opening query succeeded.
pub fn at_fun_next(query_ok: bool) -> (r: AtFunStep)
    ensures
        r == AtFunStep::EnterBridge <==> query_ok,
        r == AtFunStep::Fail <==> !query_ok,
{
    if query_ok {
        AtFunStep::EnterBridge
    } else {
        AtFunStep::Fail
    }
}

} // verus!
