//! Outbound messages of the update protocol and their wire encoding.
use vstd::prelude::*;
use vstd::string::StringExecFns;

verus! {

/// Firmware state values reported over telemetry.
#[derive(Clone, Copy, Debug, PartialEq, Eq, Structural)]
pub enum FwState {
    Downloading,
    Success,
    Failed,
}

/// Delivery guarantee requested from the transport.
#[derive(Clone, Copy, Debug, PartialEq, Eq, Structural)]
pub enum Qos {
    AtLeastOnce,
    ExactlyOnce,
}

/// One message that the coordinator asks the transport to publish.
#[derive(Clone, Copy, Debug, PartialEq, Eq, Structural)]
pub enum Message {
    /// Asks the server for the shared firmware attributes.
    AttributeRequest,
    /// A single-field state report.
    State(FwState),
    /// A state and progress report; the progress is a percentage.
    Progress(u64),
    /// Asks for `size` bytes of chunk `chunk` under request slot `request_id`.
    ChunkRequest { request_id: u64, chunk: u64, size: u64 },
}

/// The character of a decimal digit.
pub open spec fn digit_char(d: nat) -> char {
    if d == 0 { '0' }
    else if d == 1 { '1' }
    else if d == 2 { '2' }
    else if d == 3 { '3' }
    else if d == 4 { '4' }
    else if d == 5 { '5' }
    else if d == 6 { '6' }
    else if d == 7 { '7' }
    else if d == 8 { '8' }
    else { '9' }
}

/// Decimal notation of a natural number, without leading zeros.
pub open spec fn decimal(n: nat) -> Seq<char>
    decreases n,
{
    if n < 10 {
        seq![digit_char(n)]
    } else {
        decimal(n / 10) + seq![digit_char(n % 10)]
    }
}

pub open spec fn state_name(s: FwState) -> Seq<char> {
    match s {
        FwState::Downloading => "DOWNLOADING"@,
        FwState::Success => "SUCCESS"@,
        FwState::Failed => "FAILED"@,
    }
}

/// The state carried by a progress report of `percent`.
pub open spec fn progress_state(percent: u64) -> FwState {
    if percent >= 100 { FwState::Success } else { FwState::Downloading }
}

/// The percentage carried by a progress report of `percent`.
pub open spec fn progress_value(percent: u64) -> nat {
    if percent >= 100 { 100 } else { percent as nat }
}

pub open spec fn topic_spec(m: Message) -> Seq<char> {
    match m {
        Message::AttributeRequest => "v1/devices/me/attributes/request/1"@,
        Message::State(_) => "v1/devices/me/telemetry"@,
        Message::Progress(_) => "v1/devices/me/telemetry"@,
        Message::ChunkRequest { request_id, chunk, .. } => "v2/fw/request/"@ + decimal(
            request_id as nat,
        ) + "/chunk/"@ + decimal(chunk as nat),
    }
}

pub open spec fn payload_spec(m: Message) -> Seq<char> {
    match m {
        Message::AttributeRequest =>
            "{\"sharedKeys\":\"fw_title,fw_version,fw_size,fw_checksum,fw_checksum_algorithm\"}"@,
        Message::State(s) => "{\"fw_state\":\""@ + state_name(s) + "\"}"@,
        Message::Progress(p) => "{\"fw_state\":\""@ + state_name(progress_state(p))
            + "\",\"fw_progress\":"@ + decimal(progress_value(p)) + "}"@,
        Message::ChunkRequest { size, .. } => decimal(size as nat),
    }
}

pub open spec fn qos_spec(m: Message) -> Qos {
    match m {
        Message::State(_) => Qos::ExactlyOnce,
        _ => Qos::AtLeastOnce,
    }
}

fn digit_str(d: u64) -> (r: &'static str)
    requires
        d < 10,
    ensures
        r@ == seq![digit_char(d as nat)],
{
    proof {
        reveal_strlit("0");
        reveal_strlit("1");
        reveal_strlit("2");
        reveal_strlit("3");
        reveal_strlit("4");
        reveal_strlit("5");
        reveal_strlit("6");
        reveal_strlit("7");
        reveal_strlit("8");
        reveal_strlit("9");
    }
    if d == 0 { "0" }
    else if d == 1 { "1" }
    else if d == 2 { "2" }
    else if d == 3 { "3" }
    else if d == 4 { "4" }
    else if d == 5 { "5" }
    else if d == 6 { "6" }
    else if d == 7 { "7" }
    else if d == 8 { "8" }
    else { "9" }
}

/// Appends the decimal notation of `n`.
pub fn append_decimal(out: &mut String, n: u64)
    ensures
        final(out)@ == old(out)@ + decimal(n as nat),
    decreases n,
{
    if n >= 10 {
        append_decimal(out, n / 10);
    }
    out.append(digit_str(n % 10));
    assert(final(out)@ =~= old(out)@ + decimal(n as nat));
}

/// The decimal notation of `n`.
pub fn decimal_string(n: u64) -> (r: String)
    ensures
        r@ == decimal(n as nat),
{
    let mut s = String::new();
    append_decimal(&mut s, n);
    assert(s@ =~= decimal(n as nat));
    s
}

fn state_str(s: FwState) -> (r: &'static str)
    ensures
        r@ == state_name(s),
{
    match s {
        FwState::Downloading => "DOWNLOADING",
        FwState::Success => "SUCCESS",
        FwState::Failed => "FAILED",
    }
}

impl Message {
    /// The topic this message is published to.
    pub fn topic(&self) -> (r: String)
        ensures
            r@ == topic_spec(*self),
    {
        match *self {
            Message::AttributeRequest => String::from_str("v1/devices/me/attributes/request/1"),
            Message::State(_) => String::from_str("v1/devices/me/telemetry"),
            Message::Progress(_) => String::from_str("v1/devices/me/telemetry"),
            Message::ChunkRequest { request_id, chunk, .. } => {
                let mut t = String::from_str("v2/fw/request/");
                append_decimal(&mut t, request_id);
                t.append("/chunk/");
                append_decimal(&mut t, chunk);
                t
            },
        }
    }

    /// The payload text of this message.
    pub fn payload(&self) -> (r: String)
        ensures
            r@ == payload_spec(*self),
    {
        match *self {
            Message::AttributeRequest => String::from_str(
                "{\"sharedKeys\":\"fw_title,fw_version,fw_size,fw_checksum,fw_checksum_algorithm\"}",
            ),
            Message::State(s) => {
                let mut t = String::from_str("{\"fw_state\":\"");
                t.append(state_str(s));
                t.append("\"}");
                t
            },
            Message::Progress(p) => {
                let shown: u64 = if p >= 100 { 100 } else { p };
                let st = if p >= 100 { FwState::Success } else { FwState::Downloading };
                let mut t = String::from_str("{\"fw_state\":\"");
                t.append(state_str(st));
                t.append("\",\"fw_progress\":");
                append_decimal(&mut t, shown);
                t.append("}");
                t
            },
            Message::ChunkRequest { size, .. } => decimal_string(size),
        }
    }

    /// The delivery guarantee this message is published with: state reports
    /// are sent exactly once, everything else at least once.
    pub fn qos(&self) -> (r: Qos)
        ensures
            r == qos_spec(*self),
    {
        match *self {
            Message::State(_) => Qos::ExactlyOnce,
            _ => Qos::AtLeastOnce,
        }
    }
}

} // verus!
