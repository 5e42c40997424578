use vstd::prelude::*;

use crate::descriptor::{
    lemma_supported_models_distinct, supported, supported_models, Descriptor, DescriptorModel,
};
use crate::text::{chars_of, seq_starts_with, str_starts_with, string_from_chars};

verus! {

/// USB vendor id of Razer.
pub const RAZER_VID: u16 = 0x1532;

/// How many times a request is sent before the exchange gives up.
pub const MAX_SEND_ATTEMPTS: usize = 5;

/// How many leading characters of the BIOS SystemSKU form the model number
/// (Razer's model number scheme).
pub const MODEL_NUMBER_LEN: usize = 10;

/// The identifying fields of one HID interface, as the HID layer lists them.
#[derive(Debug, Clone, Copy, PartialEq, Eq, Structural)]
pub struct HidDeviceInfo {
    pub vendor_id: u16,
    pub product_id: u16,
    pub interface_number: i32,
    pub usage_page: u16,
    pub usage: u16,
}

// ---------------------------------------------------------------------------
// Opening a device
// ---------------------------------------------------------------------------

/// Whether a HID interface belongs to the laptop that `pid` identifies; the
/// device is opened on the first such interface that accepts a feature report.
pub fn is_device_interface(info: &HidDeviceInfo, pid: u16) -> (r: bool)
    ensures
        r == (info.vendor_id == RAZER_VID && info.product_id == pid),
{
    info.vendor_id == RAZER_VID && info.product_id == pid
}

// ---------------------------------------------------------------------------
// Enumeration and model detection
// ---------------------------------------------------------------------------

/// The model number as the BIOS SystemSKU gives it, clipped to
/// [`MODEL_NUMBER_LEN`] characters.
pub fn model_number_from_sku(sku: &str) -> (r: String)
    ensures
        r@ == sku@.take(if sku@.len() < MODEL_NUMBER_LEN { sku@.len() as int } else { MODEL_NUMBER_LEN as int }),
{
    let chars = chars_of(sku);
    let n = if chars.len() < MODEL_NUMBER_LEN { chars.len() } else { MODEL_NUMBER_LEN };
    let mut out: Vec<char> = Vec::new();
    for i in 0..n
        invariant
            n <= chars@.len(),
            out@ == chars@.take(i as int),
    {
        out.push(chars[i]);
        assert(chars@.take(i + 1) =~= chars@.take(i as int).push(chars@[i as int]));
    }
    string_from_chars(out)
}

/// A Razer product id is present among the listed interfaces.
pub open spec fn razer_pid_listed(devices: Seq<HidDeviceInfo>, pid: u16) -> bool {
    exists|i: int| 0 <= i < devices.len() && devices[i].vendor_id == RAZER_VID && #[trigger] devices[i].product_id == pid
}

/// Whether `v` holds `x`.
fn vec_contains_u16(v: &Vec<u16>, x: u16) -> (r: bool)
    ensures
        r == v@.contains(x),
{
    let m = v.len();
    for j in 0..m
        invariant
            m == v@.len(),
            forall|k: int| 0 <= k < j ==> v@[k] != x,
    {
        if v[j] == x {
            assert(v@[j as int] == x);
            return true;
        }
    }
    false
}

proof fn lemma_listed_step(devices: Seq<HidDeviceInfo>, i: int, p: u16)
    requires
        0 <= i < devices.len(),
    ensures
        razer_pid_listed(devices.take(i + 1), p) <==> (razer_pid_listed(devices.take(i), p) || (
        devices[i].vendor_id == RAZER_VID && devices[i].product_id == p)),
{
    let s = devices.take(i + 1);
    let t = devices.take(i);
    if razer_pid_listed(s, p) {
        let k = choose|k: int| 0 <= k < s.len() && s[k].vendor_id == RAZER_VID && #[trigger] s[k].product_id == p;
        if k < i {
            assert(t[k] == s[k]);
        }
    }
    if razer_pid_listed(t, p) {
        let k = choose|k: int| 0 <= k < t.len() && t[k].vendor_id == RAZER_VID && #[trigger] t[k].product_id == p;
        assert(s[k] == t[k]);
    }
    if devices[i].vendor_id == RAZER_VID && devices[i].product_id == p {
        assert(s[i] == devices[i]);
    }
}

proof fn lemma_push_new(prev: Seq<u16>, x: u16)
    requires
        prev.no_duplicates(),
        !prev.contains(x),
    ensures
        prev.push(x).no_duplicates(),
        forall|p: u16| prev.push(x).contains(p) <==> (prev.contains(p) || p == x),
{
    let s = prev.push(x);
    assert forall|p: u16| s.contains(p) <==> (prev.contains(p) || p == x) by {
        if s.contains(p) {
            let k = choose|k: int| 0 <= k < s.len() && s[k] == p;
            if k < prev.len() {
                assert(prev[k] == p);
            }
        }
        if prev.contains(p) {
            let k = choose|k: int| 0 <= k < prev.len() && prev[k] == p;
            assert(s[k] == p);
        }
        assert(s[prev.len() as int] == x);
    }
    assert forall|a: int, b: int| 0 <= a < s.len() && 0 <= b < s.len() && a != b implies s[a] != s[b] by {
        if a < prev.len() && b < prev.len() {
            assert(prev[a] == s[a] && prev[b] == s[b]);
        } else if a < prev.len() {
            assert(prev[a] == s[a]);
        } else if b < prev.len() {
            assert(prev[b] == s[b]);
        }
    }
}

/// The distinct product ids of the Razer interfaces among `devices`.
pub fn razer_product_ids(devices: &[HidDeviceInfo]) -> (r: Vec<u16>)
    ensures
        r@.no_duplicates(),
        forall|p: u16| r@.contains(p) <==> razer_pid_listed(devices@, p),
{
    let mut out: Vec<u16> = Vec::new();
    let n = devices.len();
    for i in 0..n
        invariant
            n == devices@.len(),
            out@.no_duplicates(),
            forall|p: u16| out@.contains(p) <==> razer_pid_listed(devices@.take(i as int), p),
    {
        let d = devices[i];
        proof {
            assert forall|p: u16| razer_pid_listed(devices@.take(i + 1), p) <==> (razer_pid_listed(
                devices@.take(i as int), p) || (d.vendor_id == RAZER_VID && d.product_id == p)) by {
                lemma_listed_step(devices@, i as int, p);
            }
        }
        let ghost prev = out@;
        if d.vendor_id == RAZER_VID && !vec_contains_u16(&out, d.product_id) {
            proof {
                lemma_push_new(out@, d.product_id);
            }
            out.push(d.product_id);
        }
        assert forall|p: u16| out@.contains(p) <==> razer_pid_listed(devices@.take(i + 1), p) by {
            lemma_listed_step(devices@, i as int, p);
            assert(devices@[i as int] == d);
            assert(prev.contains(p) <==> razer_pid_listed(devices@.take(i as int), p));
            if d.vendor_id == RAZER_VID && !prev.contains(d.product_id) {
                assert(out@ == prev.push(d.product_id));
            } else {
                assert(out@ == prev);
            }
        }
    }
    assert(devices@.take(n as int) =~= devices@);
    out
}

/// Model numbers of Razer laptops begin with this.
pub open spec fn laptop_model_prefix() -> Seq<char> {
    "RZ09-"@
}

/// Some listed interface is a Razer one.
pub open spec fn razer_present(devices: Seq<HidDeviceInfo>) -> bool {
    exists|i: int| 0 <= i < devices.len() && #[trigger] devices[i].vendor_id == RAZER_VID
}

/// Why the laptop could not be enumerated.
#[derive(Debug)]
pub enum EnumerateError {
    /// No HID interface of Razer's vendor id is present.
    NoRazerDevices,
    /// The model number does not name a Razer laptop.
    NotRazerLaptop(String),
    /// The model number could not be read (the reason, as text).
    ModelUnreadable(String),
}

/// Checks what was found on the machine: the distinct product ids of the
/// Razer HID interfaces, and the model number read from the BIOS, which must
/// name a Razer laptop.
pub fn enumerate(devices: &[HidDeviceInfo], model: Result<String, String>) -> (r: Result<(Vec<u16>, String), EnumerateError>)
    ensures
        !razer_present(devices@) ==> r is Err && r->Err_0 is NoRazerDevices,
        razer_present(devices@) ==> match model {
            Err(e) => r is Err && r->Err_0 == EnumerateError::ModelUnreadable(e),
            Ok(m) => if seq_starts_with(m@, laptop_model_prefix()) {
                r is Ok && r->Ok_0.1 == m
                    && r->Ok_0.0@.no_duplicates()
                    && forall|p: u16| r->Ok_0.0@.contains(p) <==> razer_pid_listed(devices@, p)
            } else {
                r is Err && r->Err_0 == EnumerateError::NotRazerLaptop(m)
            },
        },
{
    let pids = razer_product_ids(devices);
    if pids.len() == 0 {
        proof {
            if razer_present(devices@) {
                let i = choose|i: int| 0 <= i < devices@.len() && #[trigger] devices@[i].vendor_id == RAZER_VID;
                assert(razer_pid_listed(devices@, devices@[i].product_id));
                assert(pids@.contains(devices@[i].product_id));
            }
        }
        return Err(EnumerateError::NoRazerDevices);
    }
    proof {
        assert(pids@.contains(pids@[0]));
        let i = choose|i: int| 0 <= i < devices@.len() && devices@[i].vendor_id == RAZER_VID && #[trigger] devices@[i].product_id == pids@[0];
        assert(razer_present(devices@));
    }
    match model {
        Err(e) => Err(EnumerateError::ModelUnreadable(e)),
        Ok(m) => {
            if str_starts_with(m.as_str(), "RZ09-") {
                Ok((pids, m))
            } else {
                Err(EnumerateError::NotRazerLaptop(m))
            }
        },
    }
}

// ---------------------------------------------------------------------------
// Picking the descriptor of the laptop
// ---------------------------------------------------------------------------

/// How the laptop's descriptor was found.
#[derive(Debug, Clone, Copy, PartialEq, Eq, Structural)]
pub enum MatchedBy {
    /// Its prefix begins the BIOS model number.
    ModelNumber,
    /// The model number is unknown, but its USB product id is present.
    ProductId,
}

/// The descriptor chosen for the laptop and its place in the table.
pub struct Detected {
    pub descriptor: Descriptor,
    pub index: usize,
    pub matched_by: MatchedBy,
}

/// Neither the model number nor a product id names a supported model.
#[derive(Debug, Clone, Copy, PartialEq, Eq, Structural)]
pub enum DetectError {
    Unsupported,
}

pub open spec fn model_matches(d: DescriptorModel, model: Seq<char>) -> bool {
    seq_starts_with(model, d.model_number_prefix)
}

pub open spec fn pid_matches(d: DescriptorModel, pids: Seq<u16>) -> bool {
    pids.contains(d.pid)
}

/// Entry `i` is the first entry of `table` whose prefix begins `model`.
pub open spec fn is_first_model_match(table: Seq<DescriptorModel>, model: Seq<char>, i: int) -> bool {
    &&& 0 <= i < table.len()
    &&& model_matches(table[i], model)
    &&& forall|j: int| 0 <= j < i ==> !model_matches(#[trigger] table[j], model)
}

/// Entry `i` is the first entry of `table` whose product id is in `pids`.
pub open spec fn is_first_pid_match(table: Seq<DescriptorModel>, pids: Seq<u16>, i: int) -> bool {
    &&& 0 <= i < table.len()
    &&& pid_matches(table[i], pids)
    &&& forall|j: int| 0 <= j < i ==> !pid_matches(#[trigger] table[j], pids)
}

pub open spec fn any_model_match(table: Seq<DescriptorModel>, model: Seq<char>) -> bool {
    exists|j: int| 0 <= j < table.len() && model_matches(#[trigger] table[j], model)
}

pub open spec fn any_pid_match(table: Seq<DescriptorModel>, pids: Seq<u16>) -> bool {
    exists|j: int| 0 <= j < table.len() && pid_matches(#[trigger] table[j], pids)
}

fn slice_contains_u16(v: &[u16], x: u16) -> (r: bool)
    ensures
        r == v@.contains(x),
{
    let m = v.len();
    for j in 0..m
        invariant
            m == v@.len(),
            forall|k: int| 0 <= k < j ==> v@[k] != x,
    {
        if v[j] == x {
            assert(v@[j as int] == x);
            return true;
        }
    }
    false
}

/// Picks the supported model for the laptop: the first whose model number
/// prefix begins `model`; failing that, the first whose USB product id is in
/// `pid_list` (an unknown variant of known hardware).
pub fn detect(model: &str, pid_list: &[u16]) -> (r: Result<Detected, DetectError>)
    ensures
        match r {
            Ok(d) => d.descriptor@ == supported_models()[d.index as int] && match d.matched_by {
                MatchedBy::ModelNumber => is_first_model_match(supported_models(), model@, d.index as int),
                MatchedBy::ProductId => !any_model_match(supported_models(), model@)
                    && is_first_pid_match(supported_models(), pid_list@, d.index as int),
            },
            Err(_) => !any_model_match(supported_models(), model@) && !any_pid_match(supported_models(), pid_list@),
        },
{
    let mut table = supported();
    let n = table.len();
    let ghost t = supported_models();
    for i in 0..n
        invariant
            n == table@.len(),
            n == t.len(),
            t == supported_models(),
            forall|k: int| 0 <= k < n ==> #[trigger] table@[k]@ == t[k],
            forall|j: int| 0 <= j < i ==> !model_matches(#[trigger] t[j], model@),
    {
        assert(table@[i as int]@ == t[i as int]);
        if str_starts_with(model, table[i].model_number_prefix) {
            let descriptor = table.remove(i);
            return Ok(Detected { descriptor, index: i, matched_by: MatchedBy::ModelNumber });
        }
    }
    for i in 0..n
        invariant
            n == table@.len(),
            n == t.len(),
            t == supported_models(),
            forall|k: int| 0 <= k < n ==> #[trigger] table@[k]@ == t[k],
            forall|j: int| 0 <= j < n ==> !model_matches(#[trigger] t[j], model@),
            forall|j: int| 0 <= j < i ==> !pid_matches(#[trigger] t[j], pid_list@),
    {
        assert(table@[i as int]@ == t[i as int]);
        if slice_contains_u16(pid_list, table[i].pid) {
            let descriptor = table.remove(i);
            return Ok(Detected { descriptor, index: i, matched_by: MatchedBy::ProductId });
        }
    }
    Err(DetectError::Unsupported)
}

/// A laptop whose model number begins with the model number of a supported
/// model is detected as that model: lookup by model number is never shadowed
/// by an earlier entry.
pub proof fn lemma_listed_model_detected_as_itself(i: int, model: Seq<char>)
    requires
        0 <= i < supported_models().len(),
        seq_starts_with(model, supported_models()[i].model_number_prefix),
    ensures
        is_first_model_match(supported_models(), model, i),
{
    lemma_supported_models_distinct();
    let t = supported_models();
    assert forall|j: int| 0 <= j < i implies !model_matches(#[trigger] t[j], model) by {
        if model_matches(t[j], model) {
            assert(t[j].model_number_prefix.len() == 9 && t[i].model_number_prefix.len() == 9);
            assert(t[j].model_number_prefix == t[i].model_number_prefix);
        }
    }
}

// ---------------------------------------------------------------------------
// The request/response exchange with the embedded controller
// ---------------------------------------------------------------------------

/// What one attempt of a request/response exchange observed.
#[derive(Debug, Clone, Copy, PartialEq, Eq, Structural)]
pub enum Reply {
    /// Sending the request as a feature report failed.
    SendFailed,
    /// Reading the response feature report failed.
    ReadFailed,
    /// A response was read into a buffer of `buffer_len` bytes, of which the
    /// HID layer reported `received_len`. `matches_request` is `None` when
    /// the response could not be decoded, else whether it answers the request.
    Received { buffer_len: usize, received_len: usize, matches_request: Option<bool> },
}

/// Why an exchange failed.
#[derive(Debug, Clone, Copy, PartialEq, Eq, Structural)]
pub enum SendError {
    SendFailed,
    ReadFailed,
    /// The response did not fill the buffer of this length.
    WrongResponseSize { expected: usize },
    /// The response could not be decoded.
    Malformed,
    /// No response answered the request within this many attempts.
    NoMatchingResponse { attempts: usize },
}

/// What to do after an attempt.
#[derive(Debug, Clone, Copy, PartialEq, Eq, Structural)]
pub enum SendStep {
    /// The response answers the request: hand it to the caller.
    Deliver,
    /// Wait, then send the request again.
    Retry,
    /// Give up with this error.
    Fail(SendError),
}

/// The decision after attempt number `attempt` (counted from 0) observed `reply`.
pub open spec fn spec_send_step(attempt: int, reply: Reply) -> SendStep {
    match reply {
        Reply::SendFailed => SendStep::Fail(SendError::SendFailed),
        Reply::ReadFailed => SendStep::Fail(SendError::ReadFailed),
        Reply::Received { buffer_len, received_len, matches_request } => {
            if buffer_len != received_len {
                SendStep::Fail(SendError::WrongResponseSize { expected: buffer_len })
            } else {
                match matches_request {
                    None => SendStep::Fail(SendError::Malformed),
                    Some(true) => SendStep::Deliver,
                    Some(false) => if attempt + 1 < MAX_SEND_ATTEMPTS {
                        SendStep::Retry
                    } else {
                        SendStep::Fail(SendError::NoMatchingResponse { attempts: MAX_SEND_ATTEMPTS })
                    },
                }
            }
        },
    }
}

/// Decides how an exchange goes on after attempt number `attempt`: errors of
/// the HID layer, a short read or an undecodable response end it; a response
/// that answers the request is delivered; one that does not is retried until
/// [`MAX_SEND_ATTEMPTS`] attempts have been made.
pub fn send_step(attempt: usize, reply: Reply) -> (r: SendStep)
    requires
        attempt < MAX_SEND_ATTEMPTS,
    ensures
        r == spec_send_step(attempt as int, reply),
{
    match reply {
        Reply::SendFailed => SendStep::Fail(SendError::SendFailed),
        Reply::ReadFailed => SendStep::Fail(SendError::ReadFailed),
        Reply::Received { buffer_len, received_len, matches_request } => {
            if buffer_len != received_len {
                SendStep::Fail(SendError::WrongResponseSize { expected: buffer_len })
            } else {
                match matches_request {
                    None => SendStep::Fail(SendError::Malformed),
                    Some(true) => SendStep::Deliver,
                    Some(false) => if attempt + 1 < MAX_SEND_ATTEMPTS {
                        SendStep::Retry
                    } else {
                        SendStep::Fail(SendError::NoMatchingResponse { attempts: MAX_SEND_ATTEMPTS })
                    },
                }
            }
        },
    }
}

/// Whatever the controller answers, an exchange ends within
/// [`MAX_SEND_ATTEMPTS`] attempts: some attempt before the limit delivers or
/// fails, and none retries past it.
pub proof fn lemma_exchange_ends_within_max_attempts(replies: Seq<Reply>)
    requires
        replies.len() == MAX_SEND_ATTEMPTS,
    ensures
        exists|k: int| 0 <= k < MAX_SEND_ATTEMPTS && !(#[trigger] spec_send_step(k, replies[k]) is Retry),
        !(spec_send_step(MAX_SEND_ATTEMPTS - 1, replies[MAX_SEND_ATTEMPTS - 1]) is Retry),
{
    let k = MAX_SEND_ATTEMPTS - 1;
    assert(!(spec_send_step(k as int, replies[k as int]) is Retry));
}

/// An exchange only repeats a request whose response was well formed but
/// answered another request; a matching response is always delivered.
pub proof fn lemma_retry_only_on_mismatch(attempt: int, reply: Reply)
    requires
        0 <= attempt < MAX_SEND_ATTEMPTS,
    ensures
        spec_send_step(attempt, reply) is Retry ==> (reply matches Reply::Received { buffer_len, received_len, matches_request }
            && buffer_len == received_len && matches_request == Some(false)),
        (reply matches Reply::Received { buffer_len, received_len, matches_request }
            && buffer_len == received_len && matches_request == Some(true))
            ==> spec_send_step(attempt, reply) == SendStep::Deliver,
{
}

/// A model number that begins with the model number of a supported model
/// names a Razer laptop, so enumeration accepts every laptop that detection
/// recognises by its model number.
pub proof fn lemma_listed_models_pass_enumeration(i: int, model: Seq<char>)
    requires
        0 <= i < supported_models().len(),
        seq_starts_with(model, supported_models()[i].model_number_prefix),
    ensures
        seq_starts_with(model, laptop_model_prefix()),
{
    lemma_supported_models_distinct();
    reveal_strlit("RZ09-");
    let p = supported_models()[i].model_number_prefix;
    assert(p.take(5) == "RZ09-"@);
    assert(model.take(5) =~= p.take(5));
}

/// What each reply leads to, whatever the attempt: a failed send or read ends
/// the exchange with that failure; a response that does not fill the buffer
/// ends it with the buffer's length as the expected size; an undecodable one
/// ends it as malformed; one that answers the request is delivered; one that
/// answers another request is retried, except on the last allowed attempt,
/// which gives up after [`MAX_SEND_ATTEMPTS`] attempts.
pub proof fn lemma_send_step_outcomes(attempt: int, reply: Reply)
    requires
        0 <= attempt < MAX_SEND_ATTEMPTS,
    ensures
        (spec_send_step(attempt, reply) == SendStep::Fail(SendError::SendFailed)) <==> (reply == Reply::SendFailed),
        (spec_send_step(attempt, reply) == SendStep::Fail(SendError::ReadFailed)) <==> (reply == Reply::ReadFailed),
        (spec_send_step(attempt, reply) is Fail && spec_send_step(attempt, reply)->Fail_0 is WrongResponseSize) <==> (
            reply matches Reply::Received { buffer_len, received_len, .. } && buffer_len != received_len),
        (reply is Received && reply->buffer_len != reply->received_len)
            ==> spec_send_step(attempt, reply) == SendStep::Fail(SendError::WrongResponseSize { expected: reply->buffer_len }),
        (spec_send_step(attempt, reply) == SendStep::Fail(SendError::Malformed)) <==> (
            reply matches Reply::Received { buffer_len, received_len, matches_request }
            && buffer_len == received_len && matches_request is None),
        (spec_send_step(attempt, reply) == SendStep::Deliver) <==> (
            reply matches Reply::Received { buffer_len, received_len, matches_request }
            && buffer_len == received_len && matches_request == Some(true)),
        (spec_send_step(attempt, reply) == SendStep::Retry) <==> (
            reply matches Reply::Received { buffer_len, received_len, matches_request }
            && buffer_len == received_len && matches_request == Some(false) && attempt + 1 < MAX_SEND_ATTEMPTS),
        (spec_send_step(attempt, reply) == SendStep::Fail(SendError::NoMatchingResponse { attempts: MAX_SEND_ATTEMPTS }))
            <==> (reply matches Reply::Received { buffer_len, received_len, matches_request }
            && buffer_len == received_len && matches_request == Some(false) && attempt + 1 == MAX_SEND_ATTEMPTS),
{
}

} // verus!
