//! The request/response handshake over a channel buffer.
//!
//! A consumer waits for IDLE, writes its payload, signals CONSUMER_REQ and
//! waits for PROVIDER_RES (or ERROR), then reads the response and frees the
//! channel. A provider that sees CONSUMER_REQ reads the request and answers
//! with PROVIDER_RES. Waiting is done by the caller: each `step` looks at the
//! buffer once and says whether to wait and look again.
use crate::protocol::{
    OFFSET_CAS_LOCK, OFFSET_MAX_CAPACITY, read_u32, u32_at, write_u32,
    HEADER_SIZE, OFFSET_PAYLOAD, STATUS_CONSUMER_REQ, STATUS_ERROR, STATUS_IDLE,
    STATUS_PROVIDER_RES, error_code_of, law_read_after_write, law_write_keeps_other_fields,
    overwrite, payload_size_of, read_error_code, read_payload_size, read_status, status_of,
    with_u32_at, write_payload_size, write_status,
};
use crate::text::{decimal, decimal_chars, extend_chars, extend_str, string_of};
use vstd::prelude::*;

verus! {

/// The smaller of two integers.
pub open spec fn min(a: int, b: int) -> int {
    if a <= b {
        a
    } else {
        b
    }
}

/// The MAX_CAPACITY field of a buffer.
pub open spec fn max_capacity_of(s: Seq<u8>) -> int {
    u32_at(s, OFFSET_MAX_CAPACITY as int)
}

/// The CAS_LOCK field of a buffer.
pub open spec fn lock_of(s: Seq<u8>) -> int {
    u32_at(s, OFFSET_CAS_LOCK as int)
}

/// How many payload bytes the buffer admits: what its MAX_CAPACITY field
/// allows, and never more than the buffer holds after its header.
pub open spec fn capacity(s: Seq<u8>) -> int {
    min(max_capacity_of(s), s.len() - OFFSET_PAYLOAD)
}

/// The number of bytes of `bytes` that the buffer `s` takes.
pub open spec fn copied_len(bytes: Seq<u8>, s: Seq<u8>) -> int {
    min(bytes.len() as int, capacity(s))
}

/// The buffer `s` after a write under the lock: `bytes` (cut to the capacity)
/// in the payload, their length in the size field, `status` in the status
/// word, and the lock free again.
pub open spec fn with_payload(s: Seq<u8>, bytes: Seq<u8>, status: u32) -> Seq<u8> {
    let n = copied_len(bytes, s);
    with_u32_at(
        with_u32_at(
            with_u32_at(overwrite(s, OFFSET_PAYLOAD as int, bytes.take(n)), 8, n as u32),
            0,
            status,
        ),
        OFFSET_CAS_LOCK as int,
        0,
    )
}

/// How many bytes a reader takes from `s`: as many as the size field says,
/// but no more than MAX_CAPACITY admits.
pub open spec fn payload_len(s: Seq<u8>) -> int {
    min(payload_size_of(s), max_capacity_of(s))
}

/// The payload that a reader takes from `s`: `payload_len(s)` bytes from the
/// payload offset on, where those that lie past the end of the buffer read as
/// zeros.
pub open spec fn payload_of(s: Seq<u8>) -> Seq<u8> {
    Seq::new(
        payload_len(s) as nat,
        |i: int|
            if OFFSET_PAYLOAD + i < s.len() {
                s[OFFSET_PAYLOAD + i]
            } else {
                0u8
            },
    )
}

/// The payload capacity of the buffer.
fn capacity_of(buf: &[u8]) -> (c: usize)
    requires
        buf@.len() >= HEADER_SIZE,
    ensures
        c == capacity(buf@),
{
    let max = read_u32(buf, OFFSET_MAX_CAPACITY) as usize;
    let room = buf.len() - OFFSET_PAYLOAD;
    if max < room {
        max
    } else {
        room
    }
}

/// Take the lock and, holding it, put `bytes` (cut to the capacity) in the
/// payload, their length in the size field and `status` in the status word;
/// then free the lock. Where the lock is held already nothing is written and
/// the result is `None`; else it is the number of bytes written. The lock word
/// is read and set with plain writes on a buffer this call holds alone; the
/// contract says nothing of another process writing at the same time.
pub fn write_payload(buf: &mut [u8], bytes: &[u8], status: u32) -> (n: Option<usize>)
    requires
        old(buf)@.len() >= HEADER_SIZE,
    ensures
        lock_of(old(buf)@) != 0 ==> n is None && final(buf)@ == old(buf)@,
        lock_of(old(buf)@) == 0 ==> n == Some(copied_len(bytes@, old(buf)@) as usize)
            && final(buf)@ == with_payload(old(buf)@, bytes@, status),
{
    if read_u32(buf, OFFSET_CAS_LOCK) != 0 {
        return None;
    }
    let cap = capacity_of(buf);
    let n = if bytes.len() < cap {
        bytes.len()
    } else {
        cap
    };
    let ghost s = old(buf)@;
    write_u32(buf, OFFSET_CAS_LOCK, 1);
    let ghost locked = buf@;
    let len = buf.len();
    let mut i: usize = 0;
    assert(buf@ =~= overwrite(locked, OFFSET_PAYLOAD as int, bytes@.take(0)));
    while i < n
        invariant
            n <= bytes@.len(),
            n <= buf@.len() - OFFSET_PAYLOAD,
            locked.len() == s.len(),
            buf@.len() == s.len(),
            len == buf@.len(),
            i <= n,
            buf@ == overwrite(locked, OFFSET_PAYLOAD as int, bytes@.take(i as int)),
        decreases n - i,
    {
        buf[OFFSET_PAYLOAD + i] = bytes[i];
        i = i + 1;
        assert(buf@ =~= overwrite(locked, OFFSET_PAYLOAD as int, bytes@.take(i as int)));
    }
    assert(n <= max_capacity_of(s));
    write_payload_size(buf, n as u32);
    write_status(buf, status);
    write_u32(buf, OFFSET_CAS_LOCK, 0);
    assert(buf@ =~= with_payload(s, bytes@, status));
    Some(n)
}

/// The payload a reader takes from the buffer.
pub fn read_payload(buf: &[u8]) -> (bytes: Vec<u8>)
    requires
        buf@.len() >= HEADER_SIZE,
    ensures
        bytes@ == payload_of(buf@),
{
    let size = read_payload_size(buf);
    let max = read_u32(buf, OFFSET_MAX_CAPACITY);
    let c = if size < max {
        size
    } else {
        max
    };
    let len = buf.len();
    let mut out: Vec<u8> = Vec::new();
    let mut i: u32 = 0;
    while i < c
        invariant
            c == payload_len(buf@),
            len == buf@.len(),
            len >= HEADER_SIZE,
            i <= c,
            out@ == payload_of(buf@).take(i as int),
        decreases c - i,
    {
        let b = if (i as usize) < len - OFFSET_PAYLOAD {
            buf[OFFSET_PAYLOAD + i as usize]
        } else {
            0u8
        };
        out.push(b);
        i = i + 1;
        assert(out@ =~= payload_of(buf@).take(i as int));
    }
    assert(payload_of(buf@).take(i as int) =~= payload_of(buf@));
    out
}

/// Why a request failed.
pub enum RequestError {
    /// The channel did not become IDLE in time.
    IdleTimeout,
    /// No response came in time.
    ResponseTimeout,
    /// The provider set ERROR, with this error code.
    ProviderError(u32),
}

/// The message of a request error.
pub open spec fn error_message(e: RequestError) -> Seq<char> {
    match e {
        RequestError::IdleTimeout => "timeout waiting for IDLE"@,
        RequestError::ResponseTimeout => "timeout waiting for response"@,
        RequestError::ProviderError(code) => "provider error: code "@ + decimal(code as nat),
    }
}

impl RequestError {
    /// The message of this error.
    pub fn message(&self) -> (m: String)
        ensures
            m@ == error_message(*self),
    {
        match self {
            RequestError::IdleTimeout => "timeout waiting for IDLE".to_owned(),
            RequestError::ResponseTimeout => "timeout waiting for response".to_owned(),
            RequestError::ProviderError(code) => {
                let mut out: Vec<char> = Vec::new();
                extend_str(&mut out, "provider error: code ");
                extend_chars(&mut out, &decimal_chars(*code as usize));
                string_of(&out)
            },
        }
    }
}

/// Where a request stands.
#[derive(PartialEq, Eq, Structural, Clone, Copy)]
pub enum Phase {
    /// Waiting for the channel to become IDLE.
    AwaitingIdle,
    /// The request is written; waiting for the provider.
    AwaitingResponse,
    /// The request has its outcome.
    Finished,
}

/// What the caller does after a step.
pub enum Step {
    /// Wait a moment, then step again.
    Wait,
    /// The request is over, with this outcome.
    Done(Result<Vec<u8>, RequestError>),
}

/// Milliseconds from `start` to `now`; zero if the clock reads earlier than `start`.
pub open spec fn elapsed(start: u64, now: u64) -> int {
    if now >= start {
        now - start
    } else {
        0
    }
}

/// One request from a consumer over a channel.
pub struct Request {
    payload: Vec<u8>,
    timeout_ms: u64,
    phase: Phase,
    phase_start_ms: u64,
}

impl Request {
    /// The bytes this request sends.
    pub closed spec fn payload(&self) -> Seq<u8> {
        self.payload@
    }

    /// How long each wait may last, in milliseconds.
    pub closed spec fn timeout_ms(&self) -> u64 {
        self.timeout_ms
    }

    /// Where this request stands.
    pub closed spec fn phase(&self) -> Phase {
        self.phase
    }

    /// When the current phase began, in the caller's milliseconds.
    pub closed spec fn phase_start(&self) -> u64 {
        self.phase_start_ms
    }

    /// Start a request for `payload` at time `now_ms`, giving each wait `timeout_ms`.
    pub fn new(payload: &[u8], timeout_ms: u64, now_ms: u64) -> (r: Request)
        ensures
            r.payload() == payload@,
            r.timeout_ms() == timeout_ms,
            r.phase() == Phase::AwaitingIdle,
            r.phase_start() == now_ms,
    {
        let mut p: Vec<u8> = Vec::new();
        let mut i: usize = 0;
        while i < payload.len()
            invariant
                i <= payload@.len(),
                p@ == payload@.take(i as int),
            decreases payload@.len() - i,
        {
            p.push(payload[i]);
            i = i + 1;
            assert(p@ =~= payload@.take(i as int));
        }
        assert(payload@.take(i as int) =~= payload@);
        Request { payload: p, timeout_ms, phase: Phase::AwaitingIdle, phase_start_ms: now_ms }
    }

    /// Whether the request has its outcome.
    pub fn is_finished(&self) -> (b: bool)
        ensures
            b == (self.phase() == Phase::Finished),
    {
        self.phase == Phase::Finished
    }

    /// Look at the channel once, at time `now_ms`, and move the request on.
    ///
    /// Waiting for IDLE: while the channel is busy or its lock is held the
    /// request waits, and gives up with `IdleTimeout` once more than the timeout
    /// has passed; when it is IDLE and the lock is free, the payload goes in
    /// under the lock and CONSUMER_REQ is signalled. Waiting for the
    /// response: PROVIDER_RES gives the response, ERROR gives the provider's
    /// error code, and either frees the channel (IDLE); otherwise the request
    /// waits, and gives up with `ResponseTimeout` once the timeout has passed.
    pub fn step(&mut self, buf: &mut [u8], now_ms: u64) -> (step: Step)
        requires
            old(buf)@.len() >= HEADER_SIZE,
            old(self).phase() != Phase::Finished,
        ensures
            final(self).payload() == old(self).payload(),
            final(self).timeout_ms() == old(self).timeout_ms(),
            ({
                let s = old(buf)@;
                let late = elapsed(old(self).phase_start(), now_ms) > old(self).timeout_ms();
                if old(self).phase() == Phase::AwaitingIdle {
                    if status_of(s) != STATUS_IDLE || lock_of(s) != 0 {
                        if late {
                            &&& step matches Step::Done(Err(RequestError::IdleTimeout))
                            &&& final(buf)@ == s
                            &&& final(self).phase() == Phase::Finished
                        } else {
                            &&& step is Wait
                            &&& final(buf)@ == s
                            &&& final(self).phase() == Phase::AwaitingIdle
                            &&& final(self).phase_start() == old(self).phase_start()
                        }
                    } else {
                        &&& step is Wait
                        &&& final(buf)@ == with_payload(s, old(self).payload(), STATUS_CONSUMER_REQ)
                        &&& final(self).phase() == Phase::AwaitingResponse
                        &&& final(self).phase_start() == now_ms
                    }
                } else if status_of(s) == STATUS_PROVIDER_RES {
                    &&& step matches Step::Done(Ok(resp)) && resp@ == payload_of(s)
                    &&& final(buf)@ == with_u32_at(s, 0, STATUS_IDLE)
                    &&& final(self).phase() == Phase::Finished
                } else if status_of(s) == STATUS_ERROR {
                    &&& step matches Step::Done(Err(RequestError::ProviderError(code)))
                        && code == error_code_of(s)
                    &&& final(buf)@ == with_u32_at(s, 0, STATUS_IDLE)
                    &&& final(self).phase() == Phase::Finished
                } else if late {
                    &&& step matches Step::Done(Err(RequestError::ResponseTimeout))
                    &&& final(buf)@ == s
                    &&& final(self).phase() == Phase::Finished
                } else {
                    &&& step is Wait
                    &&& final(buf)@ == s
                    &&& final(self).phase() == Phase::AwaitingResponse
                    &&& final(self).phase_start() == old(self).phase_start()
                }
            }),
    {
        let status = read_status(buf);
        let late = if now_ms >= self.phase_start_ms {
            now_ms - self.phase_start_ms > self.timeout_ms
        } else {
            false
        };
        if self.phase == Phase::AwaitingIdle {
            let written = if status == STATUS_IDLE {
                write_payload(buf, &self.payload, STATUS_CONSUMER_REQ)
            } else {
                None
            };
            match written {
                Some(_) => {
                    self.phase = Phase::AwaitingResponse;
                    self.phase_start_ms = now_ms;
                    Step::Wait
                },
                None => {
                    if late {
                        self.phase = Phase::Finished;
                        Step::Done(Err(RequestError::IdleTimeout))
                    } else {
                        Step::Wait
                    }
                },
            }
        } else if status == STATUS_PROVIDER_RES {
            let resp = read_payload(buf);
            write_status(buf, STATUS_IDLE);
            self.phase = Phase::Finished;
            Step::Done(Ok(resp))
        } else if status == STATUS_ERROR {
            let code = read_error_code(buf);
            write_status(buf, STATUS_IDLE);
            self.phase = Phase::Finished;
            Step::Done(Err(RequestError::ProviderError(code)))
        } else if late {
            self.phase = Phase::Finished;
            Step::Done(Err(RequestError::ResponseTimeout))
        } else {
            Step::Wait
        }
    }
}

// ---------------------------------------------------------------- provider side

/// What a provider finds when it looks at the channel.
pub enum ProviderEvent {
    /// A consumer's request, with its payload.
    Request(Vec<u8>),
    /// The channel was in ERROR; it is IDLE again.
    ErrorCleared,
    /// Nothing to do.
    Nothing,
}

/// Look at the channel once as a provider: a signalled request is read out,
/// an ERROR status is cleared to IDLE.
pub fn provider_poll(buf: &mut [u8]) -> (event: ProviderEvent)
    requires
        old(buf)@.len() >= HEADER_SIZE,
    ensures
        ({
            let s = old(buf)@;
            if status_of(s) == STATUS_CONSUMER_REQ {
                &&& event matches ProviderEvent::Request(r) && r@ == payload_of(s)
                &&& final(buf)@ == s
            } else if status_of(s) == STATUS_ERROR {
                &&& event is ErrorCleared
                &&& final(buf)@ == with_u32_at(s, 0, STATUS_IDLE)
            } else {
                &&& event is Nothing
                &&& final(buf)@ == s
            }
        }),
{
    let status = read_status(buf);
    if status == STATUS_CONSUMER_REQ {
        ProviderEvent::Request(read_payload(buf))
    } else if status == STATUS_ERROR {
        write_status(buf, STATUS_IDLE);
        ProviderEvent::ErrorCleared
    } else {
        ProviderEvent::Nothing
    }
}

/// Answer a request: under the lock, the response (cut to the capacity) goes
/// into the payload and PROVIDER_RES is signalled. Returns the number of
/// response bytes written, or `None`, writing nothing, where the lock is held.
pub fn provider_respond(buf: &mut [u8], response: &[u8]) -> (n: Option<usize>)
    requires
        old(buf)@.len() >= HEADER_SIZE,
    ensures
        lock_of(old(buf)@) != 0 ==> n is None && final(buf)@ == old(buf)@,
        lock_of(old(buf)@) == 0 ==> n == Some(copied_len(response@, old(buf)@) as usize)
            && final(buf)@ == with_payload(old(buf)@, response@, STATUS_PROVIDER_RES),
{
    write_payload(buf, response, STATUS_PROVIDER_RES)
}


// ---------------------------------------------------------------- laws

/// What a buffer holds after `with_payload`: the status, the size of what was
/// put in (never more than MAX_CAPACITY), that many bytes of it in the
/// payload, and a free lock; its length and MAX_CAPACITY are unchanged.
pub proof fn lemma_with_payload(s: Seq<u8>, bytes: Seq<u8>, status: u32)
    requires
        s.len() >= HEADER_SIZE,
    ensures
        with_payload(s, bytes, status).len() == s.len(),
        status_of(with_payload(s, bytes, status)) == status,
        payload_size_of(with_payload(s, bytes, status)) == copied_len(bytes, s),
        copied_len(bytes, s) <= max_capacity_of(s),
        lock_of(with_payload(s, bytes, status)) == 0,
        max_capacity_of(with_payload(s, bytes, status)) == max_capacity_of(s),
        capacity(with_payload(s, bytes, status)) == capacity(s),
        with_payload(s, bytes, status).subrange(
            OFFSET_PAYLOAD as int,
            OFFSET_PAYLOAD + copied_len(bytes, s),
        ) == bytes.take(copied_len(bytes, s)),
{
    let n = copied_len(bytes, s);
    let s0 = overwrite(s, OFFSET_PAYLOAD as int, bytes.take(n));
    let s1 = with_u32_at(s0, 8, n as u32);
    let s2 = with_u32_at(s1, 0, status);
    let s3 = with_u32_at(s2, OFFSET_CAS_LOCK as int, 0);
    law_read_after_write(s0, 8, n as u32);
    law_read_after_write(s1, 0, status);
    law_read_after_write(s2, OFFSET_CAS_LOCK as int, 0);
    law_write_keeps_other_fields(s1, 0, status, 8);
    law_write_keeps_other_fields(s2, OFFSET_CAS_LOCK as int, 0, 8);
    law_write_keeps_other_fields(s2, OFFSET_CAS_LOCK as int, 0, 0);
    law_write_keeps_other_fields(s0, 8, n as u32, OFFSET_MAX_CAPACITY as int);
    law_write_keeps_other_fields(s1, 0, status, OFFSET_MAX_CAPACITY as int);
    law_write_keeps_other_fields(s2, OFFSET_CAS_LOCK as int, 0, OFFSET_MAX_CAPACITY as int);
    assert(u32_at(s0, OFFSET_MAX_CAPACITY as int) == u32_at(s, OFFSET_MAX_CAPACITY as int));
    assert(s3.subrange(OFFSET_PAYLOAD as int, OFFSET_PAYLOAD + n) =~= bytes.take(n));
}

/// The handshake delivers both ways, under the lock and within MAX_CAPACITY. A
/// request that fits, written by the consumer, is what the provider reads; a
/// response that fits, written by the provider, is what the consumer reads;
/// each write leaves the lock free; and the consumer's last write leaves the
/// channel IDLE.
pub proof fn law_round_trip(s: Seq<u8>, request: Seq<u8>, response: Seq<u8>)
    requires
        s.len() >= HEADER_SIZE,
        request.len() <= capacity(s),
        response.len() <= capacity(s),
    ensures
        ({
            let sent = with_payload(s, request, STATUS_CONSUMER_REQ);
            let answered = with_payload(sent, response, STATUS_PROVIDER_RES);
            &&& status_of(sent) == STATUS_CONSUMER_REQ
            &&& lock_of(sent) == 0
            &&& payload_of(sent) == request
            &&& status_of(answered) == STATUS_PROVIDER_RES
            &&& lock_of(answered) == 0
            &&& payload_of(answered) == response
            &&& status_of(with_u32_at(answered, 0, STATUS_IDLE)) == STATUS_IDLE
        }),
{
    let sent = with_payload(s, request, STATUS_CONSUMER_REQ);
    lemma_with_payload(s, request, STATUS_CONSUMER_REQ);
    assert(request.take(request.len() as int) =~= request);
    lemma_with_payload(sent, response, STATUS_PROVIDER_RES);
    assert(response.take(response.len() as int) =~= response);
    let answered = with_payload(sent, response, STATUS_PROVIDER_RES);
    assert(payload_of(sent) =~= request);
    assert(payload_of(answered) =~= response);
    law_read_after_write(answered, 0, STATUS_IDLE);
}

/// Sizes stay within MAX_CAPACITY: a payload longer than the capacity is cut to
/// the capacity, so the size field never exceeds MAX_CAPACITY; and a reader
/// never takes more than MAX_CAPACITY bytes, whatever the size field says.
pub proof fn law_payload_within_capacity(s: Seq<u8>, bytes: Seq<u8>, status: u32, t: Seq<u8>)
    requires
        s.len() >= HEADER_SIZE,
        t.len() >= HEADER_SIZE,
    ensures
        payload_size_of(with_payload(s, bytes, status)) <= max_capacity_of(s),
        bytes.len() > capacity(s) ==> payload_size_of(with_payload(s, bytes, status))
            == capacity(s) && payload_of(with_payload(s, bytes, status)) == bytes.take(
            capacity(s),
        ),
        payload_of(t).len() <= max_capacity_of(t),
{
    lemma_with_payload(s, bytes, status);
    if bytes.len() > capacity(s) {
        let w = with_payload(s, bytes, status);
        assert(payload_of(w) =~= bytes.take(capacity(s)));
    }
}

} // verus!
