//! The scripted transport: a queue of responses that is used up first in,
//! first out, a fixed answer for when it is empty, and the record of every
//! call in the order of issue.

use vstd::prelude::*;
use crate::assoc;

verus! {

/// An outbound request.
#[derive(Debug)]
pub struct HttpRequest {
    pub method: String,
    pub url: String,
    pub headers: Vec<(String, String)>,
    pub body: Option<Vec<u8>>,
}

/// The response to a request.
#[derive(Debug)]
pub struct HttpResponse {
    pub status: u16,
    pub headers: Vec<(String, String)>,
    pub body: Option<Vec<u8>>,
}

/// A transport fault, as it is handed to the module.
#[derive(Debug)]
pub struct HttpClientError {
    pub code: String,
    pub message: String,
}

/// What a call ended in: the response that was returned, or the fault.
#[derive(Debug)]
pub enum CallResult {
    Response(HttpResponse),
    Fault(HttpClientError),
}

/// One call: the request as it was issued and what was returned for it.
#[derive(Debug)]
pub struct HttpCall {
    pub request: HttpRequest,
    pub result: CallResult,
}

/// The queue of responses to come and the calls made so far.
#[derive(Debug)]
pub struct MockController {
    queue: Vec<(u16, Vec<u8>)>,
    history: Vec<HttpCall>,
}

pub ghost struct HttpRequestV {
    pub method: Seq<char>,
    pub url: Seq<char>,
    pub headers: Seq<(Seq<char>, Seq<char>)>,
    pub body: Option<Seq<u8>>,
}

pub ghost struct HttpResponseV {
    pub status: u16,
    pub headers: Seq<(Seq<char>, Seq<char>)>,
    pub body: Option<Seq<u8>>,
}

pub ghost struct HttpFaultV {
    pub code: Seq<char>,
    pub message: Seq<char>,
}

pub ghost enum CallResultV {
    Response(HttpResponseV),
    Fault(HttpFaultV),
}

pub ghost struct HttpCallV {
    pub request: HttpRequestV,
    pub result: CallResultV,
}

/// One attempt of a module at transport: its request, and the fault that
/// the transport met, if it met one.
pub ghost struct AttemptV {
    pub request: HttpRequestV,
    pub fault: Option<HttpFaultV>,
}

pub ghost struct MockV {
    pub queue: Seq<(u16, Seq<u8>)>,
    pub history: Seq<HttpCallV>,
}

/// The view of an optional body.
pub open spec fn opt_bytes(b: Option<Vec<u8>>) -> Option<Seq<u8>> {
    match b {
        Some(v) => Some(v@),
        None => None,
    }
}

impl View for HttpRequest {
    type V = HttpRequestV;

    open spec fn view(&self) -> HttpRequestV {
        HttpRequestV {
            method: self.method@,
            url: self.url@,
            headers: assoc::entries_view(self.headers@),
            body: opt_bytes(self.body),
        }
    }
}

impl View for HttpResponse {
    type V = HttpResponseV;

    open spec fn view(&self) -> HttpResponseV {
        HttpResponseV {
            status: self.status,
            headers: assoc::entries_view(self.headers@),
            body: opt_bytes(self.body),
        }
    }
}

impl View for HttpClientError {
    type V = HttpFaultV;

    open spec fn view(&self) -> HttpFaultV {
        HttpFaultV { code: self.code@, message: self.message@ }
    }
}

impl View for CallResult {
    type V = CallResultV;

    open spec fn view(&self) -> CallResultV {
        match self {
            CallResult::Response(r) => CallResultV::Response(r@),
            CallResult::Fault(f) => CallResultV::Fault(f@),
        }
    }
}

impl View for HttpCall {
    type V = HttpCallV;

    open spec fn view(&self) -> HttpCallV {
        HttpCallV { request: self.request@, result: self.result@ }
    }
}

/// The queued responses of `q`, each with the view of its body.
pub open spec fn queue_view(q: Seq<(u16, Vec<u8>)>) -> Seq<(u16, Seq<u8>)> {
    Seq::new(q.len(), |i: int| (q[i].0, q[i].1@))
}

/// The calls of `h`, each by its view.
pub open spec fn calls_view(h: Seq<HttpCall>) -> Seq<HttpCallV> {
    Seq::new(h.len(), |i: int| h[i]@)
}

impl View for MockController {
    type V = MockV;

    closed spec fn view(&self) -> MockV {
        MockV { queue: queue_view(self.queue@), history: calls_view(self.history@) }
    }
}

/// The body of the answer given when the queue is empty: `{"status":"ok"}`.
pub open spec fn default_body() -> Seq<u8> {
    seq![
        0x7bu8, 0x22u8, 0x73u8, 0x74u8, 0x61u8, 0x74u8, 0x75u8, 0x73u8, 0x22u8, 0x3au8, 0x22u8,
        0x6fu8, 0x6bu8, 0x22u8, 0x7du8,
    ]
}

/// The response that stands for a queued status and body.
pub open spec fn queued_response(entry: (u16, Seq<u8>)) -> HttpResponseV {
    HttpResponseV { status: entry.0, headers: Seq::empty(), body: Some(entry.1) }
}

/// The answer given when the queue is empty: status 200 and the default body.
pub open spec fn default_response() -> HttpResponseV {
    queued_response((200u16, default_body()))
}

/// The response that the next call gets from `queue`.
pub open spec fn next_response(queue: Seq<(u16, Seq<u8>)>) -> HttpResponseV {
    if queue.len() > 0 {
        queued_response(queue[0])
    } else {
        default_response()
    }
}

/// The state after one call with `request`: the head of the queue is used up
/// and the call stands last in the history, with the response it got.
pub open spec fn after_call(m: MockV, request: HttpRequestV) -> MockV {
    MockV {
        queue: if m.queue.len() > 0 {
            m.queue.drop_first()
        } else {
            m.queue
        },
        history: m.history.push(
            HttpCallV { request, result: CallResultV::Response(next_response(m.queue)) },
        ),
    }
}

/// The state after a call with `request` that met the fault `fault`: the
/// queue is untouched and the call stands last in the history, with the fault.
pub open spec fn after_fault(m: MockV, request: HttpRequestV, fault: HttpFaultV) -> MockV {
    MockV {
        queue: m.queue,
        history: m.history.push(HttpCallV { request, result: CallResultV::Fault(fault) }),
    }
}

/// The state after one attempt.
pub open spec fn after_attempt(m: MockV, a: AttemptV) -> MockV {
    match a.fault {
        Some(f) => after_fault(m, a.request, f),
        None => after_call(m, a.request),
    }
}

/// The state after the attempts `attempts`, made in order.
pub open spec fn after_attempts(m: MockV, attempts: Seq<AttemptV>) -> MockV
    decreases attempts.len(),
{
    if attempts.len() == 0 {
        m
    } else {
        after_attempt(after_attempts(m, attempts.drop_last()), attempts.last())
    }
}

/// How many of the attempts were answered, that is, met no fault.
pub open spec fn answered(attempts: Seq<AttemptV>) -> nat
    decreases attempts.len(),
{
    if attempts.len() == 0 {
        0
    } else if attempts.last().fault is None {
        answered(attempts.drop_last()) + 1
    } else {
        answered(attempts.drop_last())
    }
}

/// The response that the answered call number `i`, counted from zero, gets from `queue`.
pub open spec fn response_at(queue: Seq<(u16, Seq<u8>)>, i: int) -> HttpResponseV {
    if 0 <= i < queue.len() {
        queued_response(queue[i])
    } else {
        default_response()
    }
}

/// What is on record for the attempt number `i` of `attempts` made on `queue`.
pub open spec fn record_at(queue: Seq<(u16, Seq<u8>)>, attempts: Seq<AttemptV>, i: int) -> HttpCallV {
    HttpCallV {
        request: attempts[i].request,
        result: match attempts[i].fault {
            Some(f) => CallResultV::Fault(f),
            None => CallResultV::Response(response_at(queue, answered(attempts.take(i)) as int)),
        },
    }
}

/// Every attempt is recorded once, in the order of issue, with what it got:
/// its fault, or else the next response, which is taken from the queue in
/// the order of queuing and is the default answer once the queue is used up.
/// What is left of the queue is what the answered calls did not use.
pub proof fn lemma_calls_recorded_in_order(m: MockV, attempts: Seq<AttemptV>)
    ensures
        after_attempts(m, attempts).history.len() == m.history.len() + attempts.len(),
        after_attempts(m, attempts).history.take(m.history.len() as int) == m.history,
        forall|i: int|
            0 <= i < attempts.len() ==> #[trigger] after_attempts(m, attempts).history[m.history.len()
                + i] == record_at(m.queue, attempts, i),
        after_attempts(m, attempts).queue == if answered(attempts) <= m.queue.len() {
            m.queue.skip(answered(attempts) as int)
        } else {
            Seq::empty()
        },
    decreases attempts.len(),
{
    if attempts.len() == 0 {
        assert(m.history.take(m.history.len() as int) =~= m.history);
        assert(m.queue.skip(0) =~= m.queue);
    } else {
        let front = attempts.drop_last();
        lemma_calls_recorded_in_order(m, front);
        let mid = after_attempts(m, front);
        let end = after_attempts(m, attempts);
        assert(end == after_attempt(mid, attempts.last()));
        assert(end.history.take(m.history.len() as int) =~= mid.history.take(
            m.history.len() as int,
        ));
        let n = front.len() as int;
        let k = answered(front) as int;
        assert(attempts.take(n) =~= front);
        if k < m.queue.len() {
            assert(mid.queue[0] == m.queue[k]);
            assert(mid.queue.drop_first() =~= m.queue.skip(k + 1));
        } else {
            assert(mid.queue =~= Seq::empty());
        }
        assert forall|i: int| 0 <= i < attempts.len() implies #[trigger] end.history[m.history.len()
            + i] == record_at(m.queue, attempts, i) by {
            if i < n {
                assert(end.history[m.history.len() + i] == mid.history[m.history.len() + i]);
                assert(front[i] == attempts[i]);
                assert(front.take(i) =~= attempts.take(i));
            }
        }
        assert(end.queue =~= if answered(attempts) <= m.queue.len() {
            m.queue.skip(answered(attempts) as int)
        } else {
            Seq::empty()
        });
    }
}

impl HttpRequest {
    /// A copy of this request.
    pub fn duplicate(&self) -> (r: HttpRequest)
        ensures
            r@ == self@,
    {
        HttpRequest {
            method: self.method.clone(),
            url: self.url.clone(),
            headers: assoc::clone_pairs(&self.headers),
            body: match &self.body {
                Some(b) => Some(assoc::clone_bytes(b)),
                None => None,
            },
        }
    }
}

impl HttpResponse {
    /// A copy of this response.
    pub fn duplicate(&self) -> (r: HttpResponse)
        ensures
            r@ == self@,
    {
        HttpResponse {
            status: self.status,
            headers: assoc::clone_pairs(&self.headers),
            body: match &self.body {
                Some(b) => Some(assoc::clone_bytes(b)),
                None => None,
            },
        }
    }
}

impl HttpClientError {
    /// A copy of this fault.
    pub fn duplicate(&self) -> (r: HttpClientError)
        ensures
            r@ == self@,
    {
        HttpClientError { code: self.code.clone(), message: self.message.clone() }
    }
}

impl HttpCall {
    /// A copy of this call.
    pub fn duplicate(&self) -> (r: HttpCall)
        ensures
            r@ == self@,
    {
        HttpCall {
            request: self.request.duplicate(),
            result: match &self.result {
                CallResult::Response(r) => CallResult::Response(r.duplicate()),
                CallResult::Fault(f) => CallResult::Fault(f.duplicate()),
            },
        }
    }

    /// The response of this call, where it got one.
    pub fn response(&self) -> (r: Option<&HttpResponse>)
        ensures
            match r {
                Some(resp) => self@.result == CallResultV::Response(resp@),
                None => self@.result is Fault,
            },
    {
        match &self.result {
            CallResult::Response(r) => Some(r),
            CallResult::Fault(_) => None,
        }
    }

    /// The status of the response of this call, where it got one.
    pub fn status(&self) -> (r: Option<u16>)
        ensures
            match r {
                Some(n) => self@.result matches CallResultV::Response(resp) && resp.status == n,
                None => self@.result is Fault,
            },
    {
        match &self.result {
            CallResult::Response(r) => Some(r.status),
            CallResult::Fault(_) => None,
        }
    }
}

/// The answer given when the queue is empty.
pub fn default_http_response() -> (r: HttpResponse)
    ensures
        r@ == default_response(),
{
    let mut body: Vec<u8> = Vec::new();
    body.push(0x7b);
    body.push(0x22);
    body.push(0x73);
    body.push(0x74);
    body.push(0x61);
    body.push(0x74);
    body.push(0x75);
    body.push(0x73);
    body.push(0x22);
    body.push(0x3a);
    body.push(0x22);
    body.push(0x6f);
    body.push(0x6b);
    body.push(0x22);
    body.push(0x7d);
    assert(body@ =~= default_body());
    let r = HttpResponse { status: 200, headers: Vec::new(), body: Some(body) };
    assert(r@.headers =~= Seq::empty());
    r
}

impl MockController {
    /// A controller with nothing queued and no call made.
    pub fn new() -> (r: MockController)
        ensures
            r@.queue.len() == 0,
            r@.history.len() == 0,
    {
        MockController { queue: Vec::new(), history: Vec::new() }
    }

    /// Appends a response to the queue.
    pub fn queue_response(&mut self, status: u16, body: Vec<u8>)
        ensures
            final(self)@.queue == old(self)@.queue.push((status, body@)),
            final(self)@.history == old(self)@.history,
    {
        self.queue.push((status, body));
        assert(queue_view(self.queue@) =~= queue_view(old(self).queue@).push((status, body@)));
    }

    /// Empties the queue; the history stays.
    pub fn clear(&mut self)
        ensures
            final(self)@.queue.len() == 0,
            final(self)@.history == old(self)@.history,
    {
        self.queue.clear();
    }

    /// Answers `request` from the head of the queue, or with the default
    /// answer when the queue is empty, and records the call.
    pub fn respond(&mut self, request: HttpRequest) -> (r: HttpResponse)
        ensures
            r@ == next_response(old(self)@.queue),
            final(self)@ == after_call(old(self)@, request@),
    {
        let response = if self.queue.len() > 0 {
            let (status, body) = self.queue.remove(0);
            assert(queue_view(self.queue@) =~= queue_view(old(self).queue@).drop_first());
            let r = HttpResponse { status, headers: Vec::new(), body: Some(body) };
            assert(r@.headers =~= Seq::empty());
            r
        } else {
            default_http_response()
        };
        let returned = response.duplicate();
        self.history.push(HttpCall { request, result: CallResult::Response(response) });
        assert(calls_view(self.history@) =~= calls_view(old(self).history@).push(
            HttpCallV { request: request@, result: CallResultV::Response(returned@) },
        ));
        returned
    }

    /// Records a call that met the fault `fault` before any response, and
    /// hands the fault back. The queue is not touched.
    pub fn record_fault(&mut self, request: HttpRequest, fault: HttpClientError) -> (r:
        HttpClientError)
        ensures
            r@ == fault@,
            final(self)@ == after_fault(old(self)@, request@, fault@),
    {
        let returned = fault.duplicate();
        self.history.push(HttpCall { request, result: CallResult::Fault(fault) });
        assert(calls_view(self.history@) =~= calls_view(old(self).history@).push(
            HttpCallV { request: request@, result: CallResultV::Fault(returned@) },
        ));
        returned
    }

    /// The calls made so far, in the order of issue: a copy that later calls do not change.
    pub fn history(&self) -> (r: Vec<HttpCall>)
        ensures
            calls_view(r@) == self@.history,
    {
        let mut r: Vec<HttpCall> = Vec::new();
        let mut i: usize = 0;
        while i < self.history.len()
            invariant
                i <= self.history.len(),
                r@.len() == i,
                forall|k: int| 0 <= k < i ==> r@[k]@ == self.history@[k]@,
            decreases self.history.len() - i,
        {
            r.push(self.history[i].duplicate());
            i += 1;
        }
        assert(calls_view(r@) =~= calls_view(self.history@));
        r
    }

    /// How many responses are queued.
    pub fn queued(&self) -> (r: usize)
        ensures
            r == self@.queue.len(),
    {
        self.queue.len()
    }

    /// How many calls were made.
    pub fn call_count(&self) -> (r: usize)
        ensures
            r == self@.history.len(),
    {
        self.history.len()
    }
}

} // verus!
