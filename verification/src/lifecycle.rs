//! The life of one request, from its arrival to its response. The service
//! decides and the caller acts: `App::receive` answers a request or hands
//! back the one row to insert, and `complete` turns the store's answer into
//! the response.

use crate::clock::Timestamp;
use crate::error::{StoreFailure, StoreFailureView};
use crate::http::{
    MethodView, Request, RequestView, Response, ResponseView, StatusCode, REQUEST_ID_HEADER,
};
use crate::id::{RequestId, Uuid};
use crate::routes::health_check::{health_check, HEALTH_CHECK_MESSAGE};
use crate::routes::subscriptions::{
    decoded_body, filed_on_write, insert_result, insert_subscriber, inserted, is_present,
    new_row, outcome_view, parsed, subscribe, subscribed, Field, FormData, FormDataView,
    Subscriber, SubscriberView, ValidationError,
};
use crate::startup::{
    lemma_standard_lookup, lookup, standard_routes, App, Handler, MakeRequestUuid, RouteView,
};
use crate::telemetry::{
    add_subscriber_span, http_span, is_balanced, lemma_open_after_concat, open_after,
    save_subscriber_span, Span, SpanKind, SpanView, TraceEvent, TraceEventView,
};
use vstd::prelude::*;

verus! {

/// What the service keeps of a request while it waits for the store. It
/// lives from the arrival of the request to its response, belongs to that
/// request alone and is never stored.
#[derive(Clone, Debug, PartialEq, Eq)]
pub struct RequestContext {
    pub correlation_id: RequestId,
    /// The spans that are open, outermost first, with their fields.
    pub spans: Vec<Span>,
}

/// What a `RequestContext` holds, as mathematical values.
pub struct RequestContextView {
    pub correlation_id: RequestId,
    pub spans: Seq<SpanView>,
}

impl View for RequestContext {
    type V = RequestContextView;

    open spec fn view(&self) -> RequestContextView {
        RequestContextView {
            correlation_id: self.correlation_id,
            spans: self.spans.deep_view(),
        }
    }
}

/// The end of a request: the response to send and the trace to log.
#[derive(Clone, Debug, PartialEq, Eq)]
pub struct Reply {
    pub response: Response,
    pub trace: Vec<TraceEvent>,
}

/// What a `Reply` holds, as mathematical values.
pub struct ReplyView {
    pub response: ResponseView,
    pub trace: Seq<TraceEventView>,
}

impl View for Reply {
    type V = ReplyView;

    open spec fn view(&self) -> ReplyView {
        ReplyView { response: self.response@, trace: self.trace.deep_view() }
    }
}

/// A request that waits for the store: the row to insert with the one insert
/// statement, the trace so far, and the context to come back with.
#[derive(Clone, Debug, PartialEq, Eq)]
pub struct Pending {
    pub context: RequestContext,
    pub row: Subscriber,
    pub trace: Vec<TraceEvent>,
}

/// What a `Pending` holds, as mathematical values.
pub struct PendingView {
    pub context: RequestContextView,
    pub row: SubscriberView,
    pub trace: Seq<TraceEventView>,
}

impl View for Pending {
    type V = PendingView;

    open spec fn view(&self) -> PendingView {
        PendingView { context: self.context@, row: self.row@, trace: self.trace.deep_view() }
    }
}

/// How far a request has come once the service has looked at it.
#[derive(Clone, Debug, PartialEq, Eq)]
pub enum Progress {
    /// It is answered, and the store was not asked anything.
    Done(Reply),
    /// One row is to be inserted; `complete` takes the store's answer.
    Pending(Pending),
}

/// What a `Progress` holds, as mathematical values.
pub enum ProgressView {
    Done(ReplyView),
    Pending(PendingView),
}

impl View for Progress {
    type V = ProgressView;

    open spec fn view(&self) -> ProgressView {
        match self {
            Progress::Done(reply) => ProgressView::Done(reply@),
            Progress::Pending(pending) => ProgressView::Pending(pending@),
        }
    }
}

/// The response with the given status to the request with the given
/// correlation identifier: the identifier stands in its one header, and the
/// body is empty.
pub open spec fn response_to(status: StatusCode, request_id: RequestId) -> ResponseView {
    ResponseView {
        status,
        headers: seq![(REQUEST_ID_HEADER@, request_id.text())],
        body: Seq::empty(),
    }
}

/// The events that close the given open spans, innermost first.
pub open spec fn closing(spans: Seq<SpanView>) -> Seq<TraceEventView> {
    Seq::new(spans.len(), |i: int| TraceEventView::Exit(spans[spans.len() - 1 - i].kind))
}

/// The kinds of the given spans, in their order.
pub open spec fn kinds(spans: Seq<SpanView>) -> Seq<SpanKind> {
    Seq::new(spans.len(), |i: int| spans[i].kind)
}

/// What becomes of a request before a row is made for it, where
/// `request_id` is the identifier drawn for it: the reply that ends it at
/// once, or the form that it submits.
///
/// The correlation identifier is assigned first, then the root span is
/// opened with it, then the handler runs. A method and path without a route
/// get 404. The liveness probe gets 200. A submission that cannot be decoded
/// gets 400.
pub open spec fn arrived(
    routes: Seq<RouteView>,
    request: RequestView,
    request_id: RequestId,
) -> Result<FormDataView, ReplyView> {
    let root = http_span(request.method, request.uri, request_id);
    match lookup(routes, request.method, request.path) {
        None => Err(
            ReplyView {
                response: response_to(StatusCode::NotFound, request_id),
                trace: seq![TraceEventView::Enter(root), TraceEventView::Exit(SpanKind::Http)],
            },
        ),
        Some(Handler::HealthCheck) => Err(
            ReplyView {
                response: response_to(StatusCode::Success, request_id),
                trace: seq![
                    TraceEventView::Enter(root),
                    TraceEventView::Info(HEALTH_CHECK_MESSAGE@),
                    TraceEventView::Exit(SpanKind::Http),
                ],
            },
        ),
        Some(Handler::Subscribe) => match decoded_body(request.content_type, request.body) {
            Err(_) => Err(
                ReplyView {
                    response: response_to(StatusCode::BadRequest, request_id),
                    trace: seq![TraceEventView::Enter(root), TraceEventView::Exit(SpanKind::Http)],
                },
            ),
            Ok(form) => Ok(form),
        },
    }
}

/// How a submission waits for the store with its row: inside the root span
/// the span of the handler is open, with the subscriber's email and name,
/// and inside that the span of the insert.
pub open spec fn waiting(
    request: RequestView,
    request_id: RequestId,
    row: SubscriberView,
) -> PendingView {
    let root = http_span(request.method, request.uri, request_id);
    let handler = add_subscriber_span(row.email, row.name);
    let query = save_subscriber_span();
    PendingView {
        context: RequestContextView {
            correlation_id: request_id,
            spans: seq![root, handler, query],
        },
        row,
        trace: seq![
            TraceEventView::Enter(root),
            TraceEventView::Enter(handler),
            TraceEventView::Enter(query),
        ],
    }
}

/// What becomes of a request on its arrival, where `request_id` is the
/// identifier drawn for it, and `row_id` and `now` are the identifier and
/// the time drawn for its row, should it get one. A request that is not
/// answered at once is a submission that could be decoded: it waits for the
/// store with its one row, and the store is asked for nothing else.
pub open spec fn received(
    routes: Seq<RouteView>,
    request: RequestView,
    request_id: RequestId,
    row_id: Uuid,
    now: Timestamp,
) -> ProgressView {
    match arrived(routes, request, request_id) {
        Err(reply) => ProgressView::Done(reply),
        Ok(form) => ProgressView::Pending(
            waiting(request, request_id, new_row(row_id, form, now)),
        ),
    }
}

/// What becomes of a waiting request once the store has answered: 200 where
/// the row was stored, 500 where it was not. A failure goes to the trace
/// with its full detail and leaves nothing in the response. Either way the
/// open spans are closed, innermost first, and the response carries the
/// correlation identifier of the request.
pub open spec fn completed(
    context: RequestContextView,
    outcome: Result<(), StoreFailureView>,
) -> ReplyView {
    ReplyView {
        response: response_to(subscribed(inserted(outcome)), context.correlation_id),
        trace: match inserted(outcome) {
            Ok(()) => closing(context.spans),
            Err(err) => seq![TraceEventView::Failure(err)] + closing(context.spans),
        },
    }
}

/// The response with the given status to the request with the given
/// correlation identifier. Every response of the service is made here, so
/// every one carries the identifier.
pub fn respond(status: StatusCode, request_id: &RequestId) -> (response: Response)
    ensures
        response@ == response_to(status, *request_id),
{
    let mut headers: Vec<(String, String)> = Vec::new();
    headers.push((REQUEST_ID_HEADER.to_owned(), request_id.header_value()));
    let body: Vec<u8> = Vec::new();
    assert(headers.deep_view() =~= response_to(status, *request_id).headers);
    assert(body@ =~= Seq::<u8>::empty());
    Response { status, headers, body }
}

impl App {
    /// Lets a request in as far as it gets without a row: opens its root
    /// span, finds its handler, and answers it or decodes its form.
    fn arrive(&self, request: &Request, request_id: &RequestId) -> (res: Result<FormData, Reply>)
        ensures
            match res {
                Ok(form) => arrived(self@, request@, *request_id) == Ok::<FormDataView, ReplyView>(
                    form@,
                ),
                Err(reply) => arrived(self@, request@, *request_id) == Err::<
                    FormDataView,
                    ReplyView,
                >(reply@),
            },
    {
        let ghost root = http_span(request.method@, request.uri@, *request_id);
        let mut trace: Vec<TraceEvent> = Vec::new();
        trace.push(TraceEvent::Enter(Span::http(&request.method, &request.uri, request_id)));
        match self.dispatch(&request.method, request.path.as_str()) {
            None => {
                trace.push(TraceEvent::Exit(SpanKind::Http));
                assert(trace.deep_view() =~= seq![
                    TraceEventView::Enter(root),
                    TraceEventView::Exit(SpanKind::Http),
                ]);
                Err(Reply { response: respond(StatusCode::NotFound, request_id), trace })
            },
            Some(Handler::HealthCheck) => {
                let status = health_check();
                trace.push(TraceEvent::Info(HEALTH_CHECK_MESSAGE.to_owned()));
                trace.push(TraceEvent::Exit(SpanKind::Http));
                assert(trace.deep_view() =~= seq![
                    TraceEventView::Enter(root),
                    TraceEventView::Info(HEALTH_CHECK_MESSAGE@),
                    TraceEventView::Exit(SpanKind::Http),
                ]);
                Err(Reply { response: respond(status, request_id), trace })
            },
            Some(Handler::Subscribe) => {
                match FormData::decode(&request.content_type, request.body.as_slice()) {
                    Err(_) => {
                        trace.push(TraceEvent::Exit(SpanKind::Http));
                        assert(trace.deep_view() =~= seq![
                            TraceEventView::Enter(root),
                            TraceEventView::Exit(SpanKind::Http),
                        ]);
                        Err(Reply { response: respond(StatusCode::BadRequest, request_id), trace })
                    },
                    Ok(form) => Ok(form),
                }
            },
        }
    }

    /// Takes a request in with identifiers and a time that were drawn
    /// elsewhere: `request_id` for the request, `row_id` and `now` for its
    /// row, should it get one.
    pub fn receive_with(
        &self,
        request: &Request,
        request_id: RequestId,
        row_id: Uuid,
        now: Timestamp,
    ) -> (progress: Progress)
        ensures
            progress@ == received(self@, request@, request_id, row_id, now),
    {
        match self.arrive(request, &request_id) {
            Err(reply) => Progress::Done(reply),
            Ok(form) => Progress::Pending(
                suspend(request, request_id, Subscriber::new(row_id, form, now)),
            ),
        }
    }

    /// Takes a request in. Draws its correlation identifier, opens its root
    /// span, finds its handler and lets it run as far as it can without the
    /// store. Where the request is a submission that can be decoded, the
    /// identifier and the time of its row are drawn too.
    pub fn receive(&self, request: &Request) -> (progress: Progress)
        ensures
            exists|request_id: RequestId, row_id: Uuid, now: Timestamp|
                request_id.uuid.is_random() && (progress@ is Pending ==> row_id.is_random())
                    && now.is_well_formed() && progress@ == #[trigger] received(
                    self@,
                    request@,
                    request_id,
                    row_id,
                    now,
                ),
    {
        let mut maker = MakeRequestUuid;
        let request_id = maker.make_request_id().unwrap();
        match self.arrive(request, &request_id) {
            Err(reply) => {
                let progress = Progress::Done(reply);
                assert(progress@ == received(
                    self@,
                    request@,
                    request_id,
                    request_id.uuid,
                    Timestamp { secs: 0, nanos: 0 },
                ));
                progress
            },
            Ok(form) => {
                let row = insert_subscriber(form);
                let progress = Progress::Pending(suspend(request, request_id, row));
                assert(progress@ == received(
                    self@,
                    request@,
                    request_id,
                    row.id,
                    row.subscribed_at,
                ));
                progress
            },
        }
    }
}

/// Puts a submission on hold for the store: opens the spans of the handler
/// and of the insert inside the root span, and keeps in the context what is
/// open.
fn suspend(request: &Request, request_id: RequestId, row: Subscriber) -> (pending: Pending)
    ensures
        pending@ == waiting(request@, request_id, row@),
{
    let ghost root = http_span(request.method@, request.uri@, request_id);
    let ghost handler = add_subscriber_span(row.email@, row.name@);
    let ghost query = save_subscriber_span();
    let mut trace: Vec<TraceEvent> = Vec::new();
    trace.push(TraceEvent::Enter(Span::http(&request.method, &request.uri, &request_id)));
    trace.push(TraceEvent::Enter(Span::add_subscriber(&row.email, &row.name)));
    trace.push(TraceEvent::Enter(Span::save_subscriber()));
    let mut spans: Vec<Span> = Vec::new();
    spans.push(Span::http(&request.method, &request.uri, &request_id));
    spans.push(Span::add_subscriber(&row.email, &row.name));
    spans.push(Span::save_subscriber());
    assert(trace.deep_view() =~= seq![
        TraceEventView::Enter(root),
        TraceEventView::Enter(handler),
        TraceEventView::Enter(query),
    ]);
    assert(spans.deep_view() =~= seq![root, handler, query]);
    Pending { context: RequestContext { correlation_id: request_id, spans }, row, trace }
}

/// Takes the store's answer for a waiting request and ends the request: the
/// answer is filed and made into a status, a failure is logged, the open
/// spans are closed and the response gets the request's correlation
/// identifier.
pub fn complete(context: RequestContext, outcome: Result<(), StoreFailure>) -> (reply: Reply)
    ensures
        reply@ == completed(context@, outcome_view(outcome)),
{
    let ghost spans = context.spans.deep_view();
    let ghost answer = outcome_view(outcome);
    let result = insert_result(outcome);
    let status = subscribe(&result);
    let mut trace: Vec<TraceEvent> = Vec::new();
    match result {
        Ok(()) => {},
        Err(err) => {
            trace.push(TraceEvent::Failure(err));
        },
    }
    let ghost head = trace.deep_view();
    assert(head =~= match answer {
        Ok(()) => Seq::<TraceEventView>::empty(),
        Err(failure) => seq![TraceEventView::Failure(filed_on_write(failure))],
    });
    let n = context.spans.len();
    let mut i: usize = 0;
    while i < n
        invariant
            i <= n,
            n == context.spans.len(),
            spans == context.spans.deep_view(),
            spans.len() == n,
            trace.deep_view() =~= head + closing(spans).take(i as int),
        decreases n - i,
    {
        let ghost before = trace.deep_view();
        let kind = context.spans[n - 1 - i].kind;
        assert(spans[n - 1 - i] == context.spans[n - 1 - i]@);
        assert(closing(spans)[i as int] == TraceEventView::Exit(kind));
        trace.push(TraceEvent::Exit(kind));
        assert(trace.deep_view() =~= before.push(TraceEventView::Exit(kind)));
        assert(closing(spans).take(i + 1) =~= closing(spans).take(i as int).push(
            closing(spans)[i as int],
        ));
        i = i + 1;
    }
    assert(closing(spans).take(n as int) =~= closing(spans));
    assert(head + closing(spans) =~= completed(context@, answer).trace);
    Reply { response: respond(status, &context.correlation_id), trace }
}

/// The response that ends a request: the one it got on arrival, or the one
/// that followed the store's answer.
pub open spec fn final_response(
    progress: ProgressView,
    outcome: Result<(), StoreFailureView>,
) -> ResponseView {
    match progress {
        ProgressView::Done(reply) => reply.response,
        ProgressView::Pending(pending) => completed(pending.context, outcome).response,
    }
}

/// The whole trace of a request, from its arrival to its response.
pub open spec fn whole_trace(
    progress: ProgressView,
    outcome: Result<(), StoreFailureView>,
) -> Seq<TraceEventView> {
    match progress {
        ProgressView::Done(reply) => reply.trace,
        ProgressView::Pending(pending) => pending.trace + completed(
            pending.context,
            outcome,
        ).trace,
    }
}

/// The events that close a stack of open spans close all of them.
pub proof fn lemma_closing_closes_all(spans: Seq<SpanView>)
    ensures
        open_after(kinds(spans), closing(spans)) == Some(Seq::<SpanKind>::empty()),
    decreases spans.len(),
{
    if spans.len() == 0 {
        assert(kinds(spans) =~= Seq::<SpanKind>::empty());
    } else {
        let rest = spans.drop_last();
        assert(closing(spans)[0] == TraceEventView::Exit(spans.last().kind));
        assert(kinds(spans).last() == spans.last().kind);
        assert(kinds(spans).drop_last() =~= kinds(rest));
        assert(closing(spans).drop_first() =~= closing(rest));
        lemma_closing_closes_all(rest);
    }
}

/// Span entry and exit are symmetric. Whatever the request, the
/// identifiers drawn for it and the store's answer, the whole trace of the
/// request closes every span that it opens, once, inner spans before outer
/// ones, and the request waits for the store with exactly the spans of its
/// context open.
pub proof fn lemma_trace_is_balanced(
    routes: Seq<RouteView>,
    request: RequestView,
    request_id: RequestId,
    row_id: Uuid,
    now: Timestamp,
    outcome: Result<(), StoreFailureView>,
)
    ensures
        is_balanced(whole_trace(received(routes, request, request_id, row_id, now), outcome)),
        received(routes, request, request_id, row_id, now) matches ProgressView::Pending(pending)
            ==> open_after(Seq::empty(), pending.trace) == Some(kinds(pending.context.spans)),
{
    let progress = received(routes, request, request_id, row_id, now);
    let none = Seq::<SpanKind>::empty();
    reveal_with_fuel(open_after, 5);
    match progress {
        ProgressView::Done(reply) => {
            let trace = reply.trace;
            if trace.len() == 2 {
                assert(trace.drop_first() =~= seq![trace[1]]);
                assert(trace.drop_first().drop_first() =~= Seq::<TraceEventView>::empty());
                assert(none.push(SpanKind::Http).drop_last() =~= none);
            } else {
                assert(trace.len() == 3);
                assert(trace.drop_first() =~= seq![trace[1], trace[2]]);
                assert(trace.drop_first().drop_first() =~= seq![trace[2]]);
                assert(trace.drop_first().drop_first().drop_first() =~= Seq::<
                    TraceEventView,
                >::empty());
                assert(none.push(SpanKind::Http).drop_last() =~= none);
            }
        },
        ProgressView::Pending(pending) => {
            let trace = pending.trace;
            let spans = pending.context.spans;
            assert(trace.drop_first() =~= seq![trace[1], trace[2]]);
            assert(trace.drop_first().drop_first() =~= seq![trace[2]]);
            assert(trace.drop_first().drop_first().drop_first() =~= Seq::<TraceEventView>::empty());
            assert(none.push(spans[0].kind).push(spans[1].kind).push(spans[2].kind) =~= kinds(
                spans,
            ));
            assert(open_after(none, trace) == Some(kinds(spans)));
            let tail = completed(pending.context, outcome).trace;
            lemma_closing_closes_all(spans);
            match outcome {
                Ok(()) => {},
                Err(failure) => {
                    let first = seq![TraceEventView::Failure(filed_on_write(failure))];
                    assert(first.drop_first() =~= Seq::<TraceEventView>::empty());
                    assert(open_after(kinds(spans), first) == Some(kinds(spans)));
                    lemma_open_after_concat(kinds(spans), first, closing(spans));
                },
            }
            assert(open_after(kinds(spans), tail) == Some(none));
            lemma_open_after_concat(none, trace, tail);
        },
    }
}

/// Every response, success or failure, carries the correlation
/// identifier in its `x-request-id` header, and the value is the one that
/// the root span of the request was opened with.
pub proof fn lemma_correlation_id_is_stable(
    routes: Seq<RouteView>,
    request: RequestView,
    request_id: RequestId,
    row_id: Uuid,
    now: Timestamp,
    outcome: Result<(), StoreFailureView>,
)
    ensures
        ({
            let progress = received(routes, request, request_id, row_id, now);
            let response = final_response(progress, outcome);
            let trace = whole_trace(progress, outcome);
            &&& response.headers == seq![(REQUEST_ID_HEADER@, request_id.text())]
            &&& trace.len() > 0
            &&& trace[0] == TraceEventView::Enter(
                http_span(request.method, request.uri, request_id),
            )
            &&& http_span(request.method, request.uri, request_id).fields[2] == (
                "request_id"@,
                request_id.text(),
            )
        }),
{
}

/// The liveness probe is answered with 200 and an empty body at once,
/// whatever else the request holds; the store is not asked, so it does not
/// matter whether it can be reached.
pub proof fn lemma_health_check_always_succeeds(
    request: RequestView,
    request_id: RequestId,
    row_id: Uuid,
    now: Timestamp,
)
    requires
        request.method == MethodView::Get,
        request.path == "/health_check"@,
    ensures
        received(standard_routes(), request, request_id, row_id, now) matches ProgressView::Done(
            reply,
        ) && reply.response.status == StatusCode::Success && reply.response.body.len() == 0,
{
    lemma_standard_lookup(request.method, request.path);
}

/// A method and path without a route are answered with 404.
pub proof fn lemma_unmatched_is_not_found(
    request: RequestView,
    request_id: RequestId,
    row_id: Uuid,
    now: Timestamp,
)
    requires
        !(request.method == MethodView::Get && request.path == "/health_check"@),
        !(request.method == MethodView::Post && request.path == "/subscriptions"@),
    ensures
        received(standard_routes(), request, request_id, row_id, now) matches ProgressView::Done(
            reply,
        ) && reply.response.status == StatusCode::NotFound,
{
    lemma_standard_lookup(request.method, request.path);
}

/// A submission that announces a form and holds each of the two fields
/// once waits for the store with exactly one row, which has the submitted
/// email and name and the identifier drawn for it; and once the store has
/// taken the row, the answer is 200.
pub proof fn lemma_valid_submission_is_stored(
    request: RequestView,
    form: FormDataView,
    request_id: RequestId,
    row_id: Uuid,
    now: Timestamp,
)
    requires
        request.method == MethodView::Post,
        request.path == "/subscriptions"@,
        decoded_body(request.content_type, request.body) == Ok::<FormDataView, ValidationError>(
            form,
        ),
    ensures
        received(standard_routes(), request, request_id, row_id, now) matches ProgressView::Pending(
            pending,
        ) && pending.row == (SubscriberView {
            id: row_id,
            email: form.email,
            name: form.name,
            subscribed_at: now,
        }) && completed(pending.context, Ok(())).response.status == StatusCode::Success,
{
    lemma_standard_lookup(request.method, request.path);
}

/// A submission without an email, without a name or with an empty body
/// is answered with 400 at once, and no row is handed to the store.
pub proof fn lemma_incomplete_submission_is_rejected(
    request: RequestView,
    request_id: RequestId,
    row_id: Uuid,
    now: Timestamp,
)
    requires
        request.method == MethodView::Post,
        request.path == "/subscriptions"@,
        !is_present(parsed(request.body), Field::Email) || !is_present(
            parsed(request.body),
            Field::Name,
        ) || request.body.len() == 0,
    ensures
        received(standard_routes(), request, request_id, row_id, now) matches ProgressView::Done(
            reply,
        ) && reply.response.status == StatusCode::BadRequest,
{
    lemma_standard_lookup(request.method, request.path);
    if request.body.len() == 0 {
        assert(parsed(request.body).len() == 0);
        assert(!is_present(parsed(request.body), Field::Email));
    }
}

/// Where the store fails, for whatever reason, the waiting request is
/// answered with 500 and an empty body, and the failure stands in the trace
/// with the driver's full detail, filed as the insert files it: under
/// `DatabaseError` or `Internal`, never under `NotFound`.
pub proof fn lemma_store_failure_is_logged_not_sent(
    context: RequestContextView,
    failure: StoreFailureView,
)
    ensures
        ({
            let reply = completed(context, Err(failure));
            &&& reply.response.status == StatusCode::InternalServerError
            &&& reply.response.body.len() == 0
            &&& reply.response.headers == seq![(REQUEST_ID_HEADER@, context.correlation_id.text())]
            &&& reply.trace[0] == TraceEventView::Failure(filed_on_write(failure))
            &&& filed_on_write(failure).detail() == failure.detail
            &&& !(filed_on_write(failure) is NotFound)
        }),
{
}

/// Rows do not get lost or mixed up, in whatever order the store takes
/// them. Take any number of submissions that wait for the store, with row
/// identifiers of which no two are the same, and let `order` say whose row
/// the store takes first, second and so on. Then each submission's row is in
/// the table, and no two rows of the table have the same identifier.
pub proof fn lemma_rows_survive_any_order(
    requests: Seq<RequestView>,
    request_ids: Seq<RequestId>,
    row_ids: Seq<Uuid>,
    times: Seq<Timestamp>,
    order: Seq<int>,
)
    requires
        request_ids.len() == requests.len(),
        row_ids.len() == requests.len(),
        times.len() == requests.len(),
        is_order(order, requests.len()),
        forall|i: int|
            0 <= i < requests.len() ==> waits(
                #[trigger] requests[i],
                request_ids[i],
                row_ids[i],
                times[i],
            ),
        forall|i: int, j: int| 0 <= i < j < row_ids.len() ==> row_ids[i] != row_ids[j],
    ensures
        ({
            let table = table_in_order(requests, request_ids, row_ids, times, order);
            &&& table.len() == requests.len()
            &&& forall|i: int|
                0 <= i < requests.len() ==> #[trigger] holds(
                    table,
                    row_of(requests[i], request_ids[i], row_ids[i], times[i]),
                )
            &&& forall|k: int, l: int|
                #![trigger table[k], table[l]]
                0 <= k < l < table.len() ==> table[k].id != table[l].id
        }),
{
    let table = table_in_order(requests, request_ids, row_ids, times, order);
    assert forall|i: int| 0 <= i < requests.len() implies #[trigger] holds(
        table,
        row_of(requests[i], request_ids[i], row_ids[i], times[i]),
    ) by {
        assert(takes(order, i));
        let k = choose|k: int| 0 <= k < order.len() && #[trigger] order[k] == i;
        assert(table[k] == row_of(requests[i], request_ids[i], row_ids[i], times[i]));
    }
    assert forall|k: int, l: int|
        #![trigger table[k], table[l]]
        0 <= k < l < table.len() implies table[k].id != table[l].id by {
        let i = order[k];
        let j = order[l];
        assert(waits(requests[i], request_ids[i], row_ids[i], times[i]));
        assert(waits(requests[j], request_ids[j], row_ids[j], times[j]));
        assert(table[k].id == row_ids[i]);
        assert(table[l].id == row_ids[j]);
        if i < j {
            assert(row_ids[i] != row_ids[j]);
        } else {
            assert(row_ids[j] != row_ids[i]);
        }
    }
}

/// The request is a submission that waits for the store.
pub open spec fn waits(
    request: RequestView,
    request_id: RequestId,
    row_id: Uuid,
    now: Timestamp,
) -> bool {
    received(standard_routes(), request, request_id, row_id, now) is Pending
}

/// The table holds the row.
pub open spec fn holds(table: Seq<SubscriberView>, row: SubscriberView) -> bool {
    exists|k: int| 0 <= k < table.len() && #[trigger] table[k] == row
}

/// The store takes the row of submission `i` at some point.
pub open spec fn takes(order: Seq<int>, i: int) -> bool {
    exists|k: int| 0 <= k < order.len() && #[trigger] order[k] == i
}

/// `order` arranges the submissions `0` to `n - 1`: each of them comes in
/// it, and none twice.
pub open spec fn is_order(order: Seq<int>, n: nat) -> bool {
    &&& order.len() == n
    &&& forall|k: int| 0 <= k < order.len() ==> 0 <= #[trigger] order[k] < n
    &&& forall|i: int| 0 <= i < n ==> #[trigger] takes(order, i)
    &&& forall|k: int, l: int| 0 <= k < l < order.len() ==> order[k] != order[l]
}

/// The row that a waiting submission hands to the store.
pub open spec fn row_of(
    request: RequestView,
    request_id: RequestId,
    row_id: Uuid,
    now: Timestamp,
) -> SubscriberView {
    match received(standard_routes(), request, request_id, row_id, now) {
        ProgressView::Pending(pending) => pending.row,
        ProgressView::Done(_) => arbitrary(),
    }
}

/// The table that an empty store holds after it has taken the rows of the
/// given submissions in the given order.
pub open spec fn table_in_order(
    requests: Seq<RequestView>,
    request_ids: Seq<RequestId>,
    row_ids: Seq<Uuid>,
    times: Seq<Timestamp>,
    order: Seq<int>,
) -> Seq<SubscriberView> {
    Seq::new(
        order.len(),
        |k: int|
            {
                let i = order[k];
                row_of(requests[i], request_ids[i], row_ids[i], times[i])
            },
    )
}

} // verus!
