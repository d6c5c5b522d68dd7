//! The trace of one request: the spans that are opened and closed while it is
//! handled, and the events logged inside them. The service produces the trace
//! as plain values; a sink renders one event when a span opens and one when
//! it closes.

use crate::error::{Error, ErrorView};
use crate::http::{Method, MethodView};
use crate::id::RequestId;
use vstd::prelude::*;

verus! {

/// The spans of this service, outermost first.
#[derive(Clone, Copy, Debug, PartialEq, Eq, Structural)]
pub enum SpanKind {
    /// The root span of a request.
    Http,
    /// The subscription handler.
    AddSubscriber,
    /// The insert into the store.
    SaveSubscriber,
}

impl SpanKind {
    /// The name under which the span is logged.
    pub open spec fn name(self) -> Seq<char> {
        match self {
            SpanKind::Http => "HTTP"@,
            SpanKind::AddSubscriber => "Adding a new subscriber"@,
            SpanKind::SaveSubscriber => "Saving new subscriber details in the database"@,
        }
    }

    pub fn as_str(&self) -> (name: &'static str)
        ensures
            name@ == self.name(),
    {
        match self {
            SpanKind::Http => "HTTP",
            SpanKind::AddSubscriber => "Adding a new subscriber",
            SpanKind::SaveSubscriber => "Saving new subscriber details in the database",
        }
    }
}

/// A named logging scope with its structured fields.
#[derive(Clone, Debug, PartialEq, Eq)]
pub struct Span {
    pub kind: SpanKind,
    /// Field names and values, in the order in which they were attached.
    pub fields: Vec<(String, String)>,
}

/// What a `Span` holds, as mathematical values.
pub struct SpanView {
    pub kind: SpanKind,
    pub fields: Seq<(Seq<char>, Seq<char>)>,
}

impl View for Span {
    type V = SpanView;

    open spec fn view(&self) -> SpanView {
        SpanView { kind: self.kind, fields: self.fields.deep_view() }
    }
}

impl DeepView for Span {
    type V = SpanView;

    open spec fn deep_view(&self) -> SpanView {
        self@
    }
}

/// The root span of a request: its method, its target and its correlation
/// identifier.
pub open spec fn http_span(method: MethodView, uri: Seq<char>, request_id: RequestId) -> SpanView {
    SpanView {
        kind: SpanKind::Http,
        fields: seq![
            ("http.method"@, method.name()),
            ("http.url"@, uri),
            ("request_id"@, request_id.text()),
        ],
    }
}

/// The span of the subscription handler: who is subscribing.
pub open spec fn add_subscriber_span(email: Seq<char>, name: Seq<char>) -> SpanView {
    SpanView {
        kind: SpanKind::AddSubscriber,
        fields: seq![("subscriber_email"@, email), ("subscriber_name"@, name)],
    }
}

/// The span around the insert; it has no fields of its own.
pub open spec fn save_subscriber_span() -> SpanView {
    SpanView { kind: SpanKind::SaveSubscriber, fields: seq![] }
}

impl Span {
    pub fn http(method: &Method, uri: &String, request_id: &RequestId) -> (span: Span)
        ensures
            span@ == http_span(method@, uri@, *request_id),
    {
        let mut fields: Vec<(String, String)> = Vec::new();
        fields.push(("http.method".to_owned(), method.as_str().to_owned()));
        fields.push(("http.url".to_owned(), uri.clone()));
        fields.push(("request_id".to_owned(), request_id.header_value()));
        assert(fields.deep_view() =~= http_span(method@, uri@, *request_id).fields);
        Span { kind: SpanKind::Http, fields }
    }

    pub fn add_subscriber(email: &String, name: &String) -> (span: Span)
        ensures
            span@ == add_subscriber_span(email@, name@),
    {
        let mut fields: Vec<(String, String)> = Vec::new();
        fields.push(("subscriber_email".to_owned(), email.clone()));
        fields.push(("subscriber_name".to_owned(), name.clone()));
        assert(fields.deep_view() =~= add_subscriber_span(email@, name@).fields);
        Span { kind: SpanKind::AddSubscriber, fields }
    }

    pub fn save_subscriber() -> (span: Span)
        ensures
            span@ == save_subscriber_span(),
    {
        let fields: Vec<(String, String)> = Vec::new();
        assert(fields.deep_view() =~= save_subscriber_span().fields);
        Span { kind: SpanKind::SaveSubscriber, fields }
    }
}

/// One entry of a trace.
#[derive(Clone, Debug, PartialEq, Eq)]
pub enum TraceEvent {
    /// A span opens.
    Enter(Span),
    /// The innermost open span closes.
    Exit(SpanKind),
    /// A message at the info level, inside the innermost open span.
    Info(String),
    /// A failure with its full detail, at the error level, inside the
    /// innermost open span.
    Failure(Error),
}

/// What a `TraceEvent` holds, as mathematical values.
pub enum TraceEventView {
    Enter(SpanView),
    Exit(SpanKind),
    Info(Seq<char>),
    Failure(ErrorView),
}

impl View for TraceEvent {
    type V = TraceEventView;

    open spec fn view(&self) -> TraceEventView {
        match self {
            TraceEvent::Enter(span) => TraceEventView::Enter(span@),
            TraceEvent::Exit(kind) => TraceEventView::Exit(*kind),
            TraceEvent::Info(text) => TraceEventView::Info(text@),
            TraceEvent::Failure(err) => TraceEventView::Failure(err@),
        }
    }
}

impl DeepView for TraceEvent {
    type V = TraceEventView;

    open spec fn deep_view(&self) -> TraceEventView {
        self@
    }
}

/// The spans that are open after `trace`, outermost first, when those in
/// `open` were open before it. `None` where the trace closes a span that is
/// not the innermost open one.
pub open spec fn open_after(open: Seq<SpanKind>, trace: Seq<TraceEventView>) -> Option<
    Seq<SpanKind>,
>
    decreases trace.len(),
{
    if trace.len() == 0 {
        Some(open)
    } else {
        match trace[0] {
            TraceEventView::Enter(span) => open_after(open.push(span.kind), trace.drop_first()),
            TraceEventView::Exit(kind) => if open.len() > 0 && open.last() == kind {
                open_after(open.drop_last(), trace.drop_first())
            } else {
                None
            },
            _ => open_after(open, trace.drop_first()),
        }
    }
}

/// Every span that the trace opens it also closes, once, and inner spans
/// close before outer ones.
pub open spec fn is_balanced(trace: Seq<TraceEventView>) -> bool {
    open_after(Seq::empty(), trace) == Some(Seq::<SpanKind>::empty())
}

/// Two traces that follow each other leave open what the second leaves open
/// after the first.
pub proof fn lemma_open_after_concat(
    open: Seq<SpanKind>,
    first: Seq<TraceEventView>,
    second: Seq<TraceEventView>,
)
    ensures
        open_after(open, first + second) == match open_after(open, first) {
            Some(between) => open_after(between, second),
            None => None,
        },
    decreases first.len(),
{
    if first.len() == 0 {
        assert(first + second =~= second);
    } else {
        assert((first + second)[0] == first[0]);
        assert((first + second).drop_first() =~= first.drop_first() + second);
        match first[0] {
            TraceEventView::Enter(span) => {
                lemma_open_after_concat(open.push(span.kind), first.drop_first(), second);
            },
            TraceEventView::Exit(kind) => {
                if open.len() > 0 && open.last() == kind {
                    lemma_open_after_concat(open.drop_last(), first.drop_first(), second);
                }
            },
            _ => {
                lemma_open_after_concat(open, first.drop_first(), second);
            },
        }
    }
}

} // verus!
