//! The event model of the rendering pipeline.
//!
//! A Markdown document is parsed by the external `pulldown_cmark` parser into
//! an ordered sequence of events. The pipeline's own transforms only inspect
//! fenced-code, text, math and raw-HTML events; every other event is carried
//! through opaquely and handed back to the external HTML serializer unchanged.

use vstd::prelude::*;

use pulldown_cmark::{CodeBlockKind, Event, Options, Parser, Tag, TagEnd};

verus! {

/// Declares the external parser's event type, so that unclassified events
/// can be carried through the pipeline opaquely.
#[verifier::external_type_specification]
#[verifier::external_body]
pub struct ExEvent<'a>(pulldown_cmark::Event<'a>);

/// One event of the parsed Markdown stream, as the engine's transforms see it.
///
/// `Other` carries an event of a kind that no transform inspects; it is kept
/// verbatim so that serialization reproduces it exactly.
pub enum MdEvent {
    /// Start of a fenced code block with the given (possibly empty) language tag.
    FenceStart { lang: String },
    /// End of a code block, fenced or indented.
    CodeEnd,
    /// A text node.
    Text { text: String },
    /// An inline math environment (`$...$`).
    InlineMath { math: String },
    /// A display math environment (`$$...$$`).
    DisplayMath { math: String },
    /// A raw HTML node.
    Html { html: String },
    /// Any other event, carried through unchanged.
    Other { ev: pulldown_cmark::Event<'static> },
}

/// The mathematical value of one event: payloads as character sequences.
pub enum MdEventView {
    FenceStart(Seq<char>),
    CodeEnd,
    Text(Seq<char>),
    InlineMath(Seq<char>),
    DisplayMath(Seq<char>),
    Html(Seq<char>),
    Other(pulldown_cmark::Event<'static>),
}

impl View for MdEvent {
    type V = MdEventView;

    open spec fn view(&self) -> MdEventView {
        match self {
            MdEvent::FenceStart { lang } => MdEventView::FenceStart(lang@),
            MdEvent::CodeEnd => MdEventView::CodeEnd,
            MdEvent::Text { text } => MdEventView::Text(text@),
            MdEvent::InlineMath { math } => MdEventView::InlineMath(math@),
            MdEvent::DisplayMath { math } => MdEventView::DisplayMath(math@),
            MdEvent::Html { html } => MdEventView::Html(html@),
            MdEvent::Other { ev } => MdEventView::Other(*ev),
        }
    }
}

/// The values of a whole event vector.
pub open spec fn event_views(s: Seq<MdEvent>) -> Seq<MdEventView> {
    s.map_values(|e: MdEvent| e@)
}

/// The event stream that the external parser produces for the given text,
/// with GitHub-flavored extensions and math enabled. The parse is a pure
/// function of the text.
pub uninterp spec fn md_events_of(text: Seq<char>) -> Seq<MdEventView>;

/// The HTML that the external serializer produces for the given event stream.
/// Serialization is a pure function of the events.
pub uninterp spec fn html_of(events: Seq<MdEventView>) -> Seq<char>;

/// Relies on `pulldown_cmark::Parser::new_ext` with `Options::all()`: parses
/// the text into an event stream, a pure function of the text. Events that the
/// engine's transforms inspect are classified one for one; the rest are kept
/// verbatim.
#[verifier::external_body]
pub(crate) fn parse_markdown(text: &str) -> (r: Vec<MdEvent>)
    ensures
        event_views(r@) == md_events_of(text@),
{
    Parser::new_ext(text, Options::all()).map(|e| match e {
        Event::Start(Tag::CodeBlock(CodeBlockKind::Fenced(lang))) => MdEvent::FenceStart {
            lang: lang.into_string(),
        },
        Event::End(TagEnd::CodeBlock) => MdEvent::CodeEnd,
        Event::Text(t) => MdEvent::Text { text: t.into_string() },
        Event::InlineMath(t) => MdEvent::InlineMath { math: t.into_string() },
        Event::DisplayMath(t) => MdEvent::DisplayMath { math: t.into_string() },
        Event::Html(h) => MdEvent::Html { html: h.into_string() },
        other => MdEvent::Other { ev: other.into_static() },
    }).collect()
}

/// Relies on `pulldown_cmark::html::push_html`: serializes the event stream to
/// HTML, a pure function of the events. Each engine event is handed back as
/// the parser event it stands for.
#[verifier::external_body]
pub(crate) fn events_to_html(events: Vec<MdEvent>) -> (r: String)
    ensures
        r@ == html_of(event_views(events@)),
{
    let iter = events.into_iter().map(|e| match e {
        MdEvent::FenceStart { lang } => Event::Start(
            Tag::CodeBlock(CodeBlockKind::Fenced(lang.into())),
        ),
        MdEvent::CodeEnd => Event::End(TagEnd::CodeBlock),
        MdEvent::Text { text } => Event::Text(text.into()),
        MdEvent::InlineMath { math } => Event::InlineMath(math.into()),
        MdEvent::DisplayMath { math } => Event::DisplayMath(math.into()),
        MdEvent::Html { html } => Event::Html(html.into()),
        MdEvent::Other { ev } => ev,
    });
    let mut out = String::new();
    pulldown_cmark::html::push_html(&mut out, iter);
    out
}

} // verus!
