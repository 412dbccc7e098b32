//! Streaming transforms over the parsed event sequence: the fenced-block
//! extractor and the math expression transform.

use vstd::prelude::*;

use crate::escape::{escape_html, spec_escape_html};
use crate::events::{event_views, MdEvent, MdEventView};
use crate::text::{chars_of, eq_chars, extend_chars, extend_str, string_of};

verus! {

/// The single raw-HTML replacement for a fenced block of the target language:
/// a `pre` element carrying both the HTML-escaped content (in an attribute,
/// for safe re-reading) and the unescaped original (as the visible body).
pub open spec fn spec_fence_html(target: Seq<char>, body: Seq<char>) -> Seq<char> {
    "<pre class=\"preprocessed-"@ + target + "\" data-original-content=\""@ + spec_escape_html(
        body,
    ) + "\">"@ + body + "</pre>"@
}

/// Builds the replacement `pre` element for one fenced block.
pub fn fence_html(target: &str, body: &Vec<char>) -> (r: Vec<char>)
    ensures
        r@ == spec_fence_html(target@, body@),
{
    let mut out: Vec<char> = Vec::new();
    extend_str(&mut out, "<pre class=\"preprocessed-");
    extend_str(&mut out, target);
    extend_str(&mut out, "\" data-original-content=\"");
    let escaped = escape_html(body);
    extend_chars(&mut out, &escaped);
    extend_str(&mut out, "\">");
    extend_chars(&mut out, body);
    extend_str(&mut out, "</pre>");
    proof {
        assert(out@ =~= spec_fence_html(target@, body@));
    }
    out
}

/// The buffering state of the fenced-block extractor: `None` outside a
/// matching block, `Some(buffer)` while inside one.
pub type FenceState = Option<Seq<char>>;

/// One step of the fenced-block state machine: the next state and the events
/// emitted for `ev`.
///
/// A start of a fenced block in the target language opens (or reopens) the
/// buffer; while buffering, text is accumulated and the block's end emits the
/// single replacement event; every other event passes through unchanged.
pub open spec fn fence_step(st: FenceState, ev: MdEventView, target: Seq<char>) -> (
    FenceState,
    Seq<MdEventView>,
) {
    match ev {
        MdEventView::FenceStart(lang) => if lang == target {
            (Some(Seq::<char>::empty()), Seq::<MdEventView>::empty())
        } else {
            (st, seq![ev])
        },
        MdEventView::CodeEnd => match st {
            Some(buf) => (None, seq![MdEventView::Html(spec_fence_html(target, buf))]),
            None => (st, seq![ev]),
        },
        MdEventView::Text(t) => match st {
            Some(buf) => (Some(buf + t), Seq::<MdEventView>::empty()),
            None => (st, seq![ev]),
        },
        _ => (st, seq![ev]),
    }
}

/// Runs the fenced-block state machine over a whole event sequence. A block
/// still open at the end of input is dropped.
pub open spec fn fence_run(st: FenceState, evs: Seq<MdEventView>, target: Seq<char>) -> Seq<
    MdEventView,
>
    decreases evs.len(),
{
    if evs.len() == 0 {
        Seq::<MdEventView>::empty()
    } else {
        let (st2, out) = fence_step(st, evs[0], target);
        out + fence_run(st2, evs.skip(1), target)
    }
}

/// The fenced-block extraction of a whole event sequence, started outside any
/// block.
pub open spec fn spec_extract_fenced(evs: Seq<MdEventView>, target: Seq<char>) -> Seq<MdEventView> {
    fence_run(None, evs, target)
}

/// Replaces every fenced code block tagged with the target language by one
/// raw-HTML event, exactly as `spec_extract_fenced` says.
pub fn process_code_blocks(events: Vec<MdEvent>, target_lang: &str) -> (r: Vec<MdEvent>)
    ensures
        event_views(r@) == spec_extract_fenced(event_views(events@), target_lang@),
{
    let ghost orig: Seq<MdEventView> = event_views(events@);
    let target: Vec<char> = chars_of(target_lang);
    let mut input = events;
    let mut out: Vec<MdEvent> = Vec::new();
    let mut in_block = false;
    let mut buf: Vec<char> = Vec::new();
    while input.len() > 0
        invariant
            target@ == target_lang@,
            event_views(out@) + fence_run(
                if in_block {
                    Some(buf@)
                } else {
                    None
                },
                event_views(input@),
                target_lang@,
            ) == fence_run(None, orig, target_lang@),
        decreases input@.len(),
    {
        let ghost pre: Seq<MdEventView> = event_views(input@);
        let ghost st: FenceState = if in_block {
            Some(buf@)
        } else {
            None
        };
        let ghost lhs_old = event_views(out@) + fence_run(st, pre, target_lang@);
        let ghost input_old = input@;
        let ev = input.remove(0);
        proof {
            assert(input@ =~= input_old.skip(1));
            assert(pre[0] == ev@);
            assert(event_views(input@) =~= pre.skip(1));
            assert(fence_run(st, pre, target_lang@) == fence_step(st, pre[0], target_lang@).1
                + fence_run(fence_step(st, pre[0], target_lang@).0, pre.skip(1), target_lang@));
        }
        match ev {
            MdEvent::FenceStart { lang } => {
                let lang_chars = chars_of(lang.as_str());
                if eq_chars(&lang_chars, &target) {
                    in_block = true;
                    buf = Vec::new();
                    proof {
                        assert(fence_step(st, pre[0], target_lang@).0 == Some(buf@));
                        assert(event_views(out@) + fence_run(
                            Some(buf@),
                            pre.skip(1),
                            target_lang@,
                        ) =~= lhs_old);
                    }
                } else {
                    let kept = MdEvent::FenceStart { lang };
                    proof {
                        assert(kept@ == pre[0]);
                    }
                    let ghost out_old = out@;
                    out.push(kept);
                    proof {
                        assert(event_views(out@) =~= event_views(out_old) + seq![pre[0]]);
                        assert(event_views(out@) + fence_run(st, pre.skip(1), target_lang@)
                            =~= lhs_old);
                    }
                }
            },
            MdEvent::CodeEnd => {
                if in_block {
                    let html_chars = fence_html(target_lang, &buf);
                    let html = string_of(&html_chars);
                    let kept = MdEvent::Html { html };
                    proof {
                        assert(kept@ == MdEventView::Html(spec_fence_html(target_lang@, buf@)));
                    }
                    let ghost out_old = out@;
                    out.push(kept);
                    in_block = false;
                    proof {
                        assert(event_views(out@) =~= event_views(out_old) + seq![kept@]);
                        assert(event_views(out@) + fence_run(None, pre.skip(1), target_lang@)
                            =~= lhs_old);
                    }
                } else {
                    let ghost out_old = out@;
                    out.push(MdEvent::CodeEnd);
                    proof {
                        assert(event_views(out@) =~= event_views(out_old) + seq![pre[0]]);
                        assert(event_views(out@) + fence_run(None, pre.skip(1), target_lang@)
                            =~= lhs_old);
                    }
                }
            },
            MdEvent::Text { text } => {
                if in_block {
                    let ghost buf_old = buf@;
                    let text_chars = chars_of(text.as_str());
                    extend_chars(&mut buf, &text_chars);
                    proof {
                        assert(fence_step(st, pre[0], target_lang@).0 == Some(buf@));
                        assert(event_views(out@) + fence_run(
                            Some(buf@),
                            pre.skip(1),
                            target_lang@,
                        ) =~= lhs_old);
                    }
                } else {
                    let kept = MdEvent::Text { text };
                    proof {
                        assert(kept@ == pre[0]);
                    }
                    let ghost out_old = out@;
                    out.push(kept);
                    proof {
                        assert(event_views(out@) =~= event_views(out_old) + seq![pre[0]]);
                        assert(event_views(out@) + fence_run(None, pre.skip(1), target_lang@)
                            =~= lhs_old);
                    }
                }
            },
            other => {
                let ghost out_old = out@;
                out.push(other);
                proof {
                    assert(fence_step(st, pre[0], target_lang@) == (st, seq![pre[0]]));
                    assert(event_views(out@) =~= event_views(out_old) + seq![pre[0]]);
                    assert(event_views(out@) + fence_run(st, pre.skip(1), target_lang@)
                        =~= lhs_old);
                }
            },
        }
    }
    proof {
        assert(event_views(input@).len() == 0);
        assert(fence_run(
            if in_block {
                Some(buf@)
            } else {
                None
            },
            event_views(input@),
            target_lang@,
        ) =~= Seq::<MdEventView>::empty());
        assert(event_views(out@) =~= spec_extract_fenced(orig, target_lang@));
    }
    out
}

/// The text-chunk events of the given chunks, in order.
pub open spec fn texts_of(chunks: Seq<Seq<char>>) -> Seq<MdEventView> {
    chunks.map_values(|c: Seq<char>| MdEventView::Text(c))
}

/// The concatenation of the given text chunks, in order.
pub open spec fn concat_chunks(chunks: Seq<Seq<char>>) -> Seq<char>
    decreases chunks.len(),
{
    if chunks.len() == 0 {
        Seq::<char>::empty()
    } else {
        chunks[0] + concat_chunks(chunks.skip(1))
    }
}

/// Law: an event stream holding no start of a fenced block in the target
/// language passes through the extractor unchanged, every event in its
/// original place.
pub proof fn lemma_extract_fenced_identity(evs: Seq<MdEventView>, target: Seq<char>)
    requires
        forall|i: int| 0 <= i < evs.len() ==> evs[i] != MdEventView::FenceStart(target),
    ensures
        spec_extract_fenced(evs, target) == evs,
    decreases evs.len(),
{
    if evs.len() == 0 {
        assert(spec_extract_fenced(evs, target) =~= evs);
    } else {
        assert(fence_step(None, evs[0], target) == (
            None::<Seq<char>>,
            seq![evs[0]],
        )) by {
            match evs[0] {
                MdEventView::FenceStart(lang) => {
                    assert(lang != target) by {
                        assert(evs[0] != MdEventView::FenceStart(target));
                    }
                },
                _ => {},
            }
        }
        assert(forall|i: int|
            0 <= i < evs.skip(1).len() ==> evs.skip(1)[i] != MdEventView::FenceStart(target)) by {
            assert(forall|i: int| 0 <= i < evs.skip(1).len() ==> evs.skip(1)[i] == evs[i + 1]);
        }
        lemma_extract_fenced_identity(evs.skip(1), target);
        assert(seq![evs[0]] + evs.skip(1) =~= evs);
    }
}

/// While buffering, a run of text chunks followed by the block's end yields
/// exactly one raw-HTML event wrapping the buffer extended by the chunks.
proof fn lemma_fence_buffering(buf: Seq<char>, chunks: Seq<Seq<char>>, target: Seq<char>)
    ensures
        fence_run(Some(buf), texts_of(chunks) + seq![MdEventView::CodeEnd], target) == seq![
            MdEventView::Html(spec_fence_html(target, buf + concat_chunks(chunks))),
        ],
    decreases chunks.len(),
{
    let evs = texts_of(chunks) + seq![MdEventView::CodeEnd];
    if chunks.len() == 0 {
        assert(evs =~= seq![MdEventView::CodeEnd]);
        assert(evs[0] == MdEventView::CodeEnd);
        assert(evs.skip(1) =~= Seq::<MdEventView>::empty());
        assert(fence_run(None, evs.skip(1), target) =~= Seq::<MdEventView>::empty());
        assert(buf + concat_chunks(chunks) =~= buf);
        assert(fence_run(Some(buf), evs, target) =~= seq![
            MdEventView::Html(spec_fence_html(target, buf)),
        ]);
    } else {
        assert(evs[0] == MdEventView::Text(chunks[0]));
        assert(fence_step(Some(buf), evs[0], target) == (
            Some(buf + chunks[0]),
            Seq::<MdEventView>::empty(),
        ));
        assert(evs.skip(1) =~= texts_of(chunks.skip(1)) + seq![MdEventView::CodeEnd]) by {
            assert(forall|i: int|
                0 <= i < chunks.skip(1).len() ==> texts_of(chunks.skip(1))[i] == MdEventView::Text(
                    chunks[i + 1],
                ));
        }
        lemma_fence_buffering(buf + chunks[0], chunks.skip(1), target);
        assert((buf + chunks[0]) + concat_chunks(chunks.skip(1)) =~= buf + concat_chunks(chunks));
        assert(fence_run(Some(buf), evs, target) =~= seq![
            MdEventView::Html(spec_fence_html(target, buf + concat_chunks(chunks))),
        ]);
    }
}

/// Law: one fenced block of the target language, holding the given text
/// chunks, is extracted into exactly one raw-HTML event; its visible body is
/// the chunks' concatenation, byte for byte, and its attribute is the
/// HTML-escaped form of that same concatenation.
pub proof fn lemma_fenced_block_single(chunks: Seq<Seq<char>>, target: Seq<char>)
    ensures
        spec_extract_fenced(
            seq![MdEventView::FenceStart(target)] + texts_of(chunks) + seq![MdEventView::CodeEnd],
            target,
        ) == seq![MdEventView::Html(spec_fence_html(target, concat_chunks(chunks)))],
{
    let evs = seq![MdEventView::FenceStart(target)] + texts_of(chunks) + seq![
        MdEventView::CodeEnd,
    ];
    assert(evs[0] == MdEventView::FenceStart(target));
    assert(fence_step(None, evs[0], target) == (
        Some(Seq::<char>::empty()),
        Seq::<MdEventView>::empty(),
    ));
    assert(evs.skip(1) =~= texts_of(chunks) + seq![MdEventView::CodeEnd]);
    lemma_fence_buffering(Seq::<char>::empty(), chunks, target);
    assert(Seq::<char>::empty() + concat_chunks(chunks) =~= concat_chunks(chunks));
    assert(spec_extract_fenced(evs, target) =~= seq![
        MdEventView::Html(spec_fence_html(target, concat_chunks(chunks))),
    ]);
}

/// The raw-HTML replacement for one inline math expression.
pub open spec fn spec_math_inline_html(m: Seq<char>) -> Seq<char> {
    "<span class=\"preprocessed-math-inline\" data-original-content=\""@ + spec_escape_html(m)
        + "\">"@ + m + "</span>"@
}

/// The raw-HTML replacement for one display math expression.
pub open spec fn spec_math_display_html(m: Seq<char>) -> Seq<char> {
    "<div class=\"preprocessed-math-display\" data-original-content=\""@ + spec_escape_html(m)
        + "\">"@ + m + "</div>"@
}

/// Builds the `span` element replacing one inline math expression.
pub fn math_inline_html(m: &Vec<char>) -> (r: Vec<char>)
    ensures
        r@ == spec_math_inline_html(m@),
{
    let mut out: Vec<char> = Vec::new();
    extend_str(&mut out, "<span class=\"preprocessed-math-inline\" data-original-content=\"");
    let escaped = escape_html(m);
    extend_chars(&mut out, &escaped);
    extend_str(&mut out, "\">");
    extend_chars(&mut out, m);
    extend_str(&mut out, "</span>");
    proof {
        assert(out@ =~= spec_math_inline_html(m@));
    }
    out
}

/// Builds the `div` element replacing one display math expression.
pub fn math_display_html(m: &Vec<char>) -> (r: Vec<char>)
    ensures
        r@ == spec_math_display_html(m@),
{
    let mut out: Vec<char> = Vec::new();
    extend_str(&mut out, "<div class=\"preprocessed-math-display\" data-original-content=\"");
    let escaped = escape_html(m);
    extend_chars(&mut out, &escaped);
    extend_str(&mut out, "\">");
    extend_chars(&mut out, m);
    extend_str(&mut out, "</div>");
    proof {
        assert(out@ =~= spec_math_display_html(m@));
    }
    out
}

/// The stateless per-event mapping of the math transform: inline math becomes
/// a `span`, display math a `div`, everything else is unchanged.
pub open spec fn math_map(ev: MdEventView) -> MdEventView {
    match ev {
        MdEventView::InlineMath(m) => MdEventView::Html(spec_math_inline_html(m)),
        MdEventView::DisplayMath(m) => MdEventView::Html(spec_math_display_html(m)),
        _ => ev,
    }
}

/// The math transform of a whole event sequence: `math_map` applied to each
/// event, order and count preserved.
pub open spec fn spec_transform_math(evs: Seq<MdEventView>) -> Seq<MdEventView> {
    evs.map_values(|e: MdEventView| math_map(e))
}

/// Converts every math event into its raw-HTML placeholder, exactly as
/// `spec_transform_math` says: a one-to-one, order-preserving mapping.
pub fn process_math_expressions(events: Vec<MdEvent>) -> (r: Vec<MdEvent>)
    ensures
        event_views(r@) == spec_transform_math(event_views(events@)),
{
    let ghost orig: Seq<MdEventView> = event_views(events@);
    let mut input = events;
    let mut out: Vec<MdEvent> = Vec::new();
    while input.len() > 0
        invariant
            event_views(out@) + spec_transform_math(event_views(input@)) == spec_transform_math(
                orig,
            ),
        decreases input@.len(),
    {
        let ghost pre: Seq<MdEventView> = event_views(input@);
        let ghost lhs_old = event_views(out@) + spec_transform_math(pre);
        let ghost input_old = input@;
        let ev = input.remove(0);
        proof {
            assert(input@ =~= input_old.skip(1));
            assert(pre[0] == ev@);
            assert(event_views(input@) =~= pre.skip(1));
            assert(spec_transform_math(pre) =~= seq![math_map(pre[0])] + spec_transform_math(
                pre.skip(1),
            ));
        }
        let kept = match ev {
            MdEvent::InlineMath { math } => {
                let m = chars_of(math.as_str());
                let html = string_of(&math_inline_html(&m));
                MdEvent::Html { html }
            },
            MdEvent::DisplayMath { math } => {
                let m = chars_of(math.as_str());
                let html = string_of(&math_display_html(&m));
                MdEvent::Html { html }
            },
            other => other,
        };
        proof {
            assert(kept@ == math_map(pre[0]));
        }
        let ghost out_old = out@;
        out.push(kept);
        proof {
            assert(event_views(out@) =~= event_views(out_old) + seq![math_map(pre[0])]);
            assert(event_views(out@) + spec_transform_math(pre.skip(1)) =~= lhs_old);
        }
    }
    proof {
        assert(spec_transform_math(event_views(input@)) =~= Seq::<MdEventView>::empty());
        assert(event_views(out@) =~= spec_transform_math(orig));
    }
    out
}

} // verus!
