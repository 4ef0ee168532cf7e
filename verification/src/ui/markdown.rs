//! The description of a pull request as styled lines: the Markdown is parsed
//! by `comrak`, and its nodes, walked in order, become spans and lines.
use vstd::prelude::*;
use crate::util::text::push_str;
use comrak::arena_tree::NodeEdge;
use comrak::nodes::NodeValue;

verus! {

/// A node boundary of the parsed document, as `comrak` walks it: the start
/// of a node (of the kinds the pane styles, `Other` for the rest) or the end
/// of the innermost open one.
#[derive(Debug)]
pub enum MdEvent {
    Text(String),
    Code(String),
    Strong,
    Emph,
    Heading(u8),
    Link,
    Item,
    Paragraph,
    Other,
    Close,
}

/// The mathematical value of an `MdEvent`.
pub enum MdEventView {
    Text(Seq<char>),
    Code(Seq<char>),
    Strong,
    Emph,
    Heading(u8),
    Link,
    Item,
    Paragraph,
    Other,
    Close,
}

impl View for MdEvent {
    type V = MdEventView;

    open spec fn view(&self) -> MdEventView {
        match self {
            MdEvent::Text(t) => MdEventView::Text(t@),
            MdEvent::Code(c) => MdEventView::Code(c@),
            MdEvent::Strong => MdEventView::Strong,
            MdEvent::Emph => MdEventView::Emph,
            MdEvent::Heading(l) => MdEventView::Heading(*l),
            MdEvent::Link => MdEventView::Link,
            MdEvent::Item => MdEventView::Item,
            MdEvent::Paragraph => MdEventView::Paragraph,
            MdEvent::Other => MdEventView::Other,
            MdEvent::Close => MdEventView::Close,
        }
    }
}

/// The styles a span inherits from the nodes around it.
#[derive(Debug, Clone, Copy, PartialEq, Eq, Structural)]
pub struct MdStyle {
    pub bold: bool,
    pub italic: bool,
    pub code: bool,
    pub link: bool,
}

/// A piece of a line: its text, its style, and whether it is the marker of a
/// heading (drawn highlighted, whatever surrounds it).
#[derive(Debug)]
pub struct MdSpan {
    pub text: String,
    pub style: MdStyle,
    pub heading: bool,
}

/// The mathematical value of an `MdSpan`.
pub struct MdSpanView {
    pub text: Seq<char>,
    pub style: MdStyle,
    pub heading: bool,
}

impl View for MdSpan {
    type V = MdSpanView;

    open spec fn view(&self) -> MdSpanView {
        MdSpanView { text: self.text@, style: self.style, heading: self.heading }
    }
}

/// What closing a node ends: a paragraph, a heading, a list item, or an
/// inline node.
#[derive(Debug, Clone, Copy, PartialEq, Eq, Structural)]
pub enum MdBlock {
    Paragraph,
    Heading,
    Item,
    Inline,
}

/// The walk so far: the open nodes (with the style outside each), the
/// current style, the line being built and the finished lines.
pub struct MdState {
    pub stack: Seq<(MdBlock, MdStyle)>,
    pub style: MdStyle,
    pub current: Seq<MdSpanView>,
    pub lines: Seq<Seq<MdSpanView>>,
}

/// The views of events.
pub open spec fn event_views(s: Seq<MdEvent>) -> Seq<MdEventView> {
    s.map_values(|e: MdEvent| e@)
}

/// The views of spans.
pub open spec fn span_views(s: Seq<MdSpan>) -> Seq<MdSpanView> {
    s.map_values(|x: MdSpan| x@)
}

/// The views of lines.
pub open spec fn line_views(v: Seq<Vec<MdSpan>>) -> Seq<Seq<MdSpanView>> {
    v.map_values(|l: Vec<MdSpan>| span_views(l@))
}

/// The style without any emphasis.
pub open spec fn plain() -> MdStyle {
    MdStyle { bold: false, italic: false, code: false, link: false }
}

/// The block a start event opens.
pub open spec fn block_of(e: MdEventView) -> MdBlock {
    match e {
        MdEventView::Paragraph => MdBlock::Paragraph,
        MdEventView::Heading(_) => MdBlock::Heading,
        MdEventView::Item => MdBlock::Item,
        _ => MdBlock::Inline,
    }
}

/// The style of a node's contents: strong text is bold, emphasis italic,
/// headings bold, links link-styled.
pub open spec fn styled(s: MdStyle, e: MdEventView) -> MdStyle {
    match e {
        MdEventView::Strong => MdStyle { bold: true, ..s },
        MdEventView::Emph => MdStyle { italic: true, ..s },
        MdEventView::Heading(_) => MdStyle { bold: true, ..s },
        MdEventView::Link => MdStyle { link: true, ..s },
        _ => s,
    }
}

/// "# " repeated `n` times.
pub open spec fn hashes(n: nat) -> Seq<char>
    decreases n,
{
    if n == 0 { Seq::empty() } else { hashes((n - 1) as nat) + "# "@ }
}

/// The spans a start event adds to the line: text and code in the current
/// style (code marked as such), the heading marker "# " per level, and a
/// bullet for a list item.
pub open spec fn emitted(s: MdStyle, e: MdEventView) -> Seq<MdSpanView> {
    match e {
        MdEventView::Text(t) => seq![MdSpanView { text: t, style: s, heading: false }],
        MdEventView::Code(c) => seq![MdSpanView { text: c, style: MdStyle { code: true, ..s }, heading: false }],
        MdEventView::Heading(l) => seq![MdSpanView { text: hashes(l as nat), style: plain(), heading: true }],
        MdEventView::Item => seq![MdSpanView { text: " • "@, style: plain(), heading: false }],
        _ => Seq::empty(),
    }
}

/// The lines with the current line added when it holds something.
pub open spec fn flushed(lines: Seq<Seq<MdSpanView>>, current: Seq<MdSpanView>) -> Seq<Seq<MdSpanView>> {
    if current.len() > 0 { lines.push(current) } else { lines }
}

/// One event of the walk. A start opens its node: the node's spans are
/// added and its contents take its style. A close ends the innermost node and
/// restores the style outside it; closing a paragraph, heading or item ends
/// the line, and a paragraph or heading that is not directly inside an item
/// is followed by an empty line.
pub open spec fn md_step(st: MdState, e: MdEventView) -> MdState {
    match e {
        MdEventView::Close => if st.stack.len() == 0 {
            st
        } else {
            let blk = st.stack.last().0;
            let saved = st.stack.last().1;
            let stack = st.stack.drop_last();
            let in_item = stack.len() > 0 && stack.last().0 == MdBlock::Item;
            if blk == MdBlock::Inline {
                MdState { stack: stack, style: saved, current: st.current, lines: st.lines }
            } else {
                let lines1 = flushed(st.lines, st.current);
                let lines2 = if blk != MdBlock::Item && !in_item { lines1.push(Seq::empty()) } else { lines1 };
                MdState { stack: stack, style: saved, current: Seq::empty(), lines: lines2 }
            }
        },
        _ => MdState {
            stack: st.stack.push((block_of(e), st.style)),
            style: styled(st.style, e),
            current: st.current + emitted(st.style, e),
            lines: st.lines,
        },
    }
}

/// The walk over the events.
pub open spec fn md_run(evs: Seq<MdEventView>) -> MdState
    decreases evs.len(),
{
    if evs.len() == 0 {
        MdState { stack: Seq::empty(), style: plain(), current: Seq::empty(), lines: Seq::empty() }
    } else {
        md_step(md_run(evs.drop_last()), evs.last())
    }
}

/// The lines of the walk, the last line included when it holds something.
pub open spec fn spec_markdown_lines(evs: Seq<MdEventView>) -> Seq<Seq<MdSpanView>> {
    let st = md_run(evs);
    flushed(st.lines, st.current)
}

/// What `comrak` gives for a text: the node boundaries of its parse with
/// default options, in document order.
pub uninterp spec fn spec_markdown_events(text: Seq<char>) -> Seq<MdEventView>;

/// Calls `comrak::parse_document` with default options and walks the tree
/// with `traverse`, naming each start by the node's kind. Trusted: the events
/// are the named parse of the text; nothing else is stated of them.
#[verifier::external_body]
fn markdown_events(text: &str) -> (r: Vec<MdEvent>)
    ensures
        event_views(r@) == spec_markdown_events(text@),
{
    let arena = comrak::Arena::new();
    let root = comrak::parse_document(&arena, text, &comrak::Options::default());
    root.traverse().map(|edge| match edge {
        NodeEdge::End(_) => MdEvent::Close,
        NodeEdge::Start(n) => match &n.data.borrow().value {
            NodeValue::Text(t) => MdEvent::Text(t.to_string()),
            NodeValue::Code(c) => MdEvent::Code(c.literal.clone()),
            NodeValue::Heading(h) => MdEvent::Heading(h.level),
            NodeValue::Strong => MdEvent::Strong, NodeValue::Emph => MdEvent::Emph,
            NodeValue::Link(_) => MdEvent::Link, NodeValue::Item(_) => MdEvent::Item,
            NodeValue::Paragraph => MdEvent::Paragraph, _ => MdEvent::Other,
        },
    }).collect()
}

/// "# " repeated `n` times.
fn heading_marker(n: u8) -> (r: String)
    ensures
        r@ == hashes(n as nat),
{
    let mut s = String::new();
    let mut i: u8 = 0;
    while i < n
        invariant
            i <= n,
            s@ == hashes(i as nat),
        decreases n - i,
    {
        push_str(&mut s, "# ");
        proof { reveal_strlit("# "); }
        i = i + 1;
    }
    s
}

/// The spans a start event adds (see `emitted`).
fn emit(style: MdStyle, e: &MdEvent) -> (r: Vec<MdSpan>)
    ensures
        span_views(r@) == emitted(style, e@),
{
    let mut r: Vec<MdSpan> = Vec::new();
    match e {
        MdEvent::Text(t) => r.push(MdSpan { text: t.clone(), style, heading: false }),
        MdEvent::Code(c) => r.push(MdSpan { text: c.clone(), style: MdStyle { code: true, ..style }, heading: false }),
        MdEvent::Heading(l) => r.push(MdSpan {
            text: heading_marker(*l),
            style: MdStyle { bold: false, italic: false, code: false, link: false },
            heading: true,
        }),
        MdEvent::Item => {
            r.push(MdSpan {
                text: String::from_str(" • "),
                style: MdStyle { bold: false, italic: false, code: false, link: false },
                heading: false,
            });
        },
        _ => {},
    }
    assert(span_views(r@) =~= emitted(style, e@));
    r
}

/// The style of a node's contents (see `styled`).
fn style_inside(s: MdStyle, e: &MdEvent) -> (r: MdStyle)
    ensures
        r == styled(s, e@),
{
    match e {
        MdEvent::Strong => MdStyle { bold: true, ..s },
        MdEvent::Emph => MdStyle { italic: true, ..s },
        MdEvent::Heading(_) => MdStyle { bold: true, ..s },
        MdEvent::Link => MdStyle { link: true, ..s },
        _ => s,
    }
}

/// The block a start event opens (see `block_of`).
fn block_kind(e: &MdEvent) -> (r: MdBlock)
    ensures
        r == block_of(e@),
{
    match e {
        MdEvent::Paragraph => MdBlock::Paragraph,
        MdEvent::Heading(_) => MdBlock::Heading,
        MdEvent::Item => MdBlock::Item,
        _ => MdBlock::Inline,
    }
}

/// The styled lines of a walk over node boundaries (see `spec_markdown_lines`).
pub fn markdown_lines(events: &Vec<MdEvent>) -> (r: Vec<Vec<MdSpan>>)
    ensures
        line_views(r@) == spec_markdown_lines(event_views(events@)),
{
    let ghost evs = event_views(events@);
    let mut stack: Vec<(MdBlock, MdStyle)> = Vec::new();
    let mut style = MdStyle { bold: false, italic: false, code: false, link: false };
    let mut current: Vec<MdSpan> = Vec::new();
    let mut lines: Vec<Vec<MdSpan>> = Vec::new();
    let mut i: usize = 0;
    proof {
        assert(evs.take(0) =~= Seq::<MdEventView>::empty());
        assert(span_views(current@) =~= Seq::<MdSpanView>::empty());
        assert(line_views(lines@) =~= Seq::<Seq<MdSpanView>>::empty());
    }
    while i < events.len()
        invariant
            i <= events@.len(),
            evs == event_views(events@),
            (MdState { stack: stack@, style: style, current: span_views(current@), lines: line_views(lines@) })
                == md_run(evs.take(i as int)),
        decreases events.len() - i,
    {
        let ghost st = md_run(evs.take(i as int));
        proof {
            assert(evs.take(i + 1).drop_last() =~= evs.take(i as int));
            assert(evs.take(i + 1).last() == events@[i as int]@);
        }
        let e = &events[i];
        match e {
            MdEvent::Close => {
                if stack.len() > 0 {
                    let top = stack.pop();
                    match top {
                        Some((blk, saved)) => {
                            style = saved;
                            let in_item = stack.len() > 0 && stack[stack.len() - 1].0 == MdBlock::Item;
                            if blk != MdBlock::Inline {
                                if current.len() > 0 {
                                    let ghost lv = line_views(lines@);
                                    let ghost cv = span_views(current@);
                                    let mut line: Vec<MdSpan> = Vec::new();
                                    std::mem::swap(&mut line, &mut current);
                                    lines.push(line);
                                    proof {
                                        assert(line_views(lines@) =~= lv.push(cv));
                                        assert(span_views(current@) =~= Seq::<MdSpanView>::empty());
                                    }
                                } else {
                                    proof {
                                        assert(span_views(current@) =~= Seq::<MdSpanView>::empty());
                                    }
                                }
                                if blk != MdBlock::Item && !in_item {
                                    let ghost lv = line_views(lines@);
                                    lines.push(Vec::new());
                                    proof {
                                        assert(span_views(Seq::<MdSpan>::empty()) =~= Seq::<MdSpanView>::empty());
                                        assert(line_views(lines@) =~= lv.push(Seq::<MdSpanView>::empty()));
                                    }
                                }
                            }
                        },
                        None => {},
                    }
                }
            },
            _ => {
                stack.push((block_kind(e), style));
                let mut spans = emit(style, e);
                let ghost cv = span_views(current@);
                let ghost sv = span_views(spans@);
                current.append(&mut spans);
                proof {
                    assert(span_views(current@) =~= cv + sv);
                }
                style = style_inside(style, e);
            },
        }
        i = i + 1;
    }
    proof {
        assert(evs.take(events@.len() as int) =~= evs);
    }
    if current.len() > 0 {
        let ghost lv = line_views(lines@);
        let ghost cv = span_views(current@);
        lines.push(current);
        proof {
            assert(line_views(lines@) =~= lv.push(cv));
        }
    }
    lines
}

/// The description as styled lines: the Markdown parse of `text`, walked
/// into lines (see `spec_markdown_lines`).
pub fn render_markdown(text: &str) -> (r: Vec<Vec<MdSpan>>)
    ensures
        line_views(r@) == spec_markdown_lines(spec_markdown_events(text@)),
{
    let events = markdown_events(text);
    markdown_lines(&events)
}

} // verus!
