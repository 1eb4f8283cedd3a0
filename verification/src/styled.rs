//! Styled text as the panels describe it: spans of text with a colour and
//! emphasis, which the terminal front end draws.

use vstd::prelude::*;

verus! {

/// A terminal colour.
#[derive(Debug, Clone, Copy, PartialEq, Eq, Structural)]
pub enum Tone {
    Green,
    Red,
    Yellow,
    Cyan,
    Gray,
    DarkGray,
    Magenta,
    White,
}

/// Colour and emphasis of a span.
#[derive(Debug, Clone, Copy, PartialEq, Eq, Structural)]
pub struct SpanStyle {
    pub fg: Option<Tone>,
    pub bold: bool,
    pub dim: bool,
}

/// A run of text drawn in one style.
#[derive(Debug, PartialEq, Eq)]
pub struct StyledSpan {
    pub text: String,
    pub style: SpanStyle,
}

/// A span with its text as characters.
pub struct SpanView {
    pub text: Seq<char>,
    pub style: SpanStyle,
}

impl View for StyledSpan {
    type V = SpanView;

    open spec fn view(&self) -> SpanView {
        SpanView { text: self.text@, style: self.style }
    }
}

/// The views of a line's spans.
pub open spec fn line_view(spans: Seq<StyledSpan>) -> Seq<SpanView> {
    spans.map_values(|s: StyledSpan| s@)
}

/// Plain text, no colour.
pub open spec fn plain() -> SpanStyle {
    SpanStyle { fg: None, bold: false, dim: false }
}

/// Coloured text.
pub open spec fn fg(t: Tone) -> SpanStyle {
    SpanStyle { fg: Some(t), bold: false, dim: false }
}

/// The plain style.
pub fn style_plain() -> (s: SpanStyle)
    ensures
        s == plain(),
{
    SpanStyle { fg: None, bold: false, dim: false }
}

/// A coloured style.
pub fn style_fg(t: Tone) -> (s: SpanStyle)
    ensures
        s == fg(t),
{
    SpanStyle { fg: Some(t), bold: false, dim: false }
}

/// Bold text without colour.
pub fn style_bold() -> (s: SpanStyle)
    ensures
        s == (SpanStyle { fg: None, bold: true, dim: false }),
{
    SpanStyle { fg: None, bold: true, dim: false }
}

/// Dimmed text without colour.
pub fn style_dim() -> (s: SpanStyle)
    ensures
        s == (SpanStyle { fg: None, bold: false, dim: true }),
{
    SpanStyle { fg: None, bold: false, dim: true }
}

/// A span.
pub fn span(text: String, style: SpanStyle) -> (s: StyledSpan)
    ensures
        s@ == (SpanView { text: text@, style }),
{
    StyledSpan { text, style }
}

/// The views of a paragraph's lines.
pub open spec fn lines_view(lines: Seq<Vec<StyledSpan>>) -> Seq<Seq<SpanView>> {
    lines.map_values(|l: Vec<StyledSpan>| line_view(l@))
}

/// A line of one span.
pub open spec fn one(text: Seq<char>, style: SpanStyle) -> Seq<SpanView> {
    seq![SpanView { text, style }]
}

/// A line of one span.
pub fn one_line(text: String, style: SpanStyle) -> (r: Vec<StyledSpan>)
    ensures
        line_view(r@) == one(text@, style),
{
    let v = vec![span(text, style)];
    assert(line_view(v@) =~= one(text@, style));
    v
}

/// An empty line.
pub fn blank_line() -> (r: Vec<StyledSpan>)
    ensures
        line_view(r@) == Seq::<SpanView>::empty(),
{
    let v: Vec<StyledSpan> = Vec::new();
    assert(line_view(v@) =~= Seq::<SpanView>::empty());
    v
}

/// Adds a line at the end of a paragraph.
pub fn push_line(lines: &mut Vec<Vec<StyledSpan>>, line: Vec<StyledSpan>)
    ensures
        lines_view(final(lines)@) == lines_view(old(lines)@).push(line_view(line@)),
{
    let ghost l = line_view(line@);
    lines.push(line);
    assert(lines_view(lines@) =~= lines_view(old(lines)@).push(l));
}

} // verus!
