use vstd::prelude::*;

verus! {

/// Colour used for text when no other foreground is chosen.
pub const DEFAULT_FOREGROUND: &'static str = "white";

/// Colour used behind text when no other background is chosen.
pub const DEFAULT_BACKGROUND: &'static str = "black";

/// The mathematical content of a styled span: its two colours and its text.
pub struct SpanView {
    pub foreground: Seq<char>,
    pub background: Seq<char>,
    pub text: Seq<char>,
}

/// The markup that wraps `text` in a span with the given colours.
pub open spec fn span(foreground: Seq<char>, background: Seq<char>, text: Seq<char>) -> Seq<char> {
    "<span foreground='"@ + foreground + "' background='"@ + background + "'>"@ + text
        + "</span>"@
}

/// The markup of a span's content.
pub open spec fn render_span(v: SpanView) -> Seq<char> {
    span(v.foreground, v.background, v.text)
}

/// A span in the default colours.
pub open spec fn default_span(text: Seq<char>) -> Seq<char> {
    span(DEFAULT_FOREGROUND@, DEFAULT_BACKGROUND@, text)
}

/// The parts laid end to end, with `sep` between each two neighbours.
pub open spec fn join_spec(parts: Seq<Seq<char>>, sep: Seq<char>) -> Seq<char>
    decreases parts.len(),
{
    if parts.len() == 0 {
        Seq::empty()
    } else if parts.len() == 1 {
        parts[0]
    } else {
        join_spec(parts.drop_last(), sep) + sep + parts.last()
    }
}

/// Total number of characters in the parts.
pub open spec fn total_len(parts: Seq<Seq<char>>) -> int
    decreases parts.len(),
{
    if parts.len() == 0 {
        0
    } else {
        total_len(parts.drop_last()) + parts.last().len()
    }
}

/// Joining `n >= 1` parts puts exactly `n - 1` separators between them: the
/// joined text is as long as the parts together plus `n - 1` separators.
pub proof fn lemma_join_separator_count(parts: Seq<Seq<char>>, sep: Seq<char>)
    requires
        parts.len() >= 1,
    ensures
        join_spec(parts, sep).len() == total_len(parts) + (parts.len() - 1) * sep.len(),
    decreases parts.len(),
{
    if parts.len() == 1 {
        assert(parts.drop_last().len() == 0);
        assert(total_len(parts.drop_last()) == 0);
        assert(parts.last() == parts[0]);
    } else {
        lemma_join_separator_count(parts.drop_last(), sep);
        assert(join_spec(parts, sep) == join_spec(parts.drop_last(), sep) + sep + parts.last());
        assert(total_len(parts) == total_len(parts.drop_last()) + parts.last().len());
        assert((parts.len() - 1) * sep.len() == (parts.len() - 2) * sep.len() + sep.len())
            by (nonlinear_arith);
    }
}

/// Text together with the colours it is shown in, rendered as a Pango span.
pub struct PangoMarkup {
    /// An RGB colour such as `#00FF00` or a colour name such as `red`.
    pub foreground: String,
    /// An RGB colour such as `#00FF00` or a colour name such as `red`.
    pub background: String,
    /// The visible text.
    pub text: String,
}

impl View for PangoMarkup {
    type V = SpanView;

    open spec fn view(&self) -> SpanView {
        SpanView { foreground: self.foreground@, background: self.background@, text: self.text@ }
    }
}

/// Empty text in the default colours.
pub open spec fn blank_span() -> SpanView {
    SpanView { foreground: DEFAULT_FOREGROUND@, background: DEFAULT_BACKGROUND@, text: Seq::empty() }
}

impl Default for PangoMarkup {
    fn default() -> (r: PangoMarkup)
        ensures
            r@ == blank_span(),
    {
        PangoMarkup {
            foreground: String::from_str(DEFAULT_FOREGROUND),
            background: String::from_str(DEFAULT_BACKGROUND),
            text: String::new(),
        }
    }
}

impl PangoMarkup {
    /// Empty text in the default colours.
    pub fn new() -> (r: PangoMarkup)
        ensures
            r@ == blank_span(),
    {
        PangoMarkup::default()
    }

    /// The same span with another foreground colour.
    pub fn set_foreground(self, foreground: &str) -> (r: PangoMarkup)
        ensures
            r@ == (SpanView { foreground: foreground@, ..self@ }),
    {
        PangoMarkup { foreground: String::from_str(foreground), ..self }
    }

    /// The same span with another background colour.
    pub fn set_background(self, background: &str) -> (r: PangoMarkup)
        ensures
            r@ == (SpanView { background: background@, ..self@ }),
    {
        PangoMarkup { background: String::from_str(background), ..self }
    }

    /// The same span with another text.
    pub fn set_text(self, text: &str) -> (r: PangoMarkup)
        ensures
            r@ == (SpanView { text: text@, ..self@ }),
    {
        PangoMarkup { text: String::from_str(text), ..self }
    }

    /// The markup string `<span foreground='F' background='B'>T</span>`.
    pub fn build(&self) -> (r: String)
        ensures
            r@ == render_span(self@),
    {
        let mut tmp = String::new();
        tmp.append("<span foreground='");
        tmp.append(self.foreground.as_str());
        tmp.append("' background='");
        tmp.append(self.background.as_str());
        tmp.append("'>");
        tmp.append(self.text.as_str());
        tmp.append("</span>");
        tmp
    }
}

/// Joins the strings with `sep` between each two neighbours.
pub fn join(parts: &Vec<String>, sep: &str) -> (r: String)
    ensures
        r@ == join_spec(parts.deep_view(), sep@),
{
    let mut r = String::new();
    let mut i: usize = 0;
    while i < parts.len()
        invariant
            i <= parts.len(),
            r@ == join_spec(parts.deep_view().take(i as int), sep@),
        decreases parts.len() - i,
    {
        proof {
            let ps = parts.deep_view();
            assert(ps.take(i + 1).drop_last() =~= ps.take(i as int));
        }
        if i > 0 {
            r.append(sep);
        }
        r.append(parts[i].as_str());
        i = i + 1;
    }
    proof {
        assert(parts.deep_view().take(parts.len() as int) =~= parts.deep_view());
    }
    r
}

} // verus!
