use vstd::prelude::*;
use crate::group::{views, GroupSummary, TrackedGroup};
use crate::markup::{
    default_span, join, join_spec, render_span, span, PangoMarkup, SpanView, DEFAULT_BACKGROUND,
};

verus! {

/// Foreground of the label of a group whose server did not answer.
pub const DISCONNECTED_FOREGROUND: &'static str = "grey";

/// Text of the separator between the fragments of one group.
pub const FRAGMENT_SEPARATOR: &'static str = "|";

/// Text of the separator between the segments of the whole output.
pub const SEGMENT_SEPARATOR: &'static str = " ";

/// What the renderer reads of one group and its summary.
pub struct GroupView {
    pub name: Seq<char>,
    pub connected: bool,
    pub fragments: Seq<SpanView>,
}

/// The views of groups paired with their summaries.
pub open spec fn group_views(groups: Seq<TrackedGroup>, summaries: Seq<GroupSummary>) -> Seq<
    GroupView,
> {
    Seq::new(
        groups.len(),
        |i: int|
            GroupView {
                name: groups[i].name@,
                connected: summaries[i].connected,
                fragments: views(summaries[i].fragments@),
            },
    )
}

/// A group's label: default colours when connected, a muted foreground when not.
pub open spec fn label_spec(name: Seq<char>, connected: bool) -> Seq<char> {
    if connected {
        default_span(name)
    } else {
        span(DISCONNECTED_FOREGROUND@, DEFAULT_BACKGROUND@, name)
    }
}

/// A group's fragments, rendered and joined by a default-styled `|`.
pub open spec fn extra_spec(fragments: Seq<SpanView>) -> Seq<char> {
    join_spec(
        fragments.map_values(|f: SpanView| render_span(f)),
        default_span(FRAGMENT_SEPARATOR@),
    )
}

/// The segments a group contributes: its label, then its fragments if it has any.
pub open spec fn group_parts(g: GroupView) -> Seq<Seq<char>> {
    if g.fragments.len() == 0 {
        seq![label_spec(g.name, g.connected)]
    } else {
        seq![label_spec(g.name, g.connected), extra_spec(g.fragments)]
    }
}

/// The segments of all groups, in group order.
pub open spec fn all_parts(gs: Seq<GroupView>) -> Seq<Seq<char>>
    decreases gs.len(),
{
    if gs.len() == 0 {
        Seq::empty()
    } else {
        all_parts(gs.drop_last()) + group_parts(gs.last())
    }
}

/// The whole output: every segment, joined by a default-styled space.
pub open spec fn render_all_spec(gs: Seq<GroupView>) -> Seq<char> {
    join_spec(all_parts(gs), default_span(SEGMENT_SEPARATOR@))
}

/// Renders a group's label, and its fragments when it has any.
pub fn render_group(group: &TrackedGroup, summary: &GroupSummary) -> (r: (String, Option<String>))
    ensures
        r.0@ == label_spec(group.name@, summary.connected),
        r.1 is None <==> summary.fragments@.len() == 0,
        r.1 matches Some(e) ==> e@ == extra_spec(views(summary.fragments@)),
{
    let label = if summary.connected {
        PangoMarkup::new().set_text(group.name.as_str()).build()
    } else {
        PangoMarkup::new().set_foreground(DISCONNECTED_FOREGROUND).set_text(
            group.name.as_str(),
        ).build()
    };
    if summary.fragments.len() == 0 {
        return (label, None);
    }
    let mut rendered: Vec<String> = Vec::new();
    let mut k: usize = 0;
    while k < summary.fragments.len()
        invariant
            k <= summary.fragments@.len(),
            rendered.deep_view() =~= views(summary.fragments@).take(k as int).map_values(
                |f: SpanView| render_span(f),
            ),
        decreases summary.fragments@.len() - k,
    {
        let ghost prev = rendered.deep_view();
        let piece = summary.fragments[k].build();
        rendered.push(piece);
        proof {
            let fs = views(summary.fragments@);
            assert(rendered.deep_view() =~= prev.push(piece@));
            assert(fs[k as int] == summary.fragments@[k as int]@);
            assert(fs.take(k + 1) =~= fs.take(k as int).push(fs[k as int]));
        }
        k = k + 1;
    }
    proof {
        assert(views(summary.fragments@).take(k as int) =~= views(summary.fragments@));
    }
    let sep = PangoMarkup::new().set_text(FRAGMENT_SEPARATOR).build();
    (label, Some(join(&rendered, sep.as_str())))
}

/// Renders all groups with their summaries into the one output string.
pub fn render_all(groups: &Vec<TrackedGroup>, summaries: &Vec<GroupSummary>) -> (r: String)
    requires
        groups@.len() == summaries@.len(),
    ensures
        r@ == render_all_spec(group_views(groups@, summaries@)),
{
    let ghost gs = group_views(groups@, summaries@);
    let mut data: Vec<String> = Vec::new();
    let mut i: usize = 0;
    while i < groups.len()
        invariant
            i <= groups@.len(),
            groups@.len() == summaries@.len(),
            gs == group_views(groups@, summaries@),
            data.deep_view() =~= all_parts(gs.take(i as int)),
        decreases groups@.len() - i,
    {
        proof {
            assert(gs.take(i + 1).drop_last() =~= gs.take(i as int));
        }
        let (label, extra) = render_group(&groups[i], &summaries[i]);
        data.push(label);
        match extra {
            Some(e) => data.push(e),
            None => {},
        }
        i = i + 1;
    }
    proof {
        assert(gs.take(i as int) =~= gs);
    }
    let sep = PangoMarkup::new().set_text(SEGMENT_SEPARATOR).build();
    join(&data, sep.as_str())
}

/// Rendering depends on nothing but what it is given: equal groups and
/// summaries render to the same string, however often it is done.
pub proof fn lemma_render_deterministic(
    groups1: Seq<TrackedGroup>,
    summaries1: Seq<GroupSummary>,
    groups2: Seq<TrackedGroup>,
    summaries2: Seq<GroupSummary>,
)
    requires
        group_views(groups1, summaries1) == group_views(groups2, summaries2),
    ensures
        render_all_spec(group_views(groups1, summaries1)) == render_all_spec(
            group_views(groups2, summaries2),
        ),
{
}

/// A group without fragments contributes its label alone; one with `n >= 1`
/// fragments contributes its label and one segment holding them, in which
/// exactly `n - 1` separators stand.
pub proof fn lemma_group_segments(g: GroupView)
    ensures
        g.fragments.len() == 0 ==> group_parts(g) == seq![label_spec(g.name, g.connected)],
        g.fragments.len() >= 1 ==> group_parts(g).len() == 2 && extra_spec(g.fragments).len()
            == crate::markup::total_len(g.fragments.map_values(|f: SpanView| render_span(f)))
            + (g.fragments.len() - 1) * default_span(FRAGMENT_SEPARATOR@).len(),
{
    if g.fragments.len() >= 1 {
        crate::markup::lemma_join_separator_count(
            g.fragments.map_values(|f: SpanView| render_span(f)),
            default_span(FRAGMENT_SEPARATOR@),
        );
    }
}

/// With `n >= 1` segments, the output holds exactly `n - 1` space separators
/// between them.
pub proof fn lemma_segments_joined_by_space(gs: Seq<GroupView>)
    requires
        all_parts(gs).len() >= 1,
    ensures
        render_all_spec(gs).len() == crate::markup::total_len(all_parts(gs)) + (all_parts(
            gs,
        ).len() - 1) * default_span(SEGMENT_SEPARATOR@).len(),
{
    crate::markup::lemma_join_separator_count(all_parts(gs), default_span(SEGMENT_SEPARATOR@));
}

} // verus!
