use vstd::prelude::*;
use crate::group::{
    connected_spec, notable_spec, reduce_group, views, GroupSummary, JobPoll, TrackedGroup,
};
use crate::render::{group_views, render_all, render_all_spec, GroupView};

verus! {

/// The widget's settings, read once at start-up.
pub struct WidgetConfig {
    /// The groups to show, in display order.
    pub groups: Vec<TrackedGroup>,
    /// Seconds between two polls.
    pub update_frequency: u64,
}

/// What one cycle hands back to the status bar.
pub struct WidgetUpdate {
    /// The Pango markup to show.
    pub content: String,
    /// Seconds until the next cycle.
    pub refresh_interval: u64,
}

/// Status-bar widget that shows the health of tracked CI jobs.
pub struct JenkinsWidget {
    pub config: WidgetConfig,
}

/// Whether some poll of a group found no client for its server.
pub open spec fn group_lacks_client(polls: Seq<JobPoll>) -> bool {
    exists|j: int| 0 <= j < polls.len() && (#[trigger] polls[j]) is NoClient
}

/// Whether some poll of the cycle found no client for its server.
pub open spec fn cycle_lacks_client(polls: Seq<Vec<JobPoll>>) -> bool {
    exists|g: int| 0 <= g < polls.len() && #[trigger] group_lacks_client(polls[g]@)
}

/// What the renderer is given in a cycle: each group with the summary of its polls.
pub open spec fn cycle_views(groups: Seq<TrackedGroup>, polls: Seq<Vec<JobPoll>>) -> Seq<
    GroupView,
> {
    Seq::new(
        groups.len(),
        |i: int|
            GroupView {
                name: groups[i].name@,
                connected: connected_spec(polls[i]@),
                fragments: notable_spec(polls[i]@),
            },
    )
}

/// Whether some poll of the group found no client for its server.
pub fn lacks_client(polls: &Vec<JobPoll>) -> (r: bool)
    ensures
        r == group_lacks_client(polls@),
{
    let mut j: usize = 0;
    while j < polls.len()
        invariant
            j <= polls@.len(),
            forall|k: int| 0 <= k < j ==> !(#[trigger] polls@[k] is NoClient),
        decreases polls@.len() - j,
    {
        match &polls[j] {
            JobPoll::NoClient => {
                return true;
            },
            _ => {},
        }
        j = j + 1;
    }
    false
}

impl JenkinsWidget {
    /// A widget showing the groups of `config`.
    pub fn new(config: WidgetConfig) -> (r: JenkinsWidget)
        ensures
            r.config == config,
    {
        JenkinsWidget { config }
    }

    /// One cycle: folds the polls of each group's jobs (`polls[g]` for the
    /// `g`-th group) into summaries and renders them. Gives no update at all
    /// when a client could not be made for some server.
    pub fn update(&self, polls: &Vec<Vec<JobPoll>>) -> (r: Option<WidgetUpdate>)
        requires
            polls@.len() == self.config.groups@.len(),
        ensures
            r is None <==> cycle_lacks_client(polls@),
            r matches Some(u) ==> u.refresh_interval == self.config.update_frequency
                && u.content@ == render_all_spec(cycle_views(self.config.groups@, polls@)),
    {
        let groups = &self.config.groups;
        let mut summaries: Vec<GroupSummary> = Vec::new();
        let mut g: usize = 0;
        while g < polls.len()
            invariant
                g <= polls@.len(),
                polls@.len() == groups@.len(),
                summaries@.len() == g,
                forall|k: int| 0 <= k < g ==> !(#[trigger] group_lacks_client(polls@[k]@)),
                forall|k: int|
                    0 <= k < g ==> (#[trigger] summaries@[k]).connected == connected_spec(
                        polls@[k]@,
                    ) && views(summaries@[k].fragments@) == notable_spec(polls@[k]@),
            decreases polls@.len() - g,
        {
            if lacks_client(&polls[g]) {
                return None;
            }
            let s = reduce_group(&polls[g]);
            summaries.push(s);
            g = g + 1;
        }
        let content = render_all(groups, &summaries);
        proof {
            assert(group_views(groups@, summaries@) =~= cycle_views(groups@, polls@));
        }
        Some(WidgetUpdate { content, refresh_interval: self.config.update_frequency })
    }
}

} // verus!
