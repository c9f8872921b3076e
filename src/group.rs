use vstd::prelude::*;
use crate::classify::{classify, classify_spec, BuildResult, ClassView, Classification};
use crate::markup::{PangoMarkup, SpanView, DEFAULT_BACKGROUND, DEFAULT_FOREGROUND};

verus! {

/// Background of the fragment shown for a running build.
pub const RUNNING_BACKGROUND: &'static str = "blue";

/// Background of the fragment shown for a failed build.
pub const FAILED_BACKGROUND: &'static str = "red";

/// A named set of jobs on one CI server, shown as one label.
pub struct TrackedGroup {
    /// Base URL of the CI server.
    pub endpoint: String,
    /// Label shown on the bar.
    pub name: String,
    /// Jobs to poll, in display order.
    pub jobs: Vec<String>,
}

/// What one poll of one job brought back.
pub enum JobPoll {
    /// The server answered with the latest build of the job.
    Answered(BuildResult),
    /// The job, its latest build or the server could not be reached.
    Unavailable,
    /// No client could be made for the group's server.
    NoClient,
}

/// What a group shows in one cycle.
pub struct GroupSummary {
    /// Whether any job of the group was answered.
    pub connected: bool,
    /// One fragment per running or failed build, in job order.
    pub fragments: Vec<PangoMarkup>,
}

/// The contents of a sequence of spans.
pub open spec fn views(fs: Seq<PangoMarkup>) -> Seq<SpanView> {
    fs.map_values(|f: PangoMarkup| f@)
}

/// The fragment that one poll adds to its group: none, or one.
pub open spec fn fragment_of(p: JobPoll) -> Seq<SpanView> {
    match p {
        JobPoll::Answered(b) => match classify_spec(b) {
            ClassView::Running(n) => seq![
                SpanView {
                    foreground: DEFAULT_FOREGROUND@,
                    background: RUNNING_BACKGROUND@,
                    text: n,
                },
            ],
            ClassView::Failed(n) => seq![
                SpanView {
                    foreground: DEFAULT_FOREGROUND@,
                    background: FAILED_BACKGROUND@,
                    text: n,
                },
            ],
            ClassView::Ignored => Seq::empty(),
        },
        _ => Seq::empty(),
    }
}

/// The fragments of a group's polls, in poll order.
pub open spec fn notable_spec(polls: Seq<JobPoll>) -> Seq<SpanView>
    decreases polls.len(),
{
    if polls.len() == 0 {
        Seq::empty()
    } else {
        notable_spec(polls.drop_last()) + fragment_of(polls.last())
    }
}

/// A group is connected when the server answered for at least one job.
pub open spec fn connected_spec(polls: Seq<JobPoll>) -> bool {
    exists|i: int| 0 <= i < polls.len() && (#[trigger] polls[i]) is Answered
}

/// Folds the polls of a group's jobs into the group's summary.
pub fn reduce_group(polls: &Vec<JobPoll>) -> (s: GroupSummary)
    ensures
        s.connected == connected_spec(polls@),
        views(s.fragments@) == notable_spec(polls@),
{
    let mut connected = false;
    let mut fragments: Vec<PangoMarkup> = Vec::new();
    let mut i: usize = 0;
    while i < polls.len()
        invariant
            i <= polls.len(),
            connected == connected_spec(polls@.take(i as int)),
            views(fragments@) == notable_spec(polls@.take(i as int)),
        decreases polls.len() - i,
    {
        let ghost before = polls@.take(i as int);
        let ghost after = polls@.take(i + 1);
        proof {
            assert(after.drop_last() =~= before);
            assert(after.last() == polls@[i as int]);
        }
        let ghost old_fragments = fragments@;
        match &polls[i] {
            JobPoll::Answered(b) => {
                connected = true;
                match classify(b) {
                    Classification::Running(n) => {
                        fragments.push(
                            PangoMarkup::new().set_background(RUNNING_BACKGROUND).set_text(
                                n.as_str(),
                            ),
                        );
                    },
                    Classification::Failed(n) => {
                        fragments.push(
                            PangoMarkup::new().set_background(FAILED_BACKGROUND).set_text(
                                n.as_str(),
                            ),
                        );
                    },
                    Classification::Ignored => {},
                }
                proof {
                    assert(after[i as int] is Answered);
                }
            },
            _ => {
                proof {
                    assert(fragments@ == old_fragments);
                    if connected_spec(after) {
                        let k = choose|k: int| 0 <= k < after.len() && (#[trigger] after[k]) is Answered;
                        assert(before[k] == after[k]);
                    }
                    if connected_spec(before) {
                        let k = choose|k: int| 0 <= k < before.len() && (#[trigger] before[k]) is Answered;
                        assert(before[k] == after[k]);
                    }
                }
            },
        }
        proof {
            assert(views(fragments@) =~= views(old_fragments) + fragment_of(polls@[i as int]));
        }
        i = i + 1;
    }
    proof {
        assert(polls@.take(polls@.len() as int) =~= polls@);
    }
    GroupSummary { connected, fragments }
}

/// Fragments keep the order of the jobs: those of the jobs listed first come
/// first, followed by those of the jobs after them.
pub proof fn lemma_notable_in_job_order(first: Seq<JobPoll>, rest: Seq<JobPoll>)
    ensures
        notable_spec(first + rest) == notable_spec(first) + notable_spec(rest),
    decreases rest.len(),
{
    if rest.len() == 0 {
        assert(first + rest =~= first);
        assert(notable_spec(first) + notable_spec(rest) =~= notable_spec(first));
    } else {
        assert((first + rest).drop_last() =~= first + rest.drop_last());
        lemma_notable_in_job_order(first, rest.drop_last());
        assert(notable_spec(first + rest) =~= notable_spec(first) + notable_spec(rest));
    }
}

/// An unavailable job, wherever it stands among a group's jobs, neither makes
/// the group connected nor adds a fragment to it.
pub proof fn lemma_unavailable_is_neutral(before: Seq<JobPoll>, after: Seq<JobPoll>)
    ensures
        connected_spec(before + seq![JobPoll::Unavailable] + after) == connected_spec(
            before + after,
        ),
        notable_spec(before + seq![JobPoll::Unavailable] + after) == notable_spec(
            before + after,
        ),
{
    let u = seq![JobPoll::Unavailable];
    let with = before + u + after;
    let without = before + after;
    lemma_notable_in_job_order(before + u, after);
    lemma_notable_in_job_order(before, u);
    lemma_notable_in_job_order(before, after);
    assert(u.drop_last() =~= Seq::<JobPoll>::empty());
    assert(notable_spec(u.drop_last()) =~= Seq::<SpanView>::empty());
    assert(u.last() is Unavailable);
    assert(fragment_of(u.last()) =~= Seq::<SpanView>::empty());
    assert(notable_spec(u) =~= Seq::<SpanView>::empty());
    assert(notable_spec(before) + notable_spec(u) =~= notable_spec(before));
    if connected_spec(with) {
        let k = choose|k: int| 0 <= k < with.len() && (#[trigger] with[k]) is Answered;
        if k < before.len() {
            assert(without[k] == with[k]);
        } else {
            assert(k > before.len());
            assert(without[k - 1] == with[k]);
        }
    }
    if connected_spec(without) {
        let k = choose|k: int| 0 <= k < without.len() && (#[trigger] without[k]) is Answered;
        if k < before.len() {
            assert(without[k] == with[k]);
        } else {
            assert(without[k] == with[k + 1]);
        }
    }
}

} // verus!
