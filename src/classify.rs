use vstd::prelude::*;

verus! {

/// How a finished build ended.
#[derive(PartialEq, Eq, Structural, Clone, Copy, Debug)]
pub enum BuildStatus {
    Success,
    Unstable,
    Failure,
    NotBuilt,
    Aborted,
}

/// What the CI server reports of the latest build of a job.
pub struct BuildResult {
    /// Name the server gives the build, such as `job #12`.
    pub display_name: String,
    /// Whether the build is still running.
    pub building: bool,
    /// How the build ended, where that is known.
    pub result: Option<BuildStatus>,
}

/// What the display makes of one build.
pub enum Classification {
    /// The build is running; carries its display name.
    Running(String),
    /// The build failed; carries its display name.
    Failed(String),
    /// Nothing worth showing.
    Ignored,
}

/// The mathematical content of a [`Classification`].
pub enum ClassView {
    Running(Seq<char>),
    Failed(Seq<char>),
    Ignored,
}

impl View for Classification {
    type V = ClassView;

    open spec fn view(&self) -> ClassView {
        match self {
            Classification::Running(n) => ClassView::Running(n@),
            Classification::Failed(n) => ClassView::Failed(n@),
            Classification::Ignored => ClassView::Ignored,
        }
    }
}

/// A running build is shown as running, whatever result it carries; a
/// finished one is shown as failed only when it ended in failure.
pub open spec fn classify_spec(b: BuildResult) -> ClassView {
    if b.building {
        ClassView::Running(b.display_name@)
    } else if b.result == Some(BuildStatus::Failure) {
        ClassView::Failed(b.display_name@)
    } else {
        ClassView::Ignored
    }
}

/// Reduces a build to what the display shows of it.
pub fn classify(b: &BuildResult) -> (r: Classification)
    ensures
        r@ == classify_spec(*b),
{
    if b.building {
        Classification::Running(b.display_name.clone())
    } else if b.result == Some(BuildStatus::Failure) {
        Classification::Failed(b.display_name.clone())
    } else {
        Classification::Ignored
    }
}

/// A running build is classified as running, whatever its result field says.
pub proof fn lemma_running_takes_precedence(b: BuildResult)
    requires
        b.building,
    ensures
        classify_spec(b) == ClassView::Running(b.display_name@),
{
}

/// A finished build is classified as failed exactly when it ended in failure,
/// and is ignored for every other result, or for none.
pub proof fn lemma_finished_builds(b: BuildResult)
    requires
        !b.building,
    ensures
        b.result == Some(BuildStatus::Failure) ==> classify_spec(b) == ClassView::Failed(
            b.display_name@,
        ),
        b.result != Some(BuildStatus::Failure) ==> classify_spec(b) == ClassView::Ignored,
{
}

} // verus!
