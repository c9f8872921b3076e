use jenkins_status::classify::{classify, BuildResult, BuildStatus, Classification};
use jenkins_status::group::{reduce_group, GroupSummary, JobPoll, TrackedGroup};
use jenkins_status::markup::{join, PangoMarkup};
use jenkins_status::render::{render_all, render_group};
use jenkins_status::widget::{lacks_client, JenkinsWidget, WidgetConfig};

fn build(name: &str, building: bool, result: Option<BuildStatus>) -> BuildResult {
    BuildResult { display_name: name.to_string(), building, result }
}

fn group(name: &str, jobs: &[&str]) -> TrackedGroup {
    TrackedGroup {
        endpoint: "http://ci.example.org".to_string(),
        name: name.to_string(),
        jobs: jobs.iter().map(|j| j.to_string()).collect(),
    }
}

fn span(fg: &str, bg: &str, text: &str) -> String {
    format!("<span foreground='{}' background='{}'>{}</span>", fg, bg, text)
}

#[test]
fn markup_defaults_and_setters() {
    let m = PangoMarkup::new();
    assert_eq!(m.build(), "<span foreground='white' background='black'></span>");
    let m = PangoMarkup::new().set_foreground("#00FF00").set_background("red").set_text("x");
    assert_eq!(m.foreground, "#00FF00");
    assert_eq!(m.background, "red");
    assert_eq!(m.text, "x");
    assert_eq!(m.build(), "<span foreground='#00FF00' background='red'>x</span>");
}

#[test]
fn join_places_separators_between_parts() {
    let empty: Vec<String> = Vec::new();
    assert_eq!(join(&empty, "|"), "");
    assert_eq!(join(&vec!["a".to_string()], "|"), "a");
    let parts = vec!["a".to_string(), "b".to_string(), "c".to_string()];
    assert_eq!(join(&parts, "--"), "a--b--c");
}

#[test]
fn running_build_is_running_whatever_its_result() {
    for result in [None, Some(BuildStatus::Failure), Some(BuildStatus::Success)] {
        match classify(&build("a #7", true, result)) {
            Classification::Running(n) => assert_eq!(n, "a #7"),
            _ => panic!("a running build must be classified as running"),
        }
    }
}

#[test]
fn finished_builds_fail_only_on_failure() {
    match classify(&build("b #12", false, Some(BuildStatus::Failure))) {
        Classification::Failed(n) => assert_eq!(n, "b #12"),
        _ => panic!("a failed build must be classified as failed"),
    }
    for result in [
        None,
        Some(BuildStatus::Success),
        Some(BuildStatus::Unstable),
        Some(BuildStatus::Aborted),
        Some(BuildStatus::NotBuilt),
    ] {
        assert!(matches!(classify(&build("c", false, result)), Classification::Ignored));
    }
}

#[test]
fn unavailable_jobs_add_nothing() {
    let s = reduce_group(&vec![JobPoll::Unavailable, JobPoll::Unavailable]);
    assert!(!s.connected);
    assert!(s.fragments.is_empty());
    let s = reduce_group(&vec![]);
    assert!(!s.connected);
    assert!(s.fragments.is_empty());
}

#[test]
fn ignored_build_still_connects() {
    let s = reduce_group(&vec![
        JobPoll::Unavailable,
        JobPoll::Answered(build("ok", false, Some(BuildStatus::Success))),
    ]);
    assert!(s.connected);
    assert!(s.fragments.is_empty());
}

#[test]
fn fragments_follow_job_order() {
    let s = reduce_group(&vec![
        JobPoll::Answered(build("x #1", false, Some(BuildStatus::Failure))),
        JobPoll::Unavailable,
        JobPoll::Answered(build("y #2", true, None)),
        JobPoll::Answered(build("z #3", false, Some(BuildStatus::Failure))),
    ]);
    assert!(s.connected);
    let texts: Vec<&str> = s.fragments.iter().map(|f| f.text.as_str()).collect();
    assert_eq!(texts, vec!["x #1", "y #2", "z #3"]);
    let backgrounds: Vec<&str> = s.fragments.iter().map(|f| f.background.as_str()).collect();
    assert_eq!(backgrounds, vec!["red", "blue", "red"]);
}

#[test]
fn group_without_fragments_has_no_extra() {
    let g = group("CI", &["a"]);
    let s = GroupSummary { connected: true, fragments: Vec::new() };
    let (label, extra) = render_group(&g, &s);
    assert_eq!(label, span("white", "black", "CI"));
    assert!(extra.is_none());
}

#[test]
fn fragments_are_joined_by_pipes() {
    let g = group("CI", &["a", "b", "c"]);
    let s = reduce_group(&vec![
        JobPoll::Answered(build("a #1", true, None)),
        JobPoll::Answered(build("b #2", false, Some(BuildStatus::Failure))),
        JobPoll::Answered(build("c #3", true, Some(BuildStatus::Success))),
    ]);
    let (_, extra) = render_group(&g, &s);
    let extra = extra.unwrap();
    let pipe = span("white", "black", "|");
    assert_eq!(extra.matches(pipe.as_str()).count(), 2);
    assert_eq!(
        extra,
        format!(
            "{}{}{}{}{}",
            span("white", "blue", "a #1"),
            pipe,
            span("white", "red", "b #2"),
            pipe,
            span("white", "blue", "c #3")
        )
    );
}

#[test]
fn render_all_is_deterministic() {
    let groups = vec![group("CI", &["a"]), group("Nightly", &["n"])];
    let summaries = vec![
        reduce_group(&vec![JobPoll::Answered(build("a #3", true, None))]),
        reduce_group(&vec![JobPoll::Unavailable]),
    ];
    let first = render_all(&groups, &summaries);
    let second = render_all(&groups, &summaries);
    assert_eq!(first, second);
}

#[test]
fn render_all_of_no_group_is_empty() {
    assert_eq!(render_all(&Vec::new(), &Vec::new()), "");
}

#[test]
fn scenario_failed_job_next_to_unavailable_one() {
    let g = group("CI", &["a", "b"]);
    let s = reduce_group(&vec![
        JobPoll::Unavailable,
        JobPoll::Answered(build("b #12", false, Some(BuildStatus::Failure))),
    ]);
    assert!(s.connected);
    assert_eq!(s.fragments.len(), 1);
    let out = render_all(&vec![g], &vec![s]);
    assert_eq!(
        out,
        format!(
            "{}{}{}",
            span("white", "black", "CI"),
            span("white", "black", " "),
            span("white", "red", "b #12")
        )
    );
}

#[test]
fn scenario_all_jobs_unavailable() {
    let g = group("CI", &["a", "b"]);
    let s = reduce_group(&vec![JobPoll::Unavailable, JobPoll::Unavailable]);
    assert!(!s.connected);
    let out = render_all(&vec![g], &vec![s]);
    assert_eq!(out, span("grey", "black", "CI"));
}

#[test]
fn scenario_running_build_with_stale_result() {
    let g = group("CI", &["a"]);
    let s = reduce_group(&vec![JobPoll::Answered(build("a #7", true, Some(BuildStatus::Failure)))]);
    assert_eq!(s.fragments[0].background, "blue");
    let out = render_all(&vec![g], &vec![s]);
    assert_eq!(
        out,
        format!(
            "{}{}{}",
            span("white", "black", "CI"),
            span("white", "black", " "),
            span("white", "blue", "a #7")
        )
    );
}

#[test]
fn scenario_two_groups_in_config_order() {
    let config = WidgetConfig {
        groups: vec![group("Old", &["o"]), group("CI", &["a", "b"])],
        update_frequency: 30,
    };
    let widget = JenkinsWidget::new(config);
    let polls = vec![
        vec![JobPoll::Unavailable],
        vec![
            JobPoll::Answered(build("a #1", false, Some(BuildStatus::Success))),
            JobPoll::Answered(build("b #12", false, Some(BuildStatus::Failure))),
        ],
    ];
    let update = widget.update(&polls).unwrap();
    assert_eq!(update.refresh_interval, 30);
    let sp = span("white", "black", " ");
    assert_eq!(
        update.content,
        format!(
            "{}{}{}{}{}",
            span("grey", "black", "Old"),
            sp,
            span("white", "black", "CI"),
            sp,
            span("white", "red", "b #12")
        )
    );
}

#[test]
fn missing_client_gives_no_update() {
    let config = WidgetConfig {
        groups: vec![group("A", &["a"]), group("B", &["b"])],
        update_frequency: 5,
    };
    let widget = JenkinsWidget::new(config);
    let polls = vec![
        vec![JobPoll::Answered(build("a #1", true, None))],
        vec![JobPoll::NoClient],
    ];
    assert!(widget.update(&polls).is_none());
    assert!(lacks_client(&vec![JobPoll::Unavailable, JobPoll::NoClient]));
    assert!(!lacks_client(&vec![JobPoll::Unavailable]));
}

#[test]
fn zero_frequency_is_passed_on() {
    let widget = JenkinsWidget::new(WidgetConfig { groups: Vec::new(), update_frequency: 0 });
    let update = widget.update(&Vec::new()).unwrap();
    assert_eq!(update.refresh_interval, 0);
    assert_eq!(update.content, "");
}
