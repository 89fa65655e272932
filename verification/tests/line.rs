use statusline::compose::{
    context_display, cost_display, duration_display, lines_display, model_display, path_hidden,
    push_joined, push_place, segments_display,
};
use statusline::{statusline, CostLevel, CostReading, RepoOutputs, SessionDescriptor};

const SEPARATOR: &str = " \x1b[90m• \x1b[0m";

fn chars(text: &str) -> Vec<char> {
    text.chars().collect()
}

fn no_repo() -> RepoOutputs {
    RepoOutputs { work_tree: None, branch: None, diff: None }
}

fn repo(branch: &str, diff: &str) -> RepoOutputs {
    RepoOutputs {
        work_tree: Some(String::from("true\n")),
        branch: Some(String::from(branch)),
        diff: Some(String::from(diff)),
    }
}

fn session(dir: Option<&str>) -> SessionDescriptor {
    SessionDescriptor {
        current_dir: dir.map(String::from),
        model: None,
        transcript_path: None,
        lines_added: 0,
        lines_removed: 0,
        cost: None,
    }
}

fn cost(level: CostLevel, text: &str) -> Option<CostReading> {
    Some(CostReading { level, text: String::from(text) })
}

#[test]
fn end_to_end_outside_a_repository() {
    let input: serde_json::Value = serde_json::from_str(
        "{\"workspace\":{\"current_dir\":\"/home/u/proj\"},\"model\":{\"display_name\":\"X\"},\
         \"cost\":{\"total_cost_usd\":1.5,\"total_lines_added\":3,\"total_lines_removed\":1}}",
    )
    .unwrap();
    let described = SessionDescriptor::from_json(&input, cost(CostLevel::UnderFive, "$1.50"));
    let line = statusline(false, false, &described, None, &no_repo(), "/home/u");
    let expected = format!(
        "📁 \x1b[36m~/proj\x1b[0m{s}🧠 \x1b[38;5;208mX{s}📊 \x1b[90m0%\x1b[0m{s}\x1b[32m+3\x1b[0m \x1b[31m-1\x1b[0m{s}💰 \x1b[32m$1.50\x1b[0m",
        s = SEPARATOR
    );
    assert_eq!(line, expected);
    assert!(line.starts_with("📁"));
    assert!(!line.contains("⏱"));
    assert!(!line.contains("📝"));
    assert!(!line.contains("\x1b[32m["));
}

#[test]
fn no_working_directory_gives_the_placeholder() {
    assert_eq!(statusline(false, false, &session(None), None, &no_repo(), "/home/u"), "\x1b[36m~\x1b[0m");
    let mut full = session(None);
    full.model = Some(String::from("X"));
    full.lines_added = 9;
    full.cost = cost(CostLevel::TwentyOrMore, "$99.00");
    let transcript = "{\"timestamp\":1}\n{\"timestamp\":9000000}\n";
    assert_eq!(
        statusline(true, true, &full, Some(transcript), &repo("main\n", "1\t1\tx\n"), "/"),
        "\x1b[36m~\x1b[0m"
    );
}

#[test]
fn line_on_a_branch_shows_path_and_branch() {
    let line = statusline(
        false,
        false,
        &session(Some("/home/u/Projects/demo")),
        None,
        &repo("main\n", ""),
        "/home/u",
    );
    assert_eq!(
        line,
        format!(
            "⚡ \x1b[36m~/Projects/demo \x1b[0m\x1b[32m[main]\x1b[0m{}📊 \x1b[90m0%\x1b[0m",
            SEPARATOR
        )
    );
}

#[test]
fn short_mode_hides_a_project_directly_under_projects() {
    let line = statusline(
        true,
        false,
        &session(Some("/home/u/Projects/demo")),
        None,
        &repo("main\n", ""),
        "/home/u",
    );
    assert_eq!(line, format!("⚡ \x1b[32m[main]\x1b[0m{}📊 \x1b[90m0%\x1b[0m", SEPARATOR));
}

#[test]
fn short_mode_shows_every_other_path() {
    for dir in ["/home/u/Projects/demo/sub", "/home/u/work/demo", "/srv/Projects/demo"] {
        let line =
            statusline(true, false, &session(Some(dir)), None, &repo("main\n", ""), "/home/u");
        let shown = match dir.strip_prefix("/home/u") {
            Some(rest) => format!("~{}", rest),
            None => String::from(dir),
        };
        assert_eq!(
            line,
            format!(
                "⚡ \x1b[36m{} \x1b[0m\x1b[32m[main]\x1b[0m{}📊 \x1b[90m0%\x1b[0m",
                shown, SEPARATOR
            )
        );
    }
}

#[test]
fn short_mode_without_branch_shows_the_path() {
    let line = statusline(
        true,
        false,
        &session(Some("/home/u/Projects/demo")),
        None,
        &no_repo(),
        "/home/u",
    );
    assert_eq!(line, format!("📁 \x1b[36m~/Projects/demo\x1b[0m{}📊 \x1b[90m0%\x1b[0m", SEPARATOR));
}

#[test]
fn repository_without_branch_keeps_the_repository_glyph() {
    let outputs = RepoOutputs {
        work_tree: Some(String::from("true\n")),
        branch: None,
        diff: Some(String::from("2\t0\tx\n")),
    };
    let line = statusline(false, false, &session(Some("/srv/x  ")), None, &outputs, "/home/u");
    assert_eq!(
        line,
        format!(
            "⚡ \x1b[36m/srv/x\x1b[0m{s}📊 \x1b[90m0%\x1b[0m{s}📝 \x1b[32m+2\x1b[0m \x1b[31m-0\x1b[0m",
            s = SEPARATOR
        )
    );
}

#[test]
fn branch_and_diff_are_ignored_outside_a_repository() {
    let outputs = RepoOutputs {
        work_tree: Some(String::from("false\n")),
        branch: Some(String::from("main\n")),
        diff: Some(String::from("2\t0\tx\n")),
    };
    let line = statusline(false, false, &session(Some("/srv/x")), None, &outputs, "/home/u");
    assert_eq!(line, format!("📁 \x1b[36m/srv/x\x1b[0m{}📊 \x1b[90m0%\x1b[0m", SEPARATOR));
}

#[test]
fn all_segments_come_in_their_order() {
    let mut described = session(Some("/home/u/proj"));
    described.model = Some(String::from("Opus"));
    described.lines_added = 12;
    described.cost = cost(CostLevel::UnderTwenty, "$7.25");
    let transcript = "{\"timestamp\":\"2024-01-01T00:00:00Z\",\"message\":{\"role\":\"assistant\",\"usage\":{\"input_tokens\":120000}}}\n\
                      {\"timestamp\":\"2024-01-01T01:02:05Z\"}\n";
    let line = statusline(
        false,
        false,
        &described,
        Some(transcript),
        &repo("dev\n", "4\t5\tx\n"),
        "/home/u",
    );
    let expected = format!(
        "⚡ \x1b[36m~/proj \x1b[0m\x1b[32m[dev]\x1b[0m{s}🧠 \x1b[38;5;208mOpus{s}📊 \x1b[38;5;208m75%\x1b[0m{s}⏱️ \x1b[38;5;245m1h2m\x1b[0m{s}\x1b[32m+12\x1b[0m \x1b[31m-0\x1b[0m{s}💰 \x1b[33m$7.25\x1b[0m{s}📝 \x1b[32m+4\x1b[0m \x1b[31m-5\x1b[0m",
        s = SEPARATOR
    );
    assert_eq!(line, expected);
    assert_eq!(
        segments_display(&described, Some(transcript), "D"),
        format!(
            "{s}🧠 \x1b[38;5;208mOpus{s}📊 \x1b[38;5;208m75%\x1b[0m{s}⏱️ \x1b[38;5;245m1h2m\x1b[0m{s}\x1b[32m+12\x1b[0m \x1b[31m-0\x1b[0m{s}💰 \x1b[33m$7.25\x1b[0m{s}D",
            s = SEPARATOR
        )
    );
}

#[test]
fn context_colour_goes_by_the_number_shown() {
    assert_eq!(context_display(0), "📊 \x1b[90m0%\x1b[0m");
    assert_eq!(context_display(79_199), "📊 \x1b[90m49%\x1b[0m");
    assert_eq!(context_display(79_200), "📊 \x1b[33m50%\x1b[0m");
    assert_eq!(context_display(111_199), "📊 \x1b[33m69%\x1b[0m");
    assert_eq!(context_display(111_200), "📊 \x1b[38;5;208m70%\x1b[0m");
    assert_eq!(context_display(143_199), "📊 \x1b[38;5;208m89%\x1b[0m");
    assert_eq!(context_display(143_200), "📊 \x1b[31m90%\x1b[0m");
    assert_eq!(context_display(144_000), "📊 \x1b[31m90.0%\x1b[0m");
    assert_eq!(context_display(200_000), "📊 \x1b[31m100.0%\x1b[0m");
}

#[test]
fn cost_colour_goes_by_the_band() {
    assert_eq!(cost_display(&cost(CostLevel::UnderFive, "$4.99")), "💰 \x1b[32m$4.99\x1b[0m");
    assert_eq!(cost_display(&cost(CostLevel::UnderFive, "$5.00")), "💰 \x1b[32m$5.00\x1b[0m");
    assert_eq!(cost_display(&cost(CostLevel::UnderTwenty, "$5.00")), "💰 \x1b[33m$5.00\x1b[0m");
    assert_eq!(cost_display(&cost(CostLevel::TwentyOrMore, "$20.00")), "💰 \x1b[31m$20.00\x1b[0m");
    assert_eq!(cost_display(&cost(CostLevel::UnderFive, "$0.004")), "💰 \x1b[32m$0.004\x1b[0m");
}

#[test]
fn cost_segment_is_absent_for_no_cost_and_for_zero() {
    assert_eq!(cost_display(&None), "");
    assert_eq!(cost_display(&cost(CostLevel::Zero, "$0.000")), "");
}

#[test]
fn single_segments_are_absent_without_their_data() {
    assert_eq!(model_display(None), "");
    assert_eq!(model_display(Some("X")), "🧠 \x1b[38;5;208mX");
    assert_eq!(model_display(Some("")), "🧠 \x1b[38;5;208m");
    assert_eq!(duration_display(None), "");
    assert_eq!(duration_display(Some("2m")), "⏱️ \x1b[38;5;245m2m\x1b[0m");
    assert_eq!(lines_display(0, 0), "");
    assert_eq!(lines_display(0, 4), "\x1b[32m+0\x1b[0m \x1b[31m-4\x1b[0m");
    assert_eq!(lines_display(u64::MAX, 1), "\x1b[32m+18446744073709551615\x1b[0m \x1b[31m-1\x1b[0m");
}

#[test]
fn empty_segment_brings_no_separator() {
    let mut out = String::from("head");
    push_joined(&mut out, "");
    assert_eq!(out, "head");
    push_joined(&mut out, "seg");
    assert_eq!(out, format!("head{}seg", SEPARATOR));
}

#[test]
fn path_is_hidden_only_for_the_standard_layout() {
    assert!(path_hidden(true, "main", &chars("/home/u/Projects/demo"), "/home/u"));
    assert!(!path_hidden(false, "main", &chars("/home/u/Projects/demo"), "/home/u"));
    assert!(!path_hidden(true, "", &chars("/home/u/Projects/demo"), "/home/u"));
    assert!(!path_hidden(true, "main", &chars("/home/u/Projects/demo/"), "/home/u"));
    assert!(!path_hidden(true, "main", &chars("/home/u/Projects/a/demo"), "/home/u"));
    assert!(path_hidden(true, "main", &chars("/home/u/Projects/"), "/home/u"));
    assert!(path_hidden(true, "main", &chars("/Projects/demo"), ""));
}

#[test]
fn place_shows_home_at_the_start_as_a_tilde() {
    let mut out = String::new();
    push_place(&mut out, false, "/home/u/a/home/u", "", "/home/u");
    assert_eq!(out, "\x1b[36m~/a/home/u\x1b[0m");
    let mut on_branch = String::new();
    push_place(&mut on_branch, false, "/home/u", "main", "/home/u");
    assert_eq!(on_branch, "\x1b[36m~ \x1b[0m\x1b[32m[main]\x1b[0m");
    let mut rootless = String::new();
    push_place(&mut rootless, false, "/a/b", "", "/");
    assert_eq!(rootless, "\x1b[36m~a/b\x1b[0m");
}

#[test]
fn home_that_is_no_prefix_leaves_the_path_as_it_is() {
    let line = statusline(false, false, &session(Some("/srv/home/u/x")), None, &no_repo(), "/home/u");
    assert_eq!(line, format!("📁 \x1b[36m/srv/home/u/x\x1b[0m{}📊 \x1b[90m0%\x1b[0m", SEPARATOR));
    let on_branch = statusline(
        true,
        false,
        &session(Some("/srv/home/u/x")),
        None,
        &repo("main\n", ""),
        "/home/u",
    );
    assert_eq!(
        on_branch,
        format!(
            "⚡ \x1b[36m/srv/home/u/x \x1b[0m\x1b[32m[main]\x1b[0m{}📊 \x1b[90m0%\x1b[0m",
            SEPARATOR
        )
    );
}
