use statusline::git::{format_diff, push_changes, read_diff, read_line_changes, sum_changes, DiffStat};
use statusline::{get_git_branch, get_git_diff_lines, home_dir, is_git_repo};

fn chars(text: &str) -> Vec<char> {
    text.chars().collect()
}

#[test]
fn work_tree_answer_is_true_after_trimming() {
    assert!(is_git_repo(Some("true\n")));
    assert!(is_git_repo(Some("  true  ")));
    assert!(is_git_repo(Some("true")));
    assert!(!is_git_repo(Some("false\n")));
    assert!(!is_git_repo(Some("")));
    assert!(!is_git_repo(Some("True")));
    assert!(!is_git_repo(Some("true true")));
    assert!(!is_git_repo(None));
}

#[test]
fn branch_is_the_trimmed_output() {
    assert_eq!(get_git_branch(Some("main\n")), "main");
    assert_eq!(get_git_branch(Some("  feature/x \r\n")), "feature/x");
    assert_eq!(get_git_branch(Some("\n")), "");
    assert_eq!(get_git_branch(None), "");
}

#[test]
fn diff_line_gives_its_first_two_fields() {
    assert_eq!(read_line_changes(&chars("3\t1\tsrc/a.rs")), (3, 1));
    assert_eq!(read_line_changes(&chars("3\t1")), (3, 1));
    assert_eq!(read_line_changes(&chars("-\t-\timage.png")), (0, 0));
    assert_eq!(read_line_changes(&chars("3\t-\tx")), (3, 0));
    assert_eq!(read_line_changes(&chars("x\t4\tx")), (0, 4));
    assert_eq!(read_line_changes(&chars("3 1 x")), (0, 0));
    assert_eq!(read_line_changes(&chars("3")), (0, 0));
    assert_eq!(read_line_changes(&chars("")), (0, 0));
    assert_eq!(read_line_changes(&chars("\t")), (0, 0));
    assert_eq!(read_line_changes(&chars("4294967295\t4294967296\tx")), (4_294_967_295, 0));
}

#[test]
fn diff_totals_are_summed_over_the_lines() {
    let output = "3\t1\tsrc/a.rs\n-\t-\timage.png\n10\t0\tsrc/b.rs\n";
    assert_eq!(read_diff(Some(output)), DiffStat { added: 13, removed: 1 });
    assert_eq!(read_diff(Some("")), DiffStat { added: 0, removed: 0 });
    assert_eq!(read_diff(None), DiffStat { added: 0, removed: 0 });
    let lines = vec![chars("4294967295\t4294967295\ta"), chars("4294967295\t1\tb")];
    assert_eq!(sum_changes(&lines), DiffStat { added: 8_589_934_590, removed: 4_294_967_296 });
}

#[test]
fn diff_segment_shows_added_and_removed() {
    assert_eq!(
        get_git_diff_lines(Some("3\t1\tsrc/a.rs\n-\t-\timage.png\n10\t0\tsrc/b.rs\n")),
        "📝 \x1b[32m+13\x1b[0m \x1b[31m-1\x1b[0m"
    );
    assert_eq!(
        format_diff(DiffStat { added: 0, removed: 2 }),
        "📝 \x1b[32m+0\x1b[0m \x1b[31m-2\x1b[0m"
    );
    let mut out = String::from(">");
    push_changes(&mut out, 7, 0);
    assert_eq!(out, ">\x1b[32m+7\x1b[0m \x1b[31m-0\x1b[0m");
}

#[test]
fn diff_segment_is_empty_without_changes() {
    assert_eq!(get_git_diff_lines(Some("")), "");
    assert_eq!(get_git_diff_lines(Some("0\t0\tsrc/a.rs\n")), "");
    assert_eq!(get_git_diff_lines(Some("-\t-\timage.png\n")), "");
    assert_eq!(get_git_diff_lines(None), "");
    assert_eq!(format_diff(DiffStat { added: 0, removed: 0 }), "");
}

#[test]
fn home_falls_back_to_the_root() {
    assert_eq!(home_dir(Some("/home/u")), "/home/u");
    assert_eq!(home_dir(Some(" ")), " ");
    assert_eq!(home_dir(Some("")), "/");
    assert_eq!(home_dir(None), "/");
}
