use silencer::utils::{
    file_name_of, get_foreground_pid, get_process_name_by_pid, placeholder_for, resolve_next,
    resolve_start, system_process_name, Access, Answer, Query, Step,
};

fn text(s: &str) -> Answer {
    Answer::Text(s.to_string())
}

fn asks(step: &Step, query: Query) -> bool {
    match step {
        Step::Ask(asked) => *asked == query,
        Step::Done(_) => false,
    }
}

fn names(step: &Step, name: &str) -> bool {
    match step {
        Step::Ask(_) => false,
        Step::Done(found) => found == name,
    }
}

#[test]
fn foreground_pid_of_a_focused_window() {
    assert_eq!(get_foreground_pid(Some(4242)), 4242);
    assert_eq!(get_foreground_pid(Some(0)), 0);
    assert_eq!(get_foreground_pid(Some(u32::MAX)), u32::MAX);
}

#[test]
fn foreground_pid_without_a_focused_window() {
    assert_eq!(get_foreground_pid(None), 0);
}

#[test]
fn file_name_follows_the_last_separator() {
    assert_eq!(file_name_of("C:\\Program Files\\Game\\game.exe"), "game.exe");
    assert_eq!(file_name_of("\\a"), "a");
    assert_eq!(file_name_of("a\\b\\c"), "c");
}

#[test]
fn file_name_of_a_path_without_separator_is_the_path() {
    assert_eq!(file_name_of("game.exe"), "game.exe");
    assert_eq!(file_name_of(""), "");
    assert_eq!(file_name_of("a/b"), "a/b");
}

#[test]
fn file_name_of_a_path_that_ends_in_a_separator_is_empty() {
    assert_eq!(file_name_of("C:\\dir\\"), "");
    assert_eq!(file_name_of("\\"), "");
}

#[test]
fn file_name_keeps_characters_beyond_ascii() {
    assert_eq!(file_name_of("D:\\游戏\\静音.exe"), "静音.exe");
}

#[test]
fn fixed_names() {
    assert_eq!(system_process_name(), "System");
    assert_eq!(placeholder_for(1234), "Process (1234)");
    assert_eq!(placeholder_for(0), "Process (0)");
    assert_eq!(placeholder_for(u32::MAX), "Process (4294967295)");
}

#[test]
fn pid_zero_is_system_and_is_never_looked_up() {
    assert!(names(&resolve_start(0), "System"));
    assert_eq!(get_process_name_by_pid(0, &vec![]), "System");
    assert_eq!(
        get_process_name_by_pid(0, &vec![Answer::Opened, text("C:\\x\\y.exe")]),
        "System"
    );
}

#[test]
fn resolution_starts_with_the_least_rights() {
    assert!(asks(&resolve_start(1), Query::Open(Access::Limited)));
    assert!(asks(&resolve_start(u32::MAX), Query::Open(Access::Limited)));
}

#[test]
fn image_path_is_preferred() {
    let answers = vec![Answer::Opened, text("C:\\Games\\game.exe"), text("legacy.exe")];
    assert_eq!(get_process_name_by_pid(77, &answers), "game.exe");
}

#[test]
fn base_name_is_asked_when_the_image_path_fails() {
    let answers = vec![Answer::Opened, Answer::Failed, text("legacy.exe")];
    assert_eq!(get_process_name_by_pid(77, &answers), "legacy.exe");
}

#[test]
fn base_name_is_asked_when_the_path_has_no_file_name() {
    let answers = vec![Answer::Opened, text("C:\\Games\\"), text("legacy.exe")];
    assert_eq!(get_process_name_by_pid(77, &answers), "legacy.exe");
    let answers = vec![Answer::Opened, text(""), text("legacy.exe")];
    assert_eq!(get_process_name_by_pid(77, &answers), "legacy.exe");
}

#[test]
fn broader_rights_are_tried_when_the_least_fail_to_open() {
    let answers = vec![Answer::Failed, Answer::Opened, text("C:\\a\\b.exe")];
    assert_eq!(get_process_name_by_pid(77, &answers), "b.exe");
}

#[test]
fn broader_rights_are_tried_when_the_least_yield_no_name() {
    let answers = vec![
        Answer::Opened,
        Answer::Failed,
        text(""),
        Answer::Opened,
        Answer::Failed,
        text("late.exe"),
    ];
    assert_eq!(get_process_name_by_pid(77, &answers), "late.exe");
}

#[test]
fn placeholder_when_everything_fails() {
    assert_eq!(get_process_name_by_pid(1234, &vec![]), "Process (1234)");
    assert_eq!(
        get_process_name_by_pid(1234, &vec![Answer::Failed, Answer::Failed]),
        "Process (1234)"
    );
    let answers = vec![
        Answer::Opened,
        Answer::Failed,
        Answer::Failed,
        Answer::Opened,
        Answer::Failed,
        Answer::Failed,
    ];
    assert_eq!(get_process_name_by_pid(5, &answers), "Process (5)");
}

#[test]
fn missing_answers_count_as_failures() {
    assert_eq!(get_process_name_by_pid(9, &vec![Answer::Opened]), "Process (9)");
    assert_eq!(get_process_name_by_pid(9, &vec![Answer::Failed, Answer::Opened]), "Process (9)");
}

#[test]
fn answers_beyond_the_last_question_are_not_read() {
    let answers = vec![Answer::Opened, text("C:\\a.exe"), text("b.exe"), text("c.exe")];
    assert_eq!(get_process_name_by_pid(9, &answers), "a.exe");
}

#[test]
fn an_answer_of_the_wrong_kind_counts_as_a_failure() {
    assert!(asks(&resolve_next(3, Query::Open(Access::Limited), &text("x")), Query::Open(Access::Full)));
    assert!(asks(
        &resolve_next(3, Query::ImagePath(Access::Limited), &Answer::Opened),
        Query::BaseName(Access::Limited)
    ));
    assert!(names(&resolve_next(3, Query::BaseName(Access::Full), &Answer::Opened), "Process (3)"));
}

#[test]
fn steps_after_an_open() {
    for access in [Access::Limited, Access::Full] {
        assert!(asks(&resolve_next(3, Query::Open(access), &Answer::Opened), Query::ImagePath(access)));
    }
    assert!(asks(&resolve_next(3, Query::Open(Access::Limited), &Answer::Failed), Query::Open(Access::Full)));
    assert!(names(&resolve_next(3, Query::Open(Access::Full), &Answer::Failed), "Process (3)"));
}

#[test]
fn steps_after_an_image_path() {
    for access in [Access::Limited, Access::Full] {
        assert!(names(&resolve_next(3, Query::ImagePath(access), &text("C:\\d\\e.exe")), "e.exe"));
        assert!(asks(&resolve_next(3, Query::ImagePath(access), &text("C:\\d\\")), Query::BaseName(access)));
        assert!(asks(&resolve_next(3, Query::ImagePath(access), &Answer::Failed), Query::BaseName(access)));
    }
}

#[test]
fn steps_after_a_base_name() {
    for access in [Access::Limited, Access::Full] {
        assert!(names(&resolve_next(3, Query::BaseName(access), &text("e.exe")), "e.exe"));
        assert!(names(&resolve_next(3, Query::BaseName(access), &text("C:\\d\\e.exe")), "C:\\d\\e.exe"));
    }
    assert!(asks(&resolve_next(3, Query::BaseName(Access::Limited), &text("")), Query::Open(Access::Full)));
    assert!(asks(&resolve_next(3, Query::BaseName(Access::Limited), &Answer::Failed), Query::Open(Access::Full)));
    assert!(names(&resolve_next(3, Query::BaseName(Access::Full), &text("")), "Process (3)"));
    assert!(names(&resolve_next(3, Query::BaseName(Access::Full), &Answer::Failed), "Process (3)"));
}

#[test]
fn stepping_by_hand_agrees_with_the_whole_run() {
    let scripts: Vec<Vec<Answer>> = vec![
        vec![],
        vec![Answer::Opened, text("C:\\x\\y.exe")],
        vec![Answer::Opened, Answer::Failed, text("z.exe")],
        vec![Answer::Failed, Answer::Opened, text("\\"), text("w.exe")],
        vec![Answer::Opened, text(""), text(""), Answer::Failed],
    ];
    for script in scripts {
        let mut step = resolve_start(8);
        let mut k = 0;
        let name = loop {
            match step {
                Step::Done(name) => break name,
                Step::Ask(query) => {
                    let answer = script.get(k).cloned().unwrap_or(Answer::Failed);
                    step = resolve_next(8, query, &answer);
                    k += 1;
                }
            }
        };
        assert!(k <= 6);
        assert!(!name.is_empty());
        assert_eq!(name, get_process_name_by_pid(8, &script));
    }
}
