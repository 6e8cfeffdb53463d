use satori::display::{status_tone, StatusTone};
use satori::file_token_storage::FileTokenStorage;
use satori::interactive_satori::{
    contest_labels, contest_question_of, contest_scope_of, contest_substitute, login_round, problem_labels,
    problem_query_of, problem_question_of, problem_substitute,
};
use satori::resolution::{after_resolution, ResolutionStep};
use satori::paths::{details_path_of, problems_path_of, results_path_of};
use satori::page_text::{nth_field, remove_all, username_from_header};
use satori::prompt::option_index;
use satori::resolve::{
    find_unique_contest, find_unique_problem, resolve_contest, resolve_problem, UniqueSearchResult,
};
use satori::retry::{after_attempt, after_login, AttemptStep, LoginStep};
use satori::satori::{Contest, Problem, SatoriError, ShortResult};
use satori::simple_satori::{
    fetch_outcome, latest_status, login_confirmed, page_if_logged_in, parsed, posted_token,
};
use satori::text::{decimal_string, has_prefix, same_text};
use satori::token_storage::token_from_contents;

fn contest(id: &str, name: &str) -> Contest {
    Contest { id: id.to_string(), name: name.to_string(), description: String::new() }
}

fn problem(id: &str, code: &str, name: &str) -> Problem {
    Problem {
        contest_id: "1".to_string(),
        id: id.to_string(),
        code: code.to_string(),
        name: name.to_string(),
        pdf_url: String::new(),
        deadline: String::new(),
        submit_url: String::new(),
    }
}

fn algo_contests() -> Vec<Contest> {
    vec![contest("1", "Algo1"), contest("2", "Algo2"), contest("30", "Graphs")]
}

#[test]
fn prefix_test_is_exact() {
    assert!(has_prefix("Algo1", "Algo"));
    assert!(has_prefix("Algo", "Algo"));
    assert!(has_prefix("Algo", ""));
    assert!(!has_prefix("Alg", "Algo"));
    assert!(!has_prefix("algo", "Algo"));
    assert!(!has_prefix("xAlgo", "Algo"));
    assert!(has_prefix("Zadanie ą", "Zadanie ą"));
}

#[test]
fn decimal_rendering() {
    assert_eq!(decimal_string(0), "0");
    assert_eq!(decimal_string(7), "7");
    assert_eq!(decimal_string(10), "10");
    assert_eq!(decimal_string(1234567890), "1234567890");
    assert_eq!(decimal_string(usize::MAX), usize::MAX.to_string());
}

#[test]
fn unique_contest_match_resolves() {
    let r = resolve_contest(algo_contests(), "Gr");
    match r {
        Ok(c) => assert_eq!(c.id, "30"),
        other => panic!("unexpected {:?}", other),
    }
    let r = resolve_contest(algo_contests(), "2");
    match r {
        Ok(c) => assert_eq!(c.name, "Algo2"),
        other => panic!("unexpected {:?}", other),
    }
}

#[test]
fn no_contest_match_is_not_found() {
    assert!(matches!(resolve_contest(algo_contests(), "Zzz"), Err(SatoriError::ContestNotFound)));
    assert!(matches!(resolve_contest(Vec::new(), "A"), Err(SatoriError::ContestNotFound)));
    assert!(matches!(resolve_contest(algo_contests(), "algo"), Err(SatoriError::ContestNotFound)));
}

#[test]
fn several_contest_matches_are_ambiguous_in_page_order() {
    match resolve_contest(algo_contests(), "Algo") {
        Err(SatoriError::AmbiguousContest(e)) => {
            assert_eq!(e.name, "Algo");
            let ids: Vec<&str> = e.candidates.iter().map(|c| c.id.as_str()).collect();
            assert_eq!(ids, vec!["1", "2"]);
        }
        other => panic!("unexpected {:?}", other),
    }
    match resolve_contest(algo_contests(), "") {
        Err(SatoriError::AmbiguousContest(e)) => assert_eq!(e.candidates.len(), 3),
        other => panic!("unexpected {:?}", other),
    }
}

#[test]
fn contest_matches_by_id_or_name_prefix() {
    // "3" begins the id "30" only; "A" begins two names.
    match find_unique_contest(algo_contests(), "3") {
        UniqueSearchResult::Found(c) => assert_eq!(c.name, "Graphs"),
        _ => panic!("expected one match"),
    }
    match find_unique_contest(algo_contests(), "A") {
        UniqueSearchResult::Ambiguous(v) => assert_eq!(v.len(), 2),
        _ => panic!("expected two matches"),
    }
    assert!(matches!(find_unique_contest(algo_contests(), "Algo3"), UniqueSearchResult::NotFound));
}

#[test]
fn problem_matches_by_id_code_or_name_prefix() {
    let problems = vec![problem("55", "A", "Sum"), problem("56", "B", "Sorting"), problem("", "C", "Trees")];
    match resolve_problem(problems, "A") {
        Ok(p) => assert_eq!(p.id, "55"),
        other => panic!("unexpected {:?}", other),
    }
    let problems = vec![problem("55", "A", "Sum"), problem("56", "B", "Sorting"), problem("", "C", "Trees")];
    match resolve_problem(problems, "S") {
        Err(SatoriError::AmbiguousProblem(e)) => {
            assert_eq!(e.name, "S");
            let codes: Vec<&str> = e.candidates.iter().map(|p| p.code.as_str()).collect();
            assert_eq!(codes, vec!["A", "B"]);
        }
        other => panic!("unexpected {:?}", other),
    }
    let problems = vec![problem("55", "A", "Sum")];
    assert!(matches!(resolve_problem(problems, "X"), Err(SatoriError::ProblemNotFound)));
    let problems = vec![problem("55", "A", "Sum"), problem("56", "B", "Sorting")];
    match find_unique_problem(problems, "56") {
        UniqueSearchResult::Found(p) => assert_eq!(p.code, "B"),
        _ => panic!("expected one match"),
    }
}

#[test]
fn chosen_candidate_id_resolves_to_it() {
    let error = match resolve_contest(algo_contests(), "Algo") {
        Err(SatoriError::AmbiguousContest(e)) => e,
        other => panic!("unexpected {:?}", other),
    };
    let query = contest_substitute(&error, Some(1)).unwrap();
    assert_eq!(query, "2");
    match resolve_contest(algo_contests(), &query) {
        Ok(c) => assert_eq!(c.id, error.candidates[1].id),
        other => panic!("unexpected {:?}", other),
    }
    assert_eq!(contest_substitute(&error, Some(0)).unwrap(), "1");
    assert!(matches!(contest_substitute(&error, Some(2)), Err(SatoriError::InvalidChoice)));
    assert!(matches!(contest_substitute(&error, None), Err(SatoriError::InvalidChoice)));
}

#[test]
fn chosen_problem_substitution() {
    let mut archived = problem("", "C", "Sorting");
    archived.contest_id = String::new();
    let problems = vec![problem("55", "A", "Sum"), archived];
    let error = match resolve_problem(problems, "S") {
        Err(SatoriError::AmbiguousProblem(e)) => e,
        other => panic!("unexpected {:?}", other),
    };
    assert_eq!(problem_substitute(&error, "Algo1", Some(0)).unwrap(), ("1".to_string(), "55".to_string()));
    assert_eq!(
        problem_substitute(&error, "Algo1", Some(1)).unwrap(),
        ("Algo1".to_string(), "C".to_string())
    );
    assert!(matches!(problem_substitute(&error, "Algo1", Some(5)), Err(SatoriError::InvalidChoice)));
    assert!(matches!(problem_substitute(&error, "Algo1", None), Err(SatoriError::InvalidChoice)));
    assert_eq!(contest_scope_of("Algo", &problem("55", "A", "Sum")), "1");
}

#[test]
fn paths_of_pages() {
    assert_eq!(problems_path_of("12"), "/contest/12/problems");
    assert_eq!(details_path_of("12", "900"), "/contest/12/results/900");
    assert_eq!(results_path_of("12", None, None), "/contest/12/results");
    assert_eq!(results_path_of("12", Some(5), None), "/contest/12/results?results_limit=5");
    assert_eq!(results_path_of("12", None, Some("77")), "/contest/12/results?results_filter_problem=77");
    assert_eq!(
        results_path_of("1", Some(10), Some("55")),
        "/contest/1/results?results_limit=10&results_filter_problem=55"
    );
}

#[test]
fn page_classification() {
    assert_eq!(page_if_logged_in("body".to_string(), Some("alice".to_string())).unwrap(), "body");
    assert!(matches!(page_if_logged_in("body".to_string(), None), Err(SatoriError::NotLoggedIn)));
    assert_eq!(parsed(Some(3)).unwrap(), 3);
    assert!(matches!(parsed::<u8>(None), Err(SatoriError::ParsingFailed)));
}

#[test]
fn login_check_maps_missing_user_to_login_failure() {
    assert!(matches!(login_confirmed(Err(SatoriError::NotLoggedIn)), Err(SatoriError::LoginFailed)));
    assert!(matches!(
        login_confirmed(Err(SatoriError::ConnectionFailed)),
        Err(SatoriError::ConnectionFailed)
    ));
    assert_eq!(login_confirmed(Ok("alice".to_string())).unwrap(), "alice");
}

#[test]
fn latest_status_is_first_row() {
    let rows = vec![
        ShortResult {
            submission_id: "9".to_string(),
            problem_code: "A".to_string(),
            time: "t2".to_string(),
            status: "TLE".to_string(),
        },
        ShortResult {
            submission_id: "8".to_string(),
            problem_code: "A".to_string(),
            time: "t1".to_string(),
            status: "OK".to_string(),
        },
    ];
    assert_eq!(latest_status(rows).unwrap(), "TLE");
    assert!(matches!(latest_status(Vec::new()), Err(SatoriError::SubmissionNotFound)));
}

#[test]
fn retry_steps() {
    assert!(matches!(after_attempt::<u8>(Err(SatoriError::NotLoggedIn)), AttemptStep::Reauthenticate));
    assert!(matches!(after_attempt(Ok(4u8)), AttemptStep::Finish(Ok(4))));
    assert!(matches!(
        after_attempt::<u8>(Err(SatoriError::ParsingFailed)),
        AttemptStep::Finish(Err(SatoriError::ParsingFailed))
    ));
    assert!(matches!(after_login(None), LoginStep::Abort(SatoriError::LoginFailed)));
    assert!(matches!(after_login(Some(Ok("alice".to_string()))), LoginStep::Reissue));
    assert!(matches!(after_login(Some(Err(SatoriError::LoginFailed))), LoginStep::PromptAgain));
    assert!(matches!(after_login(Some(Err(SatoriError::NotLoggedIn))), LoginStep::PromptAgain));
    assert!(matches!(
        after_login(Some(Err(SatoriError::ConnectionFailed))),
        LoginStep::Abort(SatoriError::ConnectionFailed)
    ));
}

#[test]
fn choice_numbering() {
    assert_eq!(option_index(1, 3), Some(0));
    assert_eq!(option_index(3, 3), Some(2));
    assert_eq!(option_index(0, 3), None);
    assert_eq!(option_index(4, 3), None);
    assert_eq!(option_index(1, 0), None);
}

#[test]
fn stored_token_contents() {
    assert_eq!(token_from_contents(String::new()), None);
    assert_eq!(token_from_contents("abc".to_string()), Some("abc".to_string()));
}

#[test]
fn chosen_problem_query() {
    assert_eq!(problem_query_of(&problem("55", "A", "Sum")), "55");
    assert_eq!(problem_query_of(&problem("", "C", "Trees")), "C");
}

#[test]
fn token_path_expansion() {
    let plain = FileTokenStorage::new("/var/tmp/token.txt");
    assert_eq!(plain.path(), "/var/tmp/token.txt");
    let other_user = FileTokenStorage::new("~bob/token.txt");
    assert_eq!(other_user.path(), "~bob/token.txt");
    let home = FileTokenStorage::new("~/token.txt");
    assert!(home.path().ends_with("/token.txt"));
    assert!(!home.path().starts_with('~'));
    let default = FileTokenStorage::default();
    assert!(default.path().ends_with("/.local/share/satori-cli/token.txt"));
    assert!(!default.path().starts_with('~'));
}

#[test]
fn verdict_tones() {
    assert_eq!(status_tone("OK"), StatusTone::Good);
    assert_eq!(status_tone("QUE"), StatusTone::Pending);
    assert_eq!(status_tone("ANS"), StatusTone::Bad);
    assert_eq!(status_tone("TLE"), StatusTone::Bad);
    assert_eq!(status_tone("RTE"), StatusTone::Bad);
    assert_eq!(status_tone("OKAY"), StatusTone::Bad);
    assert_eq!(status_tone(""), StatusTone::Bad);
}

#[test]
fn text_equality() {
    assert!(same_text("abc", "abc"));
    assert!(same_text("", ""));
    assert!(!same_text("abc", "ab"));
    assert!(!same_text("ab", "abc"));
    assert!(!same_text("abd", "abc"));
}

#[test]
fn header_user_names() {
    assert_eq!(username_from_header("Logged in as alice"), Some("alice".to_string()));
    assert_eq!(username_from_header("Register"), None);
    assert_eq!(username_from_header("bob"), Some("bob".to_string()));
    assert_eq!(username_from_header("Logged in as Logged in as x"), Some("x".to_string()));
    assert_eq!(username_from_header(""), Some(String::new()));
}

#[test]
fn removing_every_occurrence() {
    assert_eq!(remove_all("a-b-c", "-"), "abc");
    assert_eq!(remove_all("aaa", "aa"), "a");
    assert_eq!(remove_all("abc", ""), "abc");
    assert_eq!(remove_all("", "x"), "");
    for (s, p) in [("xyxyx", "xy"), ("żółw żółw", "ół"), ("abcabc", "bc")] {
        assert_eq!(remove_all(s, p), s.replace(p, ""));
    }
}

#[test]
fn fields_of_links() {
    assert_eq!(nth_field("/contest/123/", '/', 2), Some("123".to_string()));
    assert_eq!(nth_field("/contest/7/submit?select=55", '/', 2), Some("7".to_string()));
    assert_eq!(nth_field("/contest/7/submit?select=55", '=', 1), Some("55".to_string()));
    assert_eq!(nth_field("/contest", '/', 2), None);
    assert_eq!(nth_field("/contest/", '/', 2), Some(String::new()));
    assert_eq!(nth_field("", '/', 0), Some(String::new()));
    assert_eq!(nth_field("abc", '/', 0), Some("abc".to_string()));
    for (s, sep, n) in [("a//b/c", '/', 2usize), ("x=y=z", '=', 2), ("no", '=', 1)] {
        assert_eq!(nth_field(s, sep, n), s.split(sep).nth(n).map(|f| f.to_string()));
    }
}

#[test]
fn disambiguation_questions_and_options() {
    assert_eq!(contest_question_of("Algo"), "Contest Algo is ambiguous. Please choose one:");
    assert_eq!(problem_question_of("S"), "Problem S is ambiguous. Please choose one:");
    assert_eq!(contest_labels(&algo_contests()), vec!["Algo1", "Algo2", "Graphs"]);
    let problems = vec![problem("55", "A", "Sum"), problem("", "C", "Trees")];
    assert_eq!(problem_labels(&problems), vec!["[A] Sum", "[C] Trees"]);
    assert!(contest_labels(&Vec::new()).is_empty());
}

#[test]
fn login_round_passes_credentials_once() {
    let calls = std::cell::RefCell::new(Vec::new());
    let login = |l: &String, p: &String| {
        calls.borrow_mut().push((l.clone(), p.clone()));
        if p == "secret" {
            Ok(l.clone())
        } else {
            Err(SatoriError::LoginFailed)
        }
    };
    assert!(login_round(None, &login).is_none());
    assert!(calls.borrow().is_empty());
    let r = login_round(Some(("alice".to_string(), "secret".to_string())), &login);
    assert_eq!(r.unwrap().unwrap(), "alice");
    let r = login_round(Some(("alice".to_string(), "wrong".to_string())), &login);
    assert!(matches!(r, Some(Err(SatoriError::LoginFailed))));
    assert_eq!(
        *calls.borrow(),
        vec![
            ("alice".to_string(), "secret".to_string()),
            ("alice".to_string(), "wrong".to_string())
        ]
    );
}

#[test]
fn resolution_steps() {
    let ambiguous = || {
        resolve_contest(algo_contests(), "Algo").map(|_| ())
    };
    assert!(matches!(after_resolution(ambiguous(), true, true), ResolutionStep::ChooseContest(_)));
    assert!(matches!(
        after_resolution(ambiguous(), false, true),
        ResolutionStep::Finish(Err(SatoriError::AmbiguousContest(_)))
    ));
    let problems = vec![problem("55", "A", "Sum"), problem("56", "B", "Sorting")];
    let r = resolve_problem(problems, "S").map(|_| ());
    assert!(matches!(after_resolution(r, false, true), ResolutionStep::ChooseProblem(_)));
    let problems = vec![problem("55", "A", "Sum"), problem("56", "B", "Sorting")];
    let r = resolve_problem(problems, "S").map(|_| ());
    assert!(matches!(
        after_resolution(r, true, false),
        ResolutionStep::Finish(Err(SatoriError::AmbiguousProblem(_)))
    ));
    assert!(matches!(after_resolution(Ok(7u8), true, true), ResolutionStep::Finish(Ok(7))));
    assert!(matches!(
        after_resolution::<u8>(Err(SatoriError::ContestNotFound), true, true),
        ResolutionStep::Finish(Err(SatoriError::ContestNotFound))
    ));
}

#[test]
fn fetch_outcomes() {
    assert!(matches!(fetch_outcome(None, None), Err(SatoriError::ConnectionFailed)));
    assert!(matches!(fetch_outcome(None, Some("alice".to_string())), Err(SatoriError::ConnectionFailed)));
    assert!(matches!(fetch_outcome(Some("page".to_string()), None), Err(SatoriError::NotLoggedIn)));
    assert_eq!(fetch_outcome(Some("page".to_string()), Some("alice".to_string())).unwrap(), "page");
}

#[test]
fn kept_login_token() {
    assert_eq!(posted_token(None, Some("t".to_string())), None);
    assert_eq!(posted_token(Some(String::new()), None), None);
    assert_eq!(posted_token(Some(String::new()), Some("t".to_string())), Some("t".to_string()));
}
