use std::cell::{Cell, RefCell};

use satori::display::SatoriDisplay;
use satori::interactive_satori::InteractiveSatori;
use satori::mock::MockSatori;
use satori::parser::SatoriParser;
use satori::prompt::Prompt;
use satori::satori::{
    Contest, Problem, ResultDetails, Satori, SatoriError, SatoriResult, ShortResult,
};
use satori::satori_client::SatoriClient;
use satori::simple_satori::SimpleSatori;
use satori::token_storage::TokenStorage;

const VALID_TOKEN: &str = "tok-1";

/// A platform in memory. Pages are plain text: a first line `USER <name>`
/// when the session is valid, then one entity per line.
struct FakeClient {
    pages: Vec<(String, String)>,
    token: RefCell<Option<String>>,
    gets: RefCell<Vec<String>>,
    posts: Cell<usize>,
    expired_gets_left: Cell<usize>,
}

impl FakeClient {
    fn new(pages: Vec<(&str, &str)>) -> FakeClient {
        FakeClient {
            pages: pages.into_iter().map(|(p, b)| (p.to_string(), b.to_string())).collect(),
            token: RefCell::new(None),
            gets: RefCell::new(Vec::new()),
            posts: Cell::new(0),
            expired_gets_left: Cell::new(0),
        }
    }
}

impl SatoriClient for &FakeClient {
    fn get_token(&self) -> Option<String> {
        self.token.borrow().clone()
    }

    fn set_token(&self, token: &str) {
        *self.token.borrow_mut() = Some(token.to_string());
    }

    fn get_url(&self, path: &str) -> String {
        format!("https://example.test{}", path)
    }

    fn get(&self, path: &str) -> Option<String> {
        self.gets.borrow_mut().push(path.to_string());
        let body = self.pages.iter().find(|(p, _)| p == path).map(|(_, b)| b.clone())?;
        let expired = self.expired_gets_left.get() > 0;
        if expired {
            self.expired_gets_left.set(self.expired_gets_left.get() - 1);
        }
        if !expired && self.token.borrow().as_deref() == Some(VALID_TOKEN) {
            Some(format!("USER alice\n{}", body))
        } else {
            Some(format!("GUEST\n{}", body))
        }
    }

    fn post(&self, path: &str, data: &[(&str, &str)]) -> Option<String> {
        self.posts.set(self.posts.get() + 1);
        if path != "/login" {
            return None;
        }
        let ok = data.contains(&("login", "alice")) && data.contains(&("password", "secret"));
        if ok {
            *self.token.borrow_mut() = Some(VALID_TOKEN.to_string());
        } else {
            *self.token.borrow_mut() = Some("rejected".to_string());
        }
        Some(String::new())
    }

    fn submit_file(&self, path: &str, _file_name: &str, _file_path: &str) -> Option<String> {
        self.gets.borrow_mut().push(format!("submit {}", path));
        Some(String::new())
    }
}

struct FakeParser {}

fn rows<'a>(page: &'a str, tag: &str) -> Vec<Vec<&'a str>> {
    page.lines()
        .filter_map(|l| l.strip_prefix(tag))
        .map(|l| l.split('|').collect())
        .collect()
}

impl SatoriParser for FakeParser {
    fn find_username(&self, page: &str) -> Option<String> {
        page.lines().next()?.strip_prefix("USER ").map(|u| u.to_string())
    }

    fn find_joined_contests(&self, page: &str) -> Option<Vec<Contest>> {
        Some(
            rows(page, "C ")
                .into_iter()
                .map(|r| Contest {
                    id: r[0].to_string(),
                    name: r[1].to_string(),
                    description: String::new(),
                })
                .collect(),
        )
    }

    fn find_problems(&self, page: &str) -> Option<Vec<Problem>> {
        Some(
            rows(page, "P ")
                .into_iter()
                .map(|r| Problem {
                    contest_id: r.get(3).map(|c| c.to_string()).unwrap_or_default(),
                    id: r[0].to_string(),
                    code: r[1].to_string(),
                    name: r[2].to_string(),
                    pdf_url: String::new(),
                    deadline: String::new(),
                    submit_url: format!("/submit?select={}", r[0]),
                })
                .collect(),
        )
    }

    fn find_details(&self, _page: &str) -> Option<ResultDetails> {
        None
    }

    fn find_results(&self, page: &str) -> Option<Vec<ShortResult>> {
        Some(
            rows(page, "R ")
                .into_iter()
                .map(|r| ShortResult {
                    submission_id: r[0].to_string(),
                    problem_code: r[1].to_string(),
                    time: String::new(),
                    status: r[2].to_string(),
                })
                .collect(),
        )
    }
}

struct FakeStorage {
    token: RefCell<Option<String>>,
}

impl TokenStorage for &FakeStorage {
    fn load_token(&self) -> Option<String> {
        self.token.borrow().clone()
    }

    fn save_token(&self, token: &str) {
        *self.token.borrow_mut() = Some(token.to_string());
    }

    fn clear_token(&self) {
        *self.token.borrow_mut() = None;
    }
}

struct FakePrompt {
    credentials: RefCell<Vec<Option<(String, String)>>>,
    choices: RefCell<Vec<Option<usize>>>,
    asked: Cell<usize>,
    offered: RefCell<Vec<Vec<String>>>,
}

impl FakePrompt {
    fn new(credentials: Vec<Option<(&str, &str)>>, choices: Vec<Option<usize>>) -> FakePrompt {
        FakePrompt {
            credentials: RefCell::new(
                credentials
                    .into_iter()
                    .map(|c| c.map(|(l, p)| (l.to_string(), p.to_string())))
                    .collect(),
            ),
            choices: RefCell::new(choices),
            asked: Cell::new(0),
            offered: RefCell::new(Vec::new()),
        }
    }
}

impl Prompt for &FakePrompt {
    fn ask_for_credentials(&self) -> Option<(String, String)> {
        self.asked.set(self.asked.get() + 1);
        let mut c = self.credentials.borrow_mut();
        if c.is_empty() {
            None
        } else {
            c.remove(0)
        }
    }

    fn choose_option(&self, _message: &str, options: &Vec<String>) -> Option<usize> {
        self.offered.borrow_mut().push(options.clone());
        let mut c = self.choices.borrow_mut();
        if c.is_empty() {
            None
        } else {
            c.remove(0)
        }
    }
}

struct FakeDisplay {
    errors: Cell<usize>,
}

impl SatoriDisplay for &FakeDisplay {
    fn display_username(&self, _: &SatoriResult<String>) {}
    fn display_contests(&self, _: &SatoriResult<Vec<Contest>>) {}
    fn display_details(&self, _: &SatoriResult<ResultDetails>) {}
    fn display_login(&self, _: &SatoriResult<String>) {}
    fn display_logout(&self, _: &SatoriResult<()>) {}
    fn display_problems(&self, _: &SatoriResult<Vec<Problem>>) {}
    fn display_pdf(&self, _: &SatoriResult<()>) {}
    fn display_results(&self, _: &SatoriResult<Vec<ShortResult>>) {}
    fn display_status(&self, _: &SatoriResult<String>) {}
    fn display_submit(&self, _: &SatoriResult<()>) {}
    fn display_error(&self, _: &SatoriError) {
        self.errors.set(self.errors.get() + 1);
    }
}

fn algo_pages() -> Vec<(&'static str, &'static str)> {
    vec![
        ("", "home"),
        ("/contest/select", "C 1|Algo1\nC 2|Algo2"),
        ("/contest/1/problems", "P 55|A|Sum\nP 56|B|Sorting"),
        ("/contest/2/problems", "P 70|A|Graphs"),
        ("/contest/1/results?results_limit=10&results_filter_problem=55", "R 900|A|OK\nR 899|A|ANS"),
        ("/contest/1/results?results_limit=1&results_filter_problem=55", "R 900|A|OK"),
        ("/contest/2/results", "R 1000|A|QUE"),
    ]
}

fn logged_in_storage() -> FakeStorage {
    FakeStorage { token: RefCell::new(Some(VALID_TOKEN.to_string())) }
}

fn empty_storage() -> FakeStorage {
    FakeStorage { token: RefCell::new(None) }
}

fn display() -> FakeDisplay {
    FakeDisplay { errors: Cell::new(0) }
}

fn gets(client: &FakeClient) -> Vec<String> {
    client.gets.borrow().clone()
}

#[test]
fn ambiguous_contest_query_lists_both_contests() {
    let client = FakeClient::new(algo_pages());
    let storage = logged_in_storage();
    let satori = SimpleSatori::new(&client, FakeParser {}, &storage);
    match satori.problems("Algo", false) {
        Err(SatoriError::AmbiguousContest(e)) => {
            assert_eq!(e.name, "Algo");
            let names: Vec<&str> = e.candidates.iter().map(|c| c.name.as_str()).collect();
            assert_eq!(names, vec!["Algo1", "Algo2"]);
            let ids: Vec<&str> = e.candidates.iter().map(|c| c.id.as_str()).collect();
            assert_eq!(ids, vec!["1", "2"]);
        }
        other => panic!("unexpected {:?}", other),
    }
    assert_eq!(gets(&client), vec!["/contest/select"]);
}

#[test]
fn unique_contest_query_fetches_its_problems() {
    let client = FakeClient::new(algo_pages());
    let storage = logged_in_storage();
    let satori = SimpleSatori::new(&client, FakeParser {}, &storage);
    let problems = satori.problems("Algo1", false).unwrap();
    let codes: Vec<&str> = problems.iter().map(|p| p.code.as_str()).collect();
    assert_eq!(codes, vec!["A", "B"]);
    assert_eq!(gets(&client), vec!["/contest/select", "/contest/1/problems"]);
}

#[test]
fn username_logs_in_when_no_token_is_stored() {
    let client = FakeClient::new(algo_pages());
    let storage = empty_storage();
    let prompt = FakePrompt::new(vec![Some(("alice", "secret"))], vec![]);
    let shown = display();
    let satori = SimpleSatori::new(&client, FakeParser {}, &storage);
    let interactive = InteractiveSatori::new(satori, &shown, &prompt);
    assert_eq!(interactive.username().unwrap(), "alice");
    assert_eq!(prompt.asked.get(), 1);
    assert_eq!(client.posts.get(), 1);
    assert_eq!(storage.token.borrow().as_deref(), Some(VALID_TOKEN));
    assert_eq!(gets(&client), vec!["", "", ""]);
}

#[test]
fn username_without_session_is_not_logged_in() {
    let client = FakeClient::new(algo_pages());
    let storage = empty_storage();
    let satori = SimpleSatori::new(&client, FakeParser {}, &storage);
    assert!(matches!(satori.username(), Err(SatoriError::NotLoggedIn)));
}

#[test]
fn login_saves_the_token_and_logout_clears_it() {
    let client = FakeClient::new(algo_pages());
    let storage = empty_storage();
    let satori = SimpleSatori::new(&client, FakeParser {}, &storage);
    assert_eq!(satori.login("alice", "secret").unwrap(), "alice");
    assert_eq!(storage.token.borrow().as_deref(), Some(VALID_TOKEN));
    assert_eq!(satori.username().unwrap(), "alice");
    assert!(satori.logout().is_ok());
    assert_eq!(*storage.token.borrow(), None);
}

#[test]
fn rejected_credentials_fail_login() {
    let client = FakeClient::new(algo_pages());
    let storage = empty_storage();
    let satori = SimpleSatori::new(&client, FakeParser {}, &storage);
    assert!(matches!(satori.login("alice", "wrong"), Err(SatoriError::LoginFailed)));
}

#[test]
fn results_request_carries_limit_and_problem_filter() {
    let client = FakeClient::new(algo_pages());
    let storage = logged_in_storage();
    let satori = SimpleSatori::new(&client, FakeParser {}, &storage);
    let results = satori.results("1", Some("A"), Some(10), false).unwrap();
    let ids: Vec<&str> = results.iter().map(|r| r.submission_id.as_str()).collect();
    assert_eq!(ids, vec!["900", "899"]);
    assert_eq!(
        gets(&client).last().unwrap(),
        "/contest/1/results?results_limit=10&results_filter_problem=55"
    );
}

#[test]
fn status_is_that_of_latest_submission() {
    let client = FakeClient::new(algo_pages());
    let storage = logged_in_storage();
    let satori = SimpleSatori::new(&client, FakeParser {}, &storage);
    assert_eq!(satori.status("1", "A", false).unwrap(), "OK");
}

#[test]
fn submit_posts_to_the_problem_submit_url() {
    let client = FakeClient::new(algo_pages());
    let storage = logged_in_storage();
    let satori = SimpleSatori::new(&client, FakeParser {}, &storage);
    assert!(satori.submit("1", "B", "main.cpp").is_ok());
    assert_eq!(gets(&client).last().unwrap(), "submit /submit?select=56");
}

#[test]
fn missing_page_is_connection_failure() {
    let client = FakeClient::new(vec![]);
    let storage = logged_in_storage();
    let satori = SimpleSatori::new(&client, FakeParser {}, &storage);
    assert!(matches!(satori.contests(false, false), Err(SatoriError::ConnectionFailed)));
}

#[test]
fn unparsable_page_is_parsing_failure() {
    let client = FakeClient::new(vec![("/contest/select", "C 1|X"), ("/contest/1/results/5", "")]);
    let storage = logged_in_storage();
    let satori = SimpleSatori::new(&client, FakeParser {}, &storage);
    assert!(matches!(satori.details("1", "5", false), Err(SatoriError::ParsingFailed)));
}

#[test]
fn unknown_names_are_not_found() {
    let client = FakeClient::new(algo_pages());
    let storage = logged_in_storage();
    let satori = SimpleSatori::new(&client, FakeParser {}, &storage);
    assert!(matches!(satori.problems("Zzz", false), Err(SatoriError::ContestNotFound)));
    assert!(matches!(satori.results("1", Some("Q"), None, false), Err(SatoriError::ProblemNotFound)));
}

#[test]
fn expired_session_is_reissued_after_login() {
    let client = FakeClient::new(algo_pages());
    client.expired_gets_left.set(1);
    let storage = logged_in_storage();
    let prompt = FakePrompt::new(vec![Some(("alice", "secret"))], vec![]);
    let shown = display();
    let satori = SimpleSatori::new(&client, FakeParser {}, &storage);
    let interactive = InteractiveSatori::new(satori, &shown, &prompt);
    let contests = interactive.contests(false, false).unwrap();
    assert_eq!(contests.len(), 2);
    assert_eq!(gets(&client), vec!["/contest/select", "", "/contest/select"]);
}

#[test]
fn declined_credentials_end_the_call() {
    let client = FakeClient::new(algo_pages());
    let storage = empty_storage();
    let prompt = FakePrompt::new(vec![None, Some(("alice", "secret"))], vec![]);
    let shown = display();
    let satori = SimpleSatori::new(&client, FakeParser {}, &storage);
    let interactive = InteractiveSatori::new(satori, &shown, &prompt);
    assert!(matches!(interactive.contests(false, false), Err(SatoriError::LoginFailed)));
    assert_eq!(gets(&client), vec!["/contest/select"]);
    assert_eq!(client.posts.get(), 0);
    assert_eq!(prompt.asked.get(), 1);
}

#[test]
fn wrong_password_prompts_again() {
    let client = FakeClient::new(algo_pages());
    let storage = empty_storage();
    let prompt = FakePrompt::new(vec![Some(("alice", "wrong")), Some(("alice", "secret"))], vec![]);
    let shown = display();
    let satori = SimpleSatori::new(&client, FakeParser {}, &storage);
    let interactive = InteractiveSatori::new(satori, &shown, &prompt);
    assert_eq!(interactive.username().unwrap(), "alice");
    assert_eq!(prompt.asked.get(), 2);
    assert_eq!(shown.errors.get(), 1);
    // one attempt, a check after each login, and the reissued attempt
    assert_eq!(gets(&client), vec!["", "", "", ""]);
}

#[test]
fn choosing_a_contest_reissues_with_its_id() {
    let client = FakeClient::new(algo_pages());
    let storage = logged_in_storage();
    let prompt = FakePrompt::new(vec![], vec![Some(1)]);
    let shown = display();
    let satori = SimpleSatori::new(&client, FakeParser {}, &storage);
    let interactive = InteractiveSatori::new(satori, &shown, &prompt);
    let problems = interactive.problems("Algo", false).unwrap();
    assert_eq!(problems.len(), 1);
    assert_eq!(problems[0].id, "70");
    assert_eq!(prompt.offered.borrow()[0], vec!["Algo1".to_string(), "Algo2".to_string()]);
    assert_eq!(gets(&client), vec!["/contest/select", "/contest/select", "/contest/2/problems"]);
}

#[test]
fn out_of_range_choice_is_invalid() {
    let client = FakeClient::new(algo_pages());
    let storage = logged_in_storage();
    let prompt = FakePrompt::new(vec![], vec![Some(2)]);
    let shown = display();
    let satori = SimpleSatori::new(&client, FakeParser {}, &storage);
    let interactive = InteractiveSatori::new(satori, &shown, &prompt);
    assert!(matches!(interactive.problems("Algo", false), Err(SatoriError::InvalidChoice)));
    assert_eq!(gets(&client), vec!["/contest/select"]);
}

#[test]
fn declined_choice_is_invalid() {
    let client = FakeClient::new(algo_pages());
    let storage = logged_in_storage();
    let prompt = FakePrompt::new(vec![], vec![None]);
    let shown = display();
    let satori = SimpleSatori::new(&client, FakeParser {}, &storage);
    let interactive = InteractiveSatori::new(satori, &shown, &prompt);
    assert!(matches!(interactive.results("Algo", None, None, false), Err(SatoriError::InvalidChoice)));
    assert_eq!(gets(&client), vec!["/contest/select"]);
}

#[test]
fn choosing_a_problem_reissues_with_its_id() {
    let client = FakeClient::new(algo_pages());
    let storage = logged_in_storage();
    let prompt = FakePrompt::new(vec![], vec![Some(0)]);
    let shown = display();
    let satori = SimpleSatori::new(&client, FakeParser {}, &storage);
    let interactive = InteractiveSatori::new(satori, &shown, &prompt);
    let results = interactive.results("1", Some("S"), Some(10), false).unwrap();
    assert_eq!(results.len(), 2);
    assert_eq!(prompt.offered.borrow()[0], vec!["[A] Sum".to_string(), "[B] Sorting".to_string()]);
}

#[test]
fn choosing_a_contest_in_results() {
    let client = FakeClient::new(algo_pages());
    let storage = logged_in_storage();
    let prompt = FakePrompt::new(vec![], vec![Some(1)]);
    let shown = display();
    let satori = SimpleSatori::new(&client, FakeParser {}, &storage);
    let interactive = InteractiveSatori::new(satori, &shown, &prompt);
    let results = interactive.results("Algo", None, None, false).unwrap();
    assert_eq!(results[0].status, "QUE");
}

#[test]
fn mock_answers_with_fixed_data() {
    let mock = MockSatori::new();
    assert_eq!(mock.contests(false, false).unwrap()[0].id, "1");
    assert_eq!(mock.problems("1", false).unwrap()[0].code, "A");
    assert_eq!(mock.status("1", "A", false).unwrap(), "OK");
    assert_eq!(mock.details("1", "1", false).unwrap().test_results.len(), 1);
    assert_eq!(mock.login("bob", "pw").unwrap(), "bob");
}

#[test]
fn problem_lookup_stays_in_the_resolved_contest() {
    // "1" also begins "10": once "Algo1" resolves to contest 1, its problems
    // are read without resolving "1" again.
    let client = FakeClient::new(vec![
        ("/contest/select", "C 1|Algo1\nC 10|Other"),
        ("/contest/1/problems", "P 55|A|Sum"),
        ("/contest/1/results?results_filter_problem=55", "R 900|A|OK"),
    ]);
    let storage = logged_in_storage();
    let satori = SimpleSatori::new(&client, FakeParser {}, &storage);
    let results = satori.results("Algo1", Some("A"), None, false).unwrap();
    assert_eq!(results.len(), 1);
    assert_eq!(
        gets(&client),
        vec!["/contest/select", "/contest/1/problems", "/contest/1/results?results_filter_problem=55"]
    );
}

#[test]
fn choosing_a_problem_scopes_to_its_contest() {
    let client = FakeClient::new(vec![
        ("/contest/select", "C 1|Algo1\nC 2|Algo2"),
        ("/contest/1/problems", "P 55|A|Sum|1\nP 56|B|Sorting|1"),
        ("/contest/1/results?results_filter_problem=56", "R 901|B|TLE"),
    ]);
    let storage = logged_in_storage();
    let prompt = FakePrompt::new(vec![], vec![Some(1)]);
    let shown = display();
    let satori = SimpleSatori::new(&client, FakeParser {}, &storage);
    let interactive = InteractiveSatori::new(satori, &shown, &prompt);
    let results = interactive.results("Algo1", Some("S"), None, false).unwrap();
    assert_eq!(results[0].status, "TLE");
    assert_eq!(
        gets(&client),
        vec![
            "/contest/select",
            "/contest/1/problems",
            "/contest/select",
            "/contest/1/problems",
            "/contest/1/results?results_filter_problem=56"
        ]
    );
}
