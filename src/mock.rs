//! A stand-in for the platform that answers every operation with fixed data,
//! for exercising front ends without a network.

use crate::satori::{
    Contest, Problem, ResultDetails, Satori, SatoriError, SatoriResult, ShortResult,
    TestCaseResult,
};
use vstd::prelude::*;
use vstd::string::*;

verus! {

/// Answers every operation with one fixed contest, problem and submission.
pub struct MockSatori {}

impl MockSatori {
    pub fn new() -> MockSatori {
        MockSatori {}
    }
}

fn text(s: &str) -> (r: String)
    ensures
        r@ == s@,
{
    String::from_str(s)
}

impl Satori for MockSatori {
    open spec fn gives_username(&self, r: SatoriResult<String>) -> bool {
        r matches Ok(u) && u@ == "user"@
    }

    open spec fn gives_contests(&self, archived: bool, force: bool, r: SatoriResult<Vec<Contest>>) -> bool {
        r matches Ok(v) && v@.len() == 1 && v@[0].id@ == "1"@ && v@[0].name@ == "Contest 1"@
                && v@[0].description@ == "Contest 1 description"@
    }

    open spec fn gives_details(&self, contest: Seq<char>, submission: Seq<char>, force: bool, r: SatoriResult<ResultDetails>) -> bool {
        r matches Ok(d) && d.submission_id@ == "1"@ && d.problem_code@ == "A"@ && d.time@
                == "2020-01-01 00:00:00"@ && d.status@ == "OK"@ && d.test_results@.len() == 1
                && d.test_results@[0].test_case@ == "1"@ && d.test_results@[0].status@ == "OK"@
                && d.test_results@[0].time@ == "0.01"@
    }

    open spec fn gives_login(&self, login: Seq<char>, password: Seq<char>, r: SatoriResult<String>) -> bool {
        r matches Ok(u) && u@ == login
    }

    open spec fn gives_logout(&self, r: SatoriResult<()>) -> bool {
        r is Ok
    }

    open spec fn gives_problems(&self, contest: Seq<char>, force: bool, r: SatoriResult<Vec<Problem>>) -> bool {
        r matches Ok(v) && v@.len() == 1 && v@[0].contest_id@ == "1"@ && v@[0].id@ == "1"@
                && v@[0].code@ == "A"@ && v@[0].name@ == "Problem A"@ && v@[0].pdf_url@
                == "https://satori.tcs.uj.edu.pl/contest/1/problem/A"@ && v@[0].deadline@
                == "2020-01-01 00:00:00"@ && v@[0].submit_url@
                == "https://satori.tcs.uj.edu.pl/contest/1/problem/A/submit"@
    }

    open spec fn gives_pdf(&self, contest: Seq<char>, problem: Seq<char>, force: bool, r: SatoriResult<()>) -> bool {
        r is Ok
    }

    open spec fn gives_results(&self, contest: Seq<char>, problem: Option<Seq<char>>, limit: Option<usize>, force: bool, r: SatoriResult<Vec<ShortResult>>) -> bool {
        r matches Ok(v) && v@.len() == 1 && v@[0].submission_id@ == "1"@ && v@[0].problem_code@
                == "A"@ && v@[0].time@ == "2020-01-01 00:00:00"@ && v@[0].status@ == "OK"@
    }

    open spec fn gives_status(&self, contest: Seq<char>, problem: Seq<char>, force: bool, r: SatoriResult<String>) -> bool {
        r matches Ok(s) && s@ == "OK"@
    }

    open spec fn gives_submit(&self, contest: Seq<char>, problem: Seq<char>, file_path: Seq<char>, r: SatoriResult<()>) -> bool {
        r is Ok
    }

    fn username(&self) -> (r: SatoriResult<String>)
    {
        Ok(text("user"))
    }

    fn contests(&self, archived: bool, force: bool) -> (r: SatoriResult<Vec<Contest>>)
    {
        let mut v: Vec<Contest> = Vec::new();
        v.push(
            Contest {
                id: text("1"),
                name: text("Contest 1"),
                description: text("Contest 1 description"),
            },
        );
        Ok(v)
    }

    fn details(&self, contest: &str, submission: &str, force: bool) -> (r: SatoriResult<
        ResultDetails,
    >)
    {
        let mut tests: Vec<TestCaseResult> = Vec::new();
        tests.push(TestCaseResult { test_case: text("1"), status: text("OK"), time: text("0.01") });
        Ok(
            ResultDetails {
                submission_id: text("1"),
                problem_code: text("A"),
                time: text("2020-01-01 00:00:00"),
                status: text("OK"),
                test_results: tests,
            },
        )
    }

    fn login(&self, login: &str, password: &str) -> (r: SatoriResult<String>)
    {
        Ok(login.to_string())
    }

    fn logout(&self) -> (r: SatoriResult<()>)
    {
        Ok(())
    }

    fn problems(&self, contest: &str, force: bool) -> (r: SatoriResult<Vec<Problem>>)
    {
        let mut v: Vec<Problem> = Vec::new();
        v.push(
            Problem {
                contest_id: text("1"),
                id: text("1"),
                code: text("A"),
                name: text("Problem A"),
                pdf_url: text("https://satori.tcs.uj.edu.pl/contest/1/problem/A"),
                deadline: text("2020-01-01 00:00:00"),
                submit_url: text("https://satori.tcs.uj.edu.pl/contest/1/problem/A/submit"),
            },
        );
        Ok(v)
    }

    fn pdf(&self, contest: &str, problem: &str, force: bool) -> (r: SatoriResult<()>)
    {
        Ok(())
    }

    fn results(
        &self,
        contest: &str,
        problem: Option<&str>,
        limit: Option<usize>,
        force: bool,
    ) -> (r: SatoriResult<Vec<ShortResult>>)
    {
        let mut v: Vec<ShortResult> = Vec::new();
        v.push(
            ShortResult {
                submission_id: text("1"),
                problem_code: text("A"),
                time: text("2020-01-01 00:00:00"),
                status: text("OK"),
            },
        );
        Ok(v)
    }

    fn status(&self, contest: &str, problem: &str, force: bool) -> (r: SatoriResult<String>)
    {
        Ok(text("OK"))
    }

    fn submit(&self, contest: &str, problem: &str, file_path: &str) -> (r: SatoriResult<()>)
    {
        Ok(())
    }
}

} // verus!
