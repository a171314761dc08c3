use junit_notify::collect::{collect_failed_tests, has_failures};
use junit_notify::message::{append_case_info, format_slack_message};
use junit_notify::notify::{interpret_reply, plan_run, Config, NotifyError, Reply, RunPlan, SlackMessage};
use junit_notify::report::{TestCase, TestError, TestFailure, TestSkipped, TestStatus, TestSuite};

fn failure() -> TestStatus {
    TestStatus::Failure(TestFailure {
        message: "".to_string(),
        text: "".to_string(),
        failure_type: "".to_string(),
    })
}

fn error() -> TestStatus {
    TestStatus::Error(TestError {
        message: "".to_string(),
        text: "".to_string(),
        error_type: "".to_string(),
    })
}

fn skipped() -> TestStatus {
    TestStatus::Skipped(TestSkipped {
        message: "".to_string(),
        text: "".to_string(),
        skipped_type: "".to_string(),
    })
}

fn case(name: &str, status: TestStatus) -> TestCase {
    TestCase {
        name: name.to_string(),
        classname: Some("com.example.TestClass".to_string()),
        status,
        time_millis: 1000,
    }
}

fn suite(name: &str, cases: Vec<TestCase>, suites: Vec<TestSuite>) -> TestSuite {
    TestSuite { name: name.to_string(), cases, suites }
}

fn names(cases: &[TestCase]) -> Vec<String> {
    cases.iter().map(|c| c.name.clone()).collect()
}

fn config(title: Option<&str>) -> Config {
    Config::from_values(Some("https://hooks.example.com/x".to_string()), title.map(|t| t.to_string()))
        .unwrap()
}

#[test]
fn test_has_failures() {
    let success_case = case("test_success", TestStatus::Success);
    assert!(!has_failures(&success_case));

    let error_case = case("test_error", error());
    assert!(has_failures(&error_case));

    let failure_case = case("test_failure", failure());
    assert!(has_failures(&failure_case));

    let skipped_case = case("test_skipped", skipped());
    assert!(!has_failures(&skipped_case));
}

#[test]
fn test_append_case_info() {
    let case = TestCase {
        name: "test_method".to_string(),
        classname: Some("com.example.TestClass".to_string()),
        status: failure(),
        time_millis: 2500,
    };

    let mut message = String::new();
    append_case_info(&mut message, &case);
    assert!(message.contains(&case.name));
}

#[test]
fn test_send_slack_message_success() {
    let message = SlackMessage { text: "test message".to_string() };
    assert_eq!(message.text, "test message");
    let reply = Reply::Response { status: 200, body: "".to_string() };
    assert!(interpret_reply(reply).is_ok());
}

#[test]
fn detail_payload_does_not_matter() {
    let detailed = TestStatus::Skipped(TestSkipped {
        message: "boom".to_string(),
        text: "trace".to_string(),
        skipped_type: "AssertionError".to_string(),
    });
    assert!(!has_failures(&case("a", detailed)));
    let detailed = TestStatus::Failure(TestFailure {
        message: "".to_string(),
        text: "".to_string(),
        failure_type: "".to_string(),
    });
    assert!(has_failures(&case("b", detailed)));
}

#[test]
fn nested_failures_come_before_own() {
    let inner = suite("inner", vec![case("inner_fail", failure()), case("inner_ok", TestStatus::Success)], vec![]);
    let deeper = suite("deeper", vec![case("deep_err", error())], vec![]);
    let outer = suite(
        "outer",
        vec![case("outer_fail", failure()), case("outer_skip", skipped())],
        vec![inner, deeper],
    );
    let second = suite("second", vec![case("second_err", error())], vec![]);
    let suites = vec![outer, second];
    let mut result = Vec::new();
    collect_failed_tests(&suites, &mut result);
    assert_eq!(names(&result), vec!["inner_fail", "deep_err", "outer_fail", "second_err"]);
}

#[test]
fn collect_appends_to_existing_and_keeps_duplicates() {
    let a = suite("a", vec![case("same", failure())], vec![]);
    let b = suite("b", vec![case("same", error())], vec![]);
    let suites = vec![a, b];
    let mut result = vec![case("already", TestStatus::Success)];
    collect_failed_tests(&suites, &mut result);
    assert_eq!(names(&result), vec!["already", "same", "same"]);
}

#[test]
fn collect_on_empty_tree() {
    let suites: Vec<TestSuite> = vec![];
    let mut result = Vec::new();
    collect_failed_tests(&suites, &mut result);
    assert!(result.is_empty());
}

#[test]
fn message_format_is_exact() {
    let cases = vec![case("first", failure()), case("second", error())];
    let text = format_slack_message(&cases, "Nightly");
    assert_eq!(text, ":x: *Nightly*\n\n- first\n- second\n");
}

#[test]
fn message_holds_every_name() {
    let cases = vec![case("alpha_case", failure()), case("beta_case", error()), case("gamma", failure())];
    let text = format_slack_message(&cases, "Title");
    for c in &cases {
        assert!(text.contains(&c.name));
    }
}

#[test]
fn message_is_deterministic() {
    let cases = vec![case("x", failure())];
    assert_eq!(format_slack_message(&cases, "T"), format_slack_message(&cases, "T"));
}

#[test]
fn append_case_info_extends_message() {
    let mut message = "head\n".to_string();
    append_case_info(&mut message, &case("test_method", failure()));
    assert_eq!(message, "head\n- test_method\n");
}

#[test]
fn round_trip_one_pass_one_fail() {
    let root = suite("root", vec![case("test_bar", TestStatus::Success), case("test_foo", failure())], vec![]);
    let suites = vec![root];
    let mut result = Vec::new();
    collect_failed_tests(&suites, &mut result);
    assert_eq!(names(&result), vec!["test_foo"]);
    let text = format_slack_message(&result, "Test Results");
    assert!(text.contains("test_foo"));
    assert!(!text.contains("test_bar"));
}

#[test]
fn empty_failure_list_sends_nothing() {
    let root = suite("root", vec![case("ok", TestStatus::Success), case("skip", skipped())], vec![]);
    let plan = plan_run(&config(None), &vec![root]);
    assert!(matches!(plan, RunPlan::AllPassed));
}

#[test]
fn failures_produce_message_with_title() {
    let root = suite("root", vec![case("broken", failure())], vec![]);
    match plan_run(&config(Some("CI")), &vec![root]) {
        RunPlan::Notify(m) => assert_eq!(m.text, ":x: *CI*\n\n- broken\n"),
        RunPlan::AllPassed => panic!("expected a message"),
    }
}

#[test]
fn default_title_when_unset() {
    let c = config(None);
    assert_eq!(c.title, "Test Results");
    assert_eq!(c.webhook_url, "https://hooks.example.com/x");
    let root = suite("root", vec![case("broken", error())], vec![]);
    match plan_run(&c, &vec![root]) {
        RunPlan::Notify(m) => assert_eq!(m.text, ":x: *Test Results*\n\n- broken\n"),
        RunPlan::AllPassed => panic!("expected a message"),
    }
}

#[test]
fn missing_webhook_is_config_error() {
    let r = Config::from_values(None, Some("Title".to_string()));
    assert!(matches!(r, Err(NotifyError::MissingWebhookUrl)));
}

#[test]
fn reply_200_is_success() {
    assert!(interpret_reply(Reply::Response { status: 200, body: "ok".to_string() }).is_ok());
    assert!(interpret_reply(Reply::Response { status: 299, body: "".to_string() }).is_ok());
}

#[test]
fn reply_500_carries_body() {
    let body = "{\"error\":\"internal server error\"}".to_string();
    match interpret_reply(Reply::Response { status: 500, body: body.clone() }) {
        Err(NotifyError::Api { status, body: b }) => {
            assert_eq!(status, 500);
            assert_eq!(b, body);
        }
        other => panic!("unexpected {:?}", other),
    }
}

#[test]
fn reply_outside_success_range_fails() {
    assert!(interpret_reply(Reply::Response { status: 199, body: "".to_string() }).is_err());
    assert!(interpret_reply(Reply::Response { status: 300, body: "".to_string() }).is_err());
    assert!(interpret_reply(Reply::Response { status: 404, body: "".to_string() }).is_err());
}

#[test]
fn transport_failure_carries_reason() {
    match interpret_reply(Reply::Transport { reason: "connection refused".to_string() }) {
        Err(NotifyError::Transport { reason }) => assert_eq!(reason, "connection refused"),
        other => panic!("unexpected {:?}", other),
    }
}
