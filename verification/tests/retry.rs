use network_retry::{with_retry, Config, Failure, HttpNotSuccessful, Kind, Retry, DEFAULT_RETRIES};

fn response(code: u32) -> Failure {
    HttpNotSuccessful { code, url: "Uri".to_string(), body: Vec::new() }.into()
}

#[test]
fn with_retry_repeats_the_call_then_works() {
    //Error HTTP codes (5xx) are considered maybe_spurious and will prompt retry
    let error1: Failure = HttpNotSuccessful {
        code: 501,
        url: "Uri".to_string(),
        body: Vec::new(),
    }
    .into();
    let error2: Failure = HttpNotSuccessful {
        code: 502,
        url: "Uri".to_string(),
        body: Vec::new(),
    }
    .into();
    let mut results: Vec<Result<(), Failure>> = vec![Ok(()), Err(error1), Err(error2)];
    let mut shell: Vec<String> = Vec::new();
    let config = Config::new(None, |line: String| -> Result<(), Failure> {
        shell.push(line);
        Ok(())
    });
    let result = with_retry(config, || results.pop().unwrap());
    assert!(result.is_ok())
}

#[test]
fn with_retry_finds_nested_spurious_errors() {
    //Error HTTP codes (5xx) are considered maybe_spurious and will prompt retry
    //String error messages are not considered spurious
    let error1 = Failure::from(HttpNotSuccessful {
        code: 501,
        url: "Uri".to_string(),
        body: Vec::new(),
    });
    let error1 = error1.context("A non-spurious wrapping err");
    let error2 = Failure::from(HttpNotSuccessful {
        code: 502,
        url: "Uri".to_string(),
        body: Vec::new(),
    });
    let error2 = error2.context("A second chained error");
    let mut results: Vec<Result<(), Failure>> = vec![Ok(()), Err(error1), Err(error2)];
    let mut shell: Vec<String> = Vec::new();
    let config = Config::new(None, |line: String| -> Result<(), Failure> {
        shell.push(line);
        Ok(())
    });
    let result = with_retry(config, || results.pop().unwrap());
    assert!(result.is_ok())
}

#[test]
fn two_server_errors_then_success_on_a_budget_of_two() {
    let mut results: Vec<Result<u32, Failure>> =
        vec![Ok(7), Err(response(501)), Err(response(502))];
    let mut calls: u32 = 0;
    let mut shell: Vec<String> = Vec::new();
    let config = Config::new(Some(2), |line: String| -> Result<(), Failure> {
        shell.push(line);
        Ok(())
    });
    let result = with_retry(config, || {
        calls += 1;
        results.pop().unwrap()
    });
    assert_eq!(result, Ok(7));
    assert_eq!(calls, 3);
    assert_eq!(
        shell,
        vec![
            "spurious network error (2 tries remaining): \
             failed to get successful HTTP response from `Uri`, got 502"
                .to_string(),
            "spurious network error (1 tries remaining): \
             failed to get successful HTTP response from `Uri`, got 501"
                .to_string(),
        ]
    );
}

#[test]
fn warnings_name_the_root_cause_under_the_context() {
    let first = response(502).context("while fetching the index").context("while updating");
    let mut results: Vec<Result<(), Failure>> = vec![Ok(()), Err(first)];
    let mut shell: Vec<String> = Vec::new();
    let config = Config::new(Some(1), |line: String| -> Result<(), Failure> {
        shell.push(line);
        Ok(())
    });
    let result = with_retry(config, || results.pop().unwrap());
    assert_eq!(result, Ok(()));
    assert_eq!(
        shell,
        vec![
            "spurious network error (1 tries remaining): \
             failed to get successful HTTP response from `Uri`, got 502"
                .to_string()
        ]
    );
}

#[test]
fn no_budget_returns_the_server_error_at_once() {
    let mut calls: u32 = 0;
    let mut shell: Vec<String> = Vec::new();
    let config = Config::new(Some(0), |line: String| -> Result<(), Failure> {
        shell.push(line);
        Ok(())
    });
    let result: Result<(), Failure> = with_retry(config, || {
        calls += 1;
        Err(response(502))
    });
    assert_eq!(result, Err(response(502)));
    assert_eq!(calls, 1);
    assert!(shell.is_empty());
}

#[test]
fn an_unknown_error_is_returned_at_once() {
    let mut calls: u32 = 0;
    let mut shell: Vec<String> = Vec::new();
    let config = Config::new(Some(3), |line: String| -> Result<(), Failure> {
        shell.push(line);
        Ok(())
    });
    let result: Result<(), Failure> = with_retry(config, || {
        calls += 1;
        Err(Failure::msg("no such package"))
    });
    assert_eq!(result, Err(Failure::msg("no such package")));
    assert_eq!(calls, 1);
    assert!(shell.is_empty());
}

#[test]
fn a_client_error_is_returned_at_once() {
    let mut calls: u32 = 0;
    let mut shell: Vec<String> = Vec::new();
    let config = Config::new(None, |line: String| -> Result<(), Failure> {
        shell.push(line);
        Ok(())
    });
    let result: Result<(), Failure> = with_retry(config, || {
        calls += 1;
        Err(response(404))
    });
    assert_eq!(result, Err(response(404)));
    assert_eq!(calls, 1);
    assert!(shell.is_empty());
}

#[test]
fn a_failure_that_never_passes_is_tried_once_more_than_the_budget() {
    let mut calls: u32 = 0;
    let mut shell: Vec<String> = Vec::new();
    let config = Config::new(Some(4), |line: String| -> Result<(), Failure> {
        shell.push(line);
        Ok(())
    });
    let result: Result<(), Failure> = with_retry(config, || {
        calls += 1;
        Err(response(500 + calls))
    });
    assert_eq!(calls, 5);
    assert_eq!(result, Err(response(505)));
    assert_eq!(shell.len(), 4);
    assert!(shell[0].starts_with("spurious network error (4 tries remaining): "));
    assert!(shell[3].starts_with("spurious network error (1 tries remaining): "));
    assert!(shell[3].ends_with("got 504"));
}

#[test]
fn the_default_budget_is_two_further_tries() {
    let mut calls: u32 = 0;
    let config = Config::new(None, |_line: String| -> Result<(), Failure> { Ok(()) });
    let result: Result<(), Failure> = with_retry(config, || {
        calls += 1;
        Err(response(503))
    });
    assert!(result.is_err());
    assert_eq!(calls, 3);
    assert_eq!(DEFAULT_RETRIES, 2);
}

#[test]
fn as_many_retries_as_the_budget_then_success() {
    let mut results: Vec<Result<&str, Failure>> =
        vec![Ok("done"), Err(response(503)), Err(response(502)), Err(response(501))];
    let mut shell: Vec<String> = Vec::new();
    let config = Config::new(Some(3), |line: String| -> Result<(), Failure> {
        shell.push(line);
        Ok(())
    });
    let result = with_retry(config, || results.pop().unwrap());
    assert_eq!(result, Ok("done"));
    assert_eq!(shell.len(), 3);
}

#[test]
fn a_broken_sink_ends_the_session() {
    let mut calls: u32 = 0;
    let config = Config::new(Some(2), |_line: String| -> Result<(), Failure> {
        Err(Failure::msg("broken pipe"))
    });
    let result: Result<(), Failure> = with_retry(config, || {
        calls += 1;
        Err(response(502))
    });
    assert_eq!(result, Err(Failure::msg("broken pipe")));
    assert_eq!(calls, 1);
}

#[test]
fn a_count_that_cannot_be_read_fails_before_any_attempt() {
    let mut calls: u32 = 0;
    let config = Config::new(Some(-1), |_line: String| -> Result<(), Failure> { Ok(()) });
    let result: Result<(), Failure> = with_retry(config, || {
        calls += 1;
        Ok(())
    });
    assert_eq!(
        result,
        Err(Failure::msg("the configured number of retries is not a count of tries"))
    );
    assert_eq!(calls, 0);
}

#[test]
fn new_reads_the_configured_count() {
    let sink = |_line: String| -> Result<(), Failure> { Ok(()) };
    assert_eq!(Retry::new(Config::new(None, sink)).unwrap().remaining(), 2);
    assert_eq!(Retry::new(Config::new(Some(0), sink)).unwrap().remaining(), 0);
    assert_eq!(Retry::new(Config::new(Some(5), sink)).unwrap().remaining(), 5);
    assert_eq!(
        Retry::new(Config::new(Some(4294967295), sink)).unwrap().remaining(),
        4294967295
    );
    assert!(Retry::new(Config::new(Some(4294967296), sink)).is_err());
    assert!(Retry::new(Config::new(Some(-1), sink)).is_err());
    assert!(Retry::new(Config::new(Some(i64::MIN), sink)).is_err());
}

#[test]
fn try_once_takes_one_try_for_each_retry() {
    let mut shell: Vec<String> = Vec::new();
    let config = Config::new(Some(2), |line: String| -> Result<(), Failure> {
        shell.push(line);
        Ok(())
    });
    let mut retry = Retry::new(config).unwrap();
    let first: Result<Option<u8>, Failure> = retry.try_once(|| Err(response(502)));
    assert_eq!(first, Ok(None));
    assert_eq!(retry.remaining(), 1);
    let second: Result<Option<u8>, Failure> = retry.try_once(|| Err(response(500)));
    assert_eq!(second, Ok(None));
    assert_eq!(retry.remaining(), 0);
    let third: Result<Option<u8>, Failure> = retry.try_once(|| Err(response(500)));
    assert_eq!(third, Err(response(500)));
    assert_eq!(retry.remaining(), 0);
    let fourth: Result<Option<u8>, Failure> = retry.try_once(|| Ok(9));
    assert_eq!(fourth, Ok(Some(9)));
    assert_eq!(retry.remaining(), 0);
    drop(retry);
    assert_eq!(shell.len(), 2);
}

#[test]
fn try_once_leaves_the_budget_alone_on_success_and_on_a_final_failure() {
    let config = Config::new(Some(3), |_line: String| -> Result<(), Failure> { Ok(()) });
    let mut retry = Retry::new(config).unwrap();
    let value: Result<Option<u8>, Failure> = retry.try_once(|| Ok(1));
    assert_eq!(value, Ok(Some(1)));
    assert_eq!(retry.remaining(), 3);
    let failed: Result<Option<u8>, Failure> = retry.try_once(|| Err(Failure::msg("denied")));
    assert_eq!(failed, Err(Failure::msg("denied")));
    assert_eq!(retry.remaining(), 3);
}

#[test]
fn try_once_keeps_the_budget_where_the_sink_fails() {
    let config = Config::new(Some(3), |_line: String| -> Result<(), Failure> {
        Err(Failure::new(Kind::Other, "closed"))
    });
    let mut retry = Retry::new(config).unwrap();
    let step: Result<Option<u8>, Failure> = retry.try_once(|| Err(response(502)));
    assert_eq!(step, Err(Failure::msg("closed")));
    assert_eq!(retry.remaining(), 3);
}

#[test]
fn warning_is_owed_for_a_spurious_failure_while_tries_are_left() {
    let sink = |_line: String| -> Result<(), Failure> { Ok(()) };
    let retry = Retry::new(Config::new(Some(12), sink)).unwrap();
    let failed: Result<(), Failure> = Err(response(502).context("outer"));
    assert_eq!(
        retry.warning(&failed),
        Some(
            "spurious network error (12 tries remaining): \
             failed to get successful HTTP response from `Uri`, got 502"
                .to_string()
        )
    );
    let fatal: Result<(), Failure> = Err(response(404));
    assert_eq!(retry.warning(&fatal), None);
    let fine: Result<(), Failure> = Ok(());
    assert_eq!(retry.warning(&fine), None);
    let spent = Retry::new(Config::new(Some(0), sink)).unwrap();
    assert_eq!(spent.warning(&failed), None);
}

#[test]
fn the_last_failure_comes_back_as_it_was() {
    let mut calls: u32 = 0;
    let config = Config::new(Some(1), |_line: String| -> Result<(), Failure> { Ok(()) });
    let result: Result<(), Failure> = with_retry(config, || {
        calls += 1;
        if calls == 1 {
            Err(response(500).context("first attempt"))
        } else {
            Err(response(503).context("inner").context("second attempt"))
        }
    });
    assert_eq!(calls, 2);
    assert_eq!(result, Err(response(503).context("inner").context("second attempt")));
    let failure = result.unwrap_err();
    assert_eq!(failure.depth(), 3);
    assert_eq!(failure.root_cause().kind, Kind::Http { status: 503 });
}
