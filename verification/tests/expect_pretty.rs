use stock_checker::expect_pretty::{ExpectPretty, Fatal};

#[test]
fn some_is_handed_out() {
    assert_eq!(Some(7u32).expect_p("nothing there"), Ok(7));
}

#[test]
fn none_fails_with_the_message() {
    let absent: Option<u32> = None;
    assert_eq!(absent.expect_p("nothing there"), Err(Fatal { message: "nothing there".to_string() }));
}

#[test]
fn ok_is_handed_out() {
    let ok: Result<u32, String> = Ok(3);
    assert_eq!(ok.expect_p("went wrong"), Ok(3));
}

#[test]
fn err_fails_with_the_message_given() {
    let err: Result<u32, String> = Err("inner".to_string());
    let fatal = err.expect_p("went wrong").unwrap_err();
    assert_eq!(fatal.message(), "went wrong");
}

#[test]
fn fatal_carries_its_message() {
    let fatal = Fatal::new("Could not send");
    assert_eq!(fatal.message(), "Could not send");
    assert_eq!(fatal.message, "Could not send");
}
