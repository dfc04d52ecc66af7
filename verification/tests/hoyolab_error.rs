use storekeeper::client::error::ClientError;
use storekeeper::hoyolab::error::Error;

#[test]
fn a_self_clearing_failure_is_recoverable() {
    let recoverable: [Error; 7] = [
        Error::RateLimited { retcode: -1004, message: "Too many attempts. Please try again later.".to_string() },
        Error::ClaimNotRegistered { risk_code: None },
        Error::Client(ClientError::api_error(-3102, "geetest")),
        Error::Client(ClientError::api_error(-10001, "malformed")),
        Error::Client(ClientError::api_error(-1002, "unrecognized")),
        Error::Client(ClientError::http_status(503, "service unavailable")),
        Error::Client(ClientError::Middleware("connector failed".to_string())),
    ];
    for error in recoverable {
        assert!(error.is_recoverable(), "{} is recoverable", error.message());
    }
}

#[test]
fn a_failure_needing_the_user_or_the_next_day_is_not_recoverable() {
    let permanent: [Error; 6] = [
        Error::Client(ClientError::api_error(-100, "not logged in")),
        Error::Client(ClientError::api_error(-10002, "no game account")),
        Error::Client(ClientError::api_error(-5003, "already signed")),
        Error::Client(ClientError::api_error(10101, "30 accounts per day")),
        Error::Client(ClientError::api_error(-2016, "redemption cooldown")),
        Error::Client(ClientError::http_status(403, "forbidden")),
    ];
    for error in permanent {
        assert!(!error.is_recoverable(), "{} is not recoverable", error.message());
    }
}

#[test]
fn error_messages_name_the_code() {
    let e = Error::RateLimited { retcode: -1004, message: "slow down".to_string() };
    assert_eq!(e.message(), "HoYoLab rate limit (retcode -1004): slow down");
    let e = Error::ClaimNotRegistered { risk_code: Some(5001) };
    assert_eq!(e.message(), "Sign accepted but the reward is still unclaimed (risk_code Some(5001))");
    let e = Error::ClaimNotRegistered { risk_code: None };
    assert_eq!(e.message(), "Sign accepted but the reward is still unclaimed (risk_code None)");
}

#[test]
fn http_statuses_that_retry() {
    for status in [408u16, 429, 500, 599] {
        assert!(Error::Client(ClientError::http_status(status, "x")).is_recoverable(), "{status}");
    }
    for status in [400u16, 401, 404, 600] {
        assert!(!Error::Client(ClientError::http_status(status, "x")).is_recoverable(), "{status}");
    }
}
