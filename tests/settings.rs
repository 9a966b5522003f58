use newsletter::authentication::AuthError;
use newsletter::configuration::Environment;
use newsletter::routes::{error_chain_fmt, login_redirect, LoginError};

#[test]
fn environment_names_round_trip() {
    assert_eq!(Environment::Local.as_str(), "local");
    assert_eq!(Environment::Production.as_str(), "production");
    assert_eq!(Environment::try_from("LOCAL".to_string()), Ok(Environment::Local));
    assert_eq!(Environment::try_from("Production".to_string()), Ok(Environment::Production));
    assert_eq!(
        Environment::try_from("Staging".to_string()),
        Err("staging is not a supported environment. Please use either `local` or `production`.".to_string())
    );
}

#[test]
fn error_chain_lists_every_cause() {
    let causes = vec!["pool timed out".to_string(), "connection refused".to_string()];
    assert_eq!(
        error_chain_fmt("Failed to store token.", &causes),
        "Failed to store token.\n\nCaused by:\n\tpool timed out\nCaused by:\n\tconnection refused\n"
    );
    assert_eq!(error_chain_fmt("alone", &Vec::new()), "alone\n\n");
}

#[test]
fn login_redirects_by_outcome() {
    let (to, err) = login_redirect(Ok(4));
    assert_eq!(to, "/admin/dashboard");
    assert!(err.is_none());
    let (to, err) = login_redirect(Err(AuthError::InvalidCredentials("bad".to_string())));
    assert_eq!(to, "/login");
    let err = err.unwrap();
    assert!(matches!(err, LoginError::AuthError(_)));
    assert_eq!(err.message(), "Authentication Failed");
    let (to, err) = login_redirect(Err(AuthError::UnexpectedError("db".to_string())));
    assert_eq!(to, "/login");
    assert_eq!(err.unwrap().message(), "Something went wrong");
}

#[test]
fn lowercase_names_map_to_environments() {
    assert_eq!(Environment::from_lowercase(&"local".to_string()), Some(Environment::Local));
    assert_eq!(Environment::from_lowercase(&"production".to_string()), Some(Environment::Production));
    assert_eq!(Environment::from_lowercase(&"Local".to_string()), None);
}
