use carli::error::Context;
use carli::error::Error;
use carli::error::Inspect;
use std::cell::Cell;

#[test]
fn add_context_message() {
    let error = Error::default().context("The context message.".to_owned());

    assert_eq!(error.get_context().unwrap(), vec!["The context message."]);
}

#[test]
fn create_default_error() {
    let error = Error::default();

    assert_eq!(error.get_status(), 1);
}

#[test]
fn create_error_with_formatted_message() {
    let error = Error::new(1).message(format!("The {} message.", "error"));

    assert_eq!(error.get_message(), Some("The error message."));
    assert_eq!(error.get_status(), 1);
}

#[test]
fn create_error_with_message() {
    let error = Error::new(1).message("The error message.".to_owned());

    assert_eq!(error.get_message(), Some("The error message."));
    assert_eq!(error.get_status(), 1);
}

#[test]
fn create_error_only_status() {
    let error = Error::new(1);

    assert_eq!(error.get_message(), None);
    assert_eq!(error.get_status(), 1);
}

#[test]
fn create_new_error() {
    let error = Error::new(123);

    assert_eq!(error.get_status(), 123);
}

#[test]
fn display_error_with_context() {
    let error = Error::default()
        .context("The lower level context message.".to_owned())
        .context("The higher level context message.".to_owned());

    assert_eq!(
        error.render(),
        "The higher level context message.\n  The lower level context message.\n"
    );
}

#[test]
fn display_error_only_status() {
    let error = Error::default();

    assert_eq!(error.render(), "");
}

#[test]
fn display_error_with_message() {
    let error = Error::default().message("The original message.".to_owned());

    assert_eq!(error.render(), "The original message.\n");
}

#[test]
fn display_error_with_message_and_context() {
    let error = Error::default()
        .message("The original message.".to_owned())
        .context("The lower level context message.".to_owned())
        .context("The higher level context message.".to_owned());

    assert_eq!(
        error.render(),
        "The higher level context message.\n  The lower level context message.\n    The original message.\n"
    );
}

#[test]
fn result_context() {
    let err: Result<(), Error> =
        Err(Error::default()).context(|| "The context message.".to_owned());

    assert_eq!(
        err.unwrap_err().get_context().unwrap(),
        vec!["The context message."]
    );
}

#[test]
fn return_err_with_formatted_message() {
    let test = |fail| {
        if fail {
            return Err(Error::new(1).message(format!("The {} message.", "error")));
        }

        Ok(())
    };

    let error = test(true).unwrap_err();

    assert_eq!(error.get_message(), Some("The error message."));
    assert_eq!(error.get_status(), 1);
}

#[test]
fn return_err_with_message() {
    let test = |fail| {
        if fail {
            return Err(Error::new(1).message("The error message.".to_owned()));
        }

        Ok(())
    };

    let error = test(true).unwrap_err();

    assert_eq!(error.get_message(), Some("The error message."));
    assert_eq!(error.get_status(), 1);
}

#[test]
fn return_err_only_status() {
    let test = |fail| {
        if fail {
            return Err(Error::new(1));
        }

        Ok(())
    };

    let error = test(true).unwrap_err();

    assert_eq!(error.get_message(), None);
    assert_eq!(error.get_status(), 1);
}

#[test]
fn set_original_message() {
    let error = Error::default().message("The original message.".to_owned());

    assert_eq!(error.get_message(), Some("The original message."));
}

#[test]
fn display_scenario_reverse_order() {
    let error = Error::new(1)
        .message("The original error message.".to_owned())
        .context("Some added context.".to_owned())
        .context("Even more specific context.".to_owned());

    assert_eq!(
        error.render(),
        "Even more specific context.\n  Some added context.\n    The original error message.\n"
    );
}

#[test]
fn from_chain_single_level() {
    let error = Error::from_chain(vec!["The terminal message.".to_owned()], None);

    assert_eq!(error.get_context(), None);
    assert_eq!(error.get_message(), Some("The terminal message."));
    assert_eq!(error.get_status(), 1);
}

#[test]
fn from_chain_os_failure() {
    let error = Error::from_chain(
        vec![
            "The higher level failure.".to_owned(),
            "No such file or directory (os error 2)".to_owned(),
        ],
        Some(2),
    );

    assert_eq!(
        error.get_context(),
        Some(vec!["The higher level failure."])
    );
    assert_eq!(
        error.get_message(),
        Some("No such file or directory (os error 2)")
    );
    assert_eq!(error.get_status(), 2);
}

#[test]
fn from_chain_display_order() {
    let error = Error::from_chain(
        vec![
            "The outermost failure.".to_owned(),
            "The middle failure.".to_owned(),
            "The terminal failure.".to_owned(),
        ],
        None,
    );

    assert_eq!(
        error.render(),
        "The middle failure.\n  The outermost failure.\n    The terminal failure.\n"
    );
}

#[test]
fn context_is_lazy_on_success() {
    let invoked = Cell::new(false);
    let ok: Result<u32, Error> = Ok(42);

    let result = ok.context(|| {
        invoked.set(true);
        "Never produced.".to_owned()
    });

    assert_eq!(result.unwrap(), 42);
    assert!(!invoked.get());
}

#[test]
fn context_is_invoked_on_failure() {
    let invoked = Cell::new(false);
    let err: Result<u32, Error> = Err(Error::new(3));

    let result = err.context(|| {
        invoked.set(true);
        "Produced on failure.".to_owned()
    });

    assert!(invoked.get());
    let error = result.unwrap_err();
    assert_eq!(error.get_context().unwrap(), vec!["Produced on failure."]);
    assert_eq!(error.get_status(), 3);
}
