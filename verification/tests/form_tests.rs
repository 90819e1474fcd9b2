//! Tests of the contact-form controller: validation, submission, reset.

use portfolio_site::form::{Field, FormController, FormState, submission_status_message};

fn filled_controller() -> FormController {
    let mut c = FormController::new();
    c.update_field(Field::Name, String::from("Ada Lovelace"));
    c.update_field(Field::Email, String::from("ada@example.com"));
    c.update_field(Field::Subject, String::from("Hello"));
    c.update_field(Field::Message, String::from("A note."));
    c
}

#[test]
fn new_controller_is_editing_and_empty() {
    let c = FormController::new();
    assert!(matches!(c.state, FormState::Editing));
    assert_eq!(c.name, "");
    assert_eq!(c.email, "");
    assert_eq!(c.subject, "");
    assert_eq!(c.message, "");
    assert!(c.validation_errors.is_empty());
}

#[test]
fn submit_with_empty_name_is_rejected_with_name_error() {
    let mut c = filled_controller();
    c.update_field(Field::Name, String::new());
    let persisted = c.submit(String::from("2024-01-01 00:00:00 UTC"));
    assert!(persisted.is_none());
    assert!(matches!(c.state, FormState::Error(_)));
    assert!(!matches!(c.state, FormState::Submitted(_)));
    assert_eq!(c.validation_errors, vec!["Name is required"]);
}

#[test]
fn submit_with_empty_email_is_rejected_with_email_error() {
    let mut c = filled_controller();
    c.update_field(Field::Email, String::new());
    let persisted = c.submit(String::from("2024-01-01 00:00:00 UTC"));
    assert!(persisted.is_none());
    assert!(matches!(c.state, FormState::Error(_)));
    assert_eq!(c.validation_errors, vec!["Email is required"]);
}

#[test]
fn submit_with_empty_subject_is_rejected_with_subject_error() {
    let mut c = filled_controller();
    c.update_field(Field::Subject, String::new());
    let persisted = c.submit(String::from("2024-01-01 00:00:00 UTC"));
    assert!(persisted.is_none());
    assert!(matches!(c.state, FormState::Error(_)));
    assert_eq!(c.validation_errors, vec!["Subject is required"]);
}

#[test]
fn submit_with_empty_message_is_rejected_with_message_error() {
    let mut c = filled_controller();
    c.update_field(Field::Message, String::new());
    let persisted = c.submit(String::from("2024-01-01 00:00:00 UTC"));
    assert!(persisted.is_none());
    assert!(matches!(c.state, FormState::Error(_)));
    assert_eq!(c.validation_errors, vec!["Message is required"]);
}

#[test]
fn submit_with_email_without_at_sign_is_rejected() {
    let mut c = filled_controller();
    c.update_field(Field::Email, String::from("ada.example.com"));
    let persisted = c.submit(String::from("2024-01-01 00:00:00 UTC"));
    assert!(persisted.is_none());
    assert!(matches!(c.state, FormState::Error(m) if m == "Please fix the errors below"));
    assert_eq!(c.validation_errors, vec!["Please enter a valid email address"]);
}

#[test]
fn submit_with_everything_empty_collects_all_errors() {
    let mut c = FormController::new();
    let persisted = c.submit(String::from("t"));
    assert!(persisted.is_none());
    assert_eq!(
        c.validation_errors,
        vec![
            "Name is required",
            "Email is required",
            "Subject is required",
            "Message is required",
        ]
    );
}

#[test]
fn valid_submit_moves_to_submitted_and_hands_back_the_data() {
    let mut c = filled_controller();
    assert!(c.is_valid());
    let persisted = c.submit(String::from("2024-01-01 00:00:00 UTC"));
    let p = persisted.expect("a valid submit persists the data");
    assert_eq!(p.name, "Ada Lovelace");
    assert_eq!(p.email, "ada@example.com");
    assert_eq!(p.subject, "Hello");
    assert_eq!(p.message, "A note.");
    assert_eq!(p.submitted_at, "2024-01-01 00:00:00 UTC");
    match &c.state {
        FormState::Submitted(d) => {
            assert_eq!(d.name, "Ada Lovelace");
            assert_eq!(d.submitted_at, "2024-01-01 00:00:00 UTC");
        }
        _ => panic!("expected the submitted state"),
    }
    assert!(c.validation_errors.is_empty());
}

#[test]
fn submit_now_stamps_the_current_time() {
    let mut c = filled_controller();
    let persisted = c.submit_now();
    let p = persisted.expect("a valid submit persists the data");
    assert_eq!(p.name, "Ada Lovelace");
    assert!(!p.submitted_at.is_empty());
    assert!(p.submitted_at.ends_with(" UTC"));
    assert!(matches!(c.state, FormState::Submitted(_)));
}

fn reference_is_valid(name: &str, email: &str, subject: &str, message: &str) -> bool {
    !name.trim().is_empty()
        && !email.trim().is_empty()
        && !subject.trim().is_empty()
        && !message.trim().is_empty()
        && email.contains('@')
}

#[test]
fn is_valid_matches_the_reference_predicate_on_assorted_inputs() {
    let samples = [
        "", "a", "@", "a@b", "no-sign", "x y z", " ", "  \t\n ", "ada@example.com", "@@", "b@",
        " a@b ", "\u{00A0}", "\u{2003}\u{2003}",
    ];
    let mut lcg: u64 = 0x2545F491;
    for _ in 0..500 {
        let mut pick = || {
            lcg = lcg.wrapping_mul(6364136223846793005).wrapping_add(1442695040888963407);
            samples[(lcg >> 33) as usize % samples.len()]
        };
        let (n, e, s, m) = (pick(), pick(), pick(), pick());
        let mut c = FormController::new();
        c.update_field(Field::Name, String::from(n));
        c.update_field(Field::Email, String::from(e));
        c.update_field(Field::Subject, String::from(s));
        c.update_field(Field::Message, String::from(m));
        assert_eq!(c.is_valid(), reference_is_valid(n, e, s, m));
    }
}

#[test]
fn reset_from_error_returns_to_editing_with_everything_cleared() {
    let mut c = FormController::new();
    c.update_field(Field::Name, String::from("x"));
    let _ = c.submit(String::from("t"));
    assert!(matches!(c.state, FormState::Error(_)));
    c.reset();
    assert!(matches!(c.state, FormState::Editing));
    assert_eq!(c.name, "");
    assert_eq!(c.email, "");
    assert_eq!(c.subject, "");
    assert_eq!(c.message, "");
    assert!(c.validation_errors.is_empty());
}

#[test]
fn reset_from_submitted_returns_to_editing_with_everything_cleared() {
    let mut c = filled_controller();
    let _ = c.submit(String::from("t"));
    assert!(matches!(c.state, FormState::Submitted(_)));
    c.reset();
    assert!(matches!(c.state, FormState::Editing));
    assert_eq!(c.name, "");
    assert_eq!(c.email, "");
    assert_eq!(c.subject, "");
    assert_eq!(c.message, "");
    assert!(c.validation_errors.is_empty());
}

#[test]
fn reset_while_editing_clears_the_fields() {
    let mut c = filled_controller();
    c.reset();
    assert!(matches!(c.state, FormState::Editing));
    assert_eq!(c.name, "");
    assert!(c.validation_errors.is_empty());
}

#[test]
fn status_message_escapes_the_interpolated_name() {
    let m = submission_status_message("<script>alert(1)</script>");
    assert_eq!(
        m,
        "Thank you, &lt;script&gt;alert(1)&lt;/script&gt;! Your message has been received."
    );
    let plain = submission_status_message("Ada");
    assert_eq!(plain, "Thank you, Ada! Your message has been received.");
}

use portfolio_site::form::{field_error_message, field_is_valid};

#[test]
fn whitespace_only_fields_count_as_empty() {
    let mut c = filled_controller();
    c.update_field(Field::Name, String::from("   "));
    assert!(!c.is_valid());
    let persisted = c.submit(String::from("2024-01-01 00:00:00 UTC"));
    assert!(persisted.is_none());
    assert!(matches!(c.state, FormState::Error(_)));
    assert!(!matches!(c.state, FormState::Submitted(_)));
    assert_eq!(c.validation_errors, vec!["Name is required"]);
}

#[test]
fn a_field_with_surrounding_whitespace_counts_as_filled() {
    let mut c = filled_controller();
    c.update_field(Field::Email, String::from(" ada@example.com "));
    assert!(c.is_valid());
    let persisted = c.submit(String::from("2024-01-01 00:00:00 UTC"));
    assert!(persisted.is_some());
    assert!(matches!(c.state, FormState::Submitted(_)));
}

#[test]
fn field_checks_mirror_the_submit_checks() {
    assert!(field_is_valid(&Field::Name, "Ada"));
    assert!(!field_is_valid(&Field::Name, ""));
    assert!(!field_is_valid(&Field::Name, " \t "));
    assert!(!field_is_valid(&Field::Message, "\u{3000}"));
    assert!(field_is_valid(&Field::Email, "a@b"));
    assert!(!field_is_valid(&Field::Email, "ab"));
    assert!(!field_is_valid(&Field::Email, ""));
    assert!(field_is_valid(&Field::Subject, "s"));
    assert!(!field_is_valid(&Field::Subject, ""));
    assert!(field_is_valid(&Field::Message, "m"));
    assert!(!field_is_valid(&Field::Message, ""));
}

#[test]
fn each_field_has_its_own_error_message() {
    assert_eq!(field_error_message(&Field::Name), "Name is required");
    assert_eq!(field_error_message(&Field::Email), "Valid email is required");
    assert_eq!(field_error_message(&Field::Subject), "Subject is required");
    assert_eq!(field_error_message(&Field::Message), "Message is required");
}
