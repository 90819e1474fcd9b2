//! The contact-form controller: a client-side state machine over four text
//! fields, with field validation on submit and a reset that always returns
//! to the editing state.
//!
//! A field counts as filled only when it holds a non-whitespace
//! character: the emptiness checks read each value as trimmed, so a
//! whitespace-only field is empty and fails its check. The at-sign test
//! on the email reads the untrimmed value.

use vstd::prelude::*;
use crate::escape::{escape_html, escape_html_text};
use crate::strtools::{contains_char, is_blank, is_blank_str};

verus! {

/// One of the four required form fields.
pub enum Field {
    Name,
    Email,
    Subject,
    Message,
}

/// A successful submission: the four fields and the submission time.
pub struct FormData {
    pub name: String,
    pub email: String,
    pub subject: String,
    pub message: String,
    pub submitted_at: String,
}

/// The lifecycle of the form. The initial state is `Editing`; `Submitted`
/// and `Error` can always return to `Editing` through a reset.
pub enum FormState {
    Editing,
    Submitted(FormData),
    Error(String),
}

/// The form controller: the current state, the four field values, and the
/// validation messages gathered by the last failed submit.
pub struct FormController {
    pub state: FormState,
    pub name: String,
    pub email: String,
    pub subject: String,
    pub message: String,
    pub validation_errors: Vec<String>,
}

pub const MSG_NAME_REQUIRED: &'static str = "Name is required";

pub const MSG_EMAIL_REQUIRED: &'static str = "Email is required";

pub const MSG_EMAIL_INVALID: &'static str = "Please enter a valid email address";

pub const MSG_SUBJECT_REQUIRED: &'static str = "Subject is required";

pub const MSG_MESSAGE_REQUIRED: &'static str = "Message is required";

pub const MSG_FIX_ERRORS: &'static str = "Please fix the errors below";

/// The form is valid exactly when all four fields are filled — not blank,
/// that is non-empty once trimmed — and the email field contains an at
/// sign.
pub open spec fn spec_is_valid(
    name: Seq<char>,
    email: Seq<char>,
    subject: Seq<char>,
    message: Seq<char>,
) -> bool {
    !is_blank(name) && !is_blank(email) && !is_blank(subject) && !is_blank(message)
        && email.contains('@')
}

/// The validation messages of a failed submit, in field order: one message
/// for each blank field, and one for an email without an at sign.
pub open spec fn spec_validation_errors(
    name: Seq<char>,
    email: Seq<char>,
    subject: Seq<char>,
    message: Seq<char>,
) -> Seq<Seq<char>> {
    (if is_blank(name) {
        seq![MSG_NAME_REQUIRED@]
    } else {
        Seq::<Seq<char>>::empty()
    }) + (if is_blank(email) {
        seq![MSG_EMAIL_REQUIRED@]
    } else if !email.contains('@') {
        seq![MSG_EMAIL_INVALID@]
    } else {
        Seq::<Seq<char>>::empty()
    }) + (if is_blank(subject) {
        seq![MSG_SUBJECT_REQUIRED@]
    } else {
        Seq::<Seq<char>>::empty()
    }) + (if is_blank(message) {
        seq![MSG_MESSAGE_REQUIRED@]
    } else {
        Seq::<Seq<char>>::empty()
    })
}

/// The validation message owed when the given field is blank.
pub open spec fn spec_required_message(f: Field) -> Seq<char> {
    match f {
        Field::Name => MSG_NAME_REQUIRED@,
        Field::Email => MSG_EMAIL_REQUIRED@,
        Field::Subject => MSG_SUBJECT_REQUIRED@,
        Field::Message => MSG_MESSAGE_REQUIRED@,
    }
}

/// The value the controller holds for the given field.
pub open spec fn spec_field_value(
    f: Field,
    name: Seq<char>,
    email: Seq<char>,
    subject: Seq<char>,
    message: Seq<char>,
) -> Seq<char> {
    match f {
        Field::Name => name,
        Field::Email => email,
        Field::Subject => subject,
        Field::Message => message,
    }
}

/// A failed submit is never valid, and its message list names every blank
/// field: submitting with any one of the four fields blank — empty or
/// whitespace-only — leaves a validation error that references that field.
pub proof fn lemma_blank_field_rejected(
    f: Field,
    name: Seq<char>,
    email: Seq<char>,
    subject: Seq<char>,
    message: Seq<char>,
)
    requires
        is_blank(spec_field_value(f, name, email, subject, message)),
    ensures
        !spec_is_valid(name, email, subject, message),
        spec_validation_errors(name, email, subject, message).contains(spec_required_message(f)),
{
    let errs = spec_validation_errors(name, email, subject, message);
    let m = spec_required_message(f);
    match f {
        Field::Name => {
            assert(errs[0] == m);
        },
        Field::Email => {
            let i: int = if is_blank(name) {
                1
            } else {
                0
            };
            assert(errs[i] == m);
        },
        Field::Subject => {
            let i: int = (if is_blank(name) {
                1int
            } else {
                0int
            }) + (if is_blank(email) || !email.contains('@') {
                1int
            } else {
                0int
            });
            assert(errs[i] == m);
        },
        Field::Message => {
            let i: int = (if is_blank(name) {
                1int
            } else {
                0int
            }) + (if is_blank(email) || !email.contains('@') {
                1int
            } else {
                0int
            }) + (if is_blank(subject) {
                1int
            } else {
                0int
            });
            assert(errs[i] == m);
        },
    }
}

/// Where exactly one field is blank and the other three pass their own
/// checks, a submit collects exactly one message: the blank field's.
pub proof fn lemma_one_blank_field_gives_one_error(
    f: Field,
    name: Seq<char>,
    email: Seq<char>,
    subject: Seq<char>,
    message: Seq<char>,
)
    requires
        is_blank(spec_field_value(f, name, email, subject, message)),
        forall|g: Field|
            g != f ==> spec_field_is_valid(
                g,
                #[trigger] spec_field_value(g, name, email, subject, message),
            ),
    ensures
        !spec_is_valid(name, email, subject, message),
        spec_validation_errors(name, email, subject, message) =~= seq![spec_required_message(f)],
{
    assert(spec_field_value(Field::Name, name, email, subject, message) == name);
    assert(spec_field_value(Field::Email, name, email, subject, message) == email);
    assert(spec_field_value(Field::Subject, name, email, subject, message) == subject);
    assert(spec_field_value(Field::Message, name, email, subject, message) == message);
}

/// The message list of a valid form is empty, and of an invalid form is
/// not: validation errors are reported exactly when the form is invalid.
pub proof fn lemma_errors_iff_invalid(
    name: Seq<char>,
    email: Seq<char>,
    subject: Seq<char>,
    message: Seq<char>,
)
    ensures
        spec_is_valid(name, email, subject, message) <==> spec_validation_errors(
            name,
            email,
            subject,
            message,
        ).len() == 0,
{
}

impl FormController {
    /// A fresh controller: editing, with every field empty.
    pub fn new() -> (c: FormController)
        ensures
            c.state is Editing,
            c.name@ == Seq::<char>::empty(),
            c.email@ == Seq::<char>::empty(),
            c.subject@ == Seq::<char>::empty(),
            c.message@ == Seq::<char>::empty(),
            c.validation_errors@ == Seq::<String>::empty(),
    {
        FormController {
            state: FormState::Editing,
            name: String::new(),
            email: String::new(),
            subject: String::new(),
            message: String::new(),
            validation_errors: Vec::new(),
        }
    }

    /// Stores the value of one field; nothing is validated until submit.
    pub fn update_field(&mut self, f: Field, value: String)
        ensures
            final (self).name@ == if f is Name {
                value@
            } else {
                old(self).name@
            },
            final (self).email@ == if f is Email {
                value@
            } else {
                old(self).email@
            },
            final (self).subject@ == if f is Subject {
                value@
            } else {
                old(self).subject@
            },
            final (self).message@ == if f is Message {
                value@
            } else {
                old(self).message@
            },
            final (self).state == old(self).state,
            final (self).validation_errors == old(self).validation_errors,
    {
        match f {
            Field::Name => {
                self.name = value;
            },
            Field::Email => {
                self.email = value;
            },
            Field::Subject => {
                self.subject = value;
            },
            Field::Message => {
                self.message = value;
            },
        }
    }

    /// Whether the current field values would pass a submit: all four
    /// fields filled — not blank — and the email contains an at sign.
    pub fn is_valid(&self) -> (r: bool)
        ensures
            r == spec_is_valid(self.name@, self.email@, self.subject@, self.message@),
    {
        !is_blank_str(self.name.as_str()) && !is_blank_str(self.email.as_str()) && !is_blank_str(
            self.subject.as_str(),
        ) && !is_blank_str(self.message.as_str()) && contains_char(self.email.as_str(), '@')
    }

    /// Returns to editing with every field and every message cleared,
    /// whatever state the controller was in.
    pub fn reset(&mut self)
        ensures
            final (self).state is Editing,
            final (self).name@ == Seq::<char>::empty(),
            final (self).email@ == Seq::<char>::empty(),
            final (self).subject@ == Seq::<char>::empty(),
            final (self).message@ == Seq::<char>::empty(),
            final (self).validation_errors@ == Seq::<String>::empty(),
    {
        self.state = FormState::Editing;
        self.name = String::new();
        self.email = String::new();
        self.subject = String::new();
        self.message = String::new();
        self.validation_errors = Vec::new();
    }

    /// Validates the fields and either moves to `Submitted` with the form
    /// data stamped at `submitted_at`, handing back a copy to persist, or
    /// moves to `Error` with the messages of every failing check.
    pub fn submit(&mut self, submitted_at: String) -> (persisted: Option<FormData>)
        ensures
            final (self).name@ == old(self).name@,
            final (self).email@ == old(self).email@,
            final (self).subject@ == old(self).subject@,
            final (self).message@ == old(self).message@,
            spec_is_valid(old(self).name@, old(self).email@, old(self).subject@, old(self).message@)
                ==> {
                &&& final (self).state is Submitted
                &&& final (self).state->Submitted_0.name@ == old(self).name@
                &&& final (self).state->Submitted_0.email@ == old(self).email@
                &&& final (self).state->Submitted_0.subject@ == old(self).subject@
                &&& final (self).state->Submitted_0.message@ == old(self).message@
                &&& final (self).state->Submitted_0.submitted_at@ == submitted_at@
                &&& final (self).validation_errors@ == Seq::<String>::empty()
                &&& persisted is Some
                &&& persisted->0.name@ == old(self).name@
                &&& persisted->0.email@ == old(self).email@
                &&& persisted->0.subject@ == old(self).subject@
                &&& persisted->0.message@ == old(self).message@
                &&& persisted->0.submitted_at@ == submitted_at@
            },
            !spec_is_valid(
                old(self).name@,
                old(self).email@,
                old(self).subject@,
                old(self).message@,
            ) ==> {
                &&& final (self).state is Error
                &&& final (self).state->Error_0@ == MSG_FIX_ERRORS@
                &&& final (self).validation_errors.deep_view() == spec_validation_errors(
                    old(self).name@,
                    old(self).email@,
                    old(self).subject@,
                    old(self).message@,
                )
                &&& persisted is None
            },
    {
        let ghost errs_spec = spec_validation_errors(
            self.name@,
            self.email@,
            self.subject@,
            self.message@,
        );
        let mut errors: Vec<String> = Vec::new();
        if is_blank_str(self.name.as_str()) {
            errors.push(String::from_str(MSG_NAME_REQUIRED));
        }
        if is_blank_str(self.email.as_str()) {
            errors.push(String::from_str(MSG_EMAIL_REQUIRED));
        } else if !contains_char(self.email.as_str(), '@') {
            errors.push(String::from_str(MSG_EMAIL_INVALID));
        }
        if is_blank_str(self.subject.as_str()) {
            errors.push(String::from_str(MSG_SUBJECT_REQUIRED));
        }
        if is_blank_str(self.message.as_str()) {
            errors.push(String::from_str(MSG_MESSAGE_REQUIRED));
        }
        assert(errors.deep_view() =~= errs_spec);
        if errors.len() > 0 {
            assert(!spec_is_valid(self.name@, self.email@, self.subject@, self.message@));
            self.validation_errors = errors;
            self.state = FormState::Error(String::from_str(MSG_FIX_ERRORS));
            None
        } else {
            assert(spec_is_valid(self.name@, self.email@, self.subject@, self.message@));
            let data = FormData {
                name: self.name.clone(),
                email: self.email.clone(),
                subject: self.subject.clone(),
                message: self.message.clone(),
                submitted_at: submitted_at.clone(),
            };
            let copy = FormData {
                name: self.name.clone(),
                email: self.email.clone(),
                subject: self.subject.clone(),
                message: self.message.clone(),
                submitted_at,
            };
            self.validation_errors = Vec::new();
            self.state = FormState::Submitted(data);
            Some(copy)
        }
    }

    /// Validates and submits with the current time as the timestamp.
    /// Whatever the clock returned, the outcome is the same as a submit
    /// with that timestamp.
    pub fn submit_now(&mut self) -> (persisted: Option<FormData>)
        ensures
            final (self).name@ == old(self).name@,
            final (self).email@ == old(self).email@,
            final (self).subject@ == old(self).subject@,
            final (self).message@ == old(self).message@,
            spec_is_valid(old(self).name@, old(self).email@, old(self).subject@, old(self).message@)
                ==> {
                &&& final (self).state is Submitted
                &&& final (self).state->Submitted_0.name@ == old(self).name@
                &&& final (self).state->Submitted_0.email@ == old(self).email@
                &&& final (self).state->Submitted_0.subject@ == old(self).subject@
                &&& final (self).state->Submitted_0.message@ == old(self).message@
                &&& final (self).validation_errors@ == Seq::<String>::empty()
                &&& persisted is Some
                &&& persisted->0.name@ == old(self).name@
                &&& persisted->0.email@ == old(self).email@
                &&& persisted->0.subject@ == old(self).subject@
                &&& persisted->0.message@ == old(self).message@
                &&& persisted->0.submitted_at@ == final (self).state->Submitted_0.submitted_at@
            },
            !spec_is_valid(
                old(self).name@,
                old(self).email@,
                old(self).subject@,
                old(self).message@,
            ) ==> {
                &&& final (self).state is Error
                &&& final (self).state->Error_0@ == MSG_FIX_ERRORS@
                &&& final (self).validation_errors.deep_view() == spec_validation_errors(
                    old(self).name@,
                    old(self).email@,
                    old(self).subject@,
                    old(self).message@,
                )
                &&& persisted is None
            },
    {
        let ts = now_utc_string();
        self.submit(ts)
    }
}

pub const STATUS_A: &'static str = "Thank you, ";

pub const STATUS_B: &'static str = "! Your message has been received.";

/// The status line shown after a successful submission, with the
/// user-supplied name escaped before it is interpolated into markup.
pub open spec fn spec_submission_status(name: Seq<char>) -> Seq<char> {
    STATUS_A@ + escape_html(name) + STATUS_B@
}

/// Renders the status line for a successful submission.
pub fn submission_status_message(name: &str) -> (r: String)
    ensures
        r@ == spec_submission_status(name@),
{
    let e = escape_html_text(name);
    let mut r = String::from_str(STATUS_A);
    r.append(e.as_str());
    r.append(STATUS_B);
    r
}

/// Relies on `chrono::Utc::now`, formatted as `%Y-%m-%d %H:%M:%S UTC`:
/// the current time as text. The result depends on the clock, so nothing
/// is promised of it; a host clock set before the Unix epoch makes the
/// call fail.
#[verifier::external_body]
fn now_utc_string() -> String {
    chrono::Utc::now().format("%Y-%m-%d %H:%M:%S UTC").to_string()
}

pub const MSG_EMAIL_FIELD_INVALID: &'static str = "Valid email is required";

/// One field's own check: a filled — non-blank — value, and for the email
/// field a value that also contains an at sign.
pub open spec fn spec_field_is_valid(f: Field, value: Seq<char>) -> bool {
    match f {
        Field::Email => !is_blank(value) && value.contains('@'),
        _ => !is_blank(value),
    }
}

/// Whether one field's value passes its own check.
pub fn field_is_valid(f: &Field, value: &str) -> (r: bool)
    ensures
        r == spec_field_is_valid(*f, value@),
{
    match f {
        Field::Email => !is_blank_str(value) && contains_char(value, '@'),
        _ => !is_blank_str(value),
    }
}

/// The message shown beside a field that fails its own check.
pub fn field_error_message(f: &Field) -> (r: &'static str)
    ensures
        f is Name ==> r@ == MSG_NAME_REQUIRED@,
        f is Email ==> r@ == MSG_EMAIL_FIELD_INVALID@,
        f is Subject ==> r@ == MSG_SUBJECT_REQUIRED@,
        f is Message ==> r@ == MSG_MESSAGE_REQUIRED@,
{
    match f {
        Field::Name => MSG_NAME_REQUIRED,
        Field::Email => MSG_EMAIL_FIELD_INVALID,
        Field::Subject => MSG_SUBJECT_REQUIRED,
        Field::Message => MSG_MESSAGE_REQUIRED,
    }
}

/// The whole form is valid exactly when each of the four fields passes
/// its own check.
pub proof fn lemma_valid_iff_each_field_valid(
    name: Seq<char>,
    email: Seq<char>,
    subject: Seq<char>,
    message: Seq<char>,
)
    ensures
        spec_is_valid(name, email, subject, message) <==> (spec_field_is_valid(Field::Name, name)
            && spec_field_is_valid(Field::Email, email) && spec_field_is_valid(
            Field::Subject,
            subject,
        ) && spec_field_is_valid(Field::Message, message)),
{
}

} // verus!
