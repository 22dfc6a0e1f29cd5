//! Mail addresses and outgoing messages.
//!
//! An [`Email`] can only be made from a string that the `validator` crate
//! accepts as a mail address, so whoever holds one holds a valid address.
use vstd::prelude::*;

verus! {

/// Whether the `validator` crate accepts `address` as a mail address.
pub uninterp spec fn email_is_valid(address: Seq<char>) -> bool;

/// `validator::ValidateEmail::validate_email` on a `String`: the check of the
/// HTML5 address grammar, with the length limits of the two parts and the
/// second try for international domain names. The result depends on the text
/// alone. An address without `@` is never accepted.
#[verifier::external_body]
fn validate_email(address: &String) -> (valid: bool)
    ensures
        valid == email_is_valid(address@),
        !address@.contains('@') ==> !valid,
{
    validator::ValidateEmail::validate_email(address)
}

/// Why a string is no mail address.
#[derive(Clone, Copy, Debug, PartialEq, Eq, Structural)]
pub enum EmailError {
    /// The text is not a valid mail address.
    InvalidEmail,
}

impl EmailError {
    /// The text under which the error is reported.
    pub open spec fn text(self) -> Seq<char> {
        "error in the request body"@
    }

    /// The field that the error is about.
    pub fn field(&self) -> (name: &'static str)
        ensures
            name@ == "email"@,
    {
        "email"
    }

    /// What is wrong with the field.
    pub fn reason(&self) -> (reason: &'static str)
        ensures
            reason@ == "invalid email"@,
    {
        "invalid email"
    }

    /// The text under which the error is reported.
    pub fn describe(&self) -> (text: String)
        ensures
            text@ == self.text(),
    {
        String::from_str("error in the request body")
    }
}

/// A valid mail address.
#[derive(Debug)]
pub struct Email(String);

impl View for Email {
    type V = Seq<char>;

    closed spec fn view(&self) -> Seq<char> {
        self.0@
    }
}

impl Clone for Email {
    fn clone(&self) -> (copy: Self)
        ensures
            copy@ == self@,
    {
        proof {
            use_type_invariant(self);
        }
        Email(self.0.clone())
    }
}

impl Email {
    #[verifier::type_invariant]
    spec fn holds_valid_address(self) -> bool {
        email_is_valid(self.0@)
    }

    /// Accepts `s` as an address exactly when it is valid.
    pub fn parse(s: String) -> (parsed: Result<Email, EmailError>)
        ensures
            parsed is Ok <==> email_is_valid(s@),
            parsed matches Ok(email) ==> email@ == s@,
            parsed matches Err(error) ==> error == EmailError::InvalidEmail,
            !s@.contains('@') ==> !email_is_valid(s@),
    {
        if validate_email(&s) {
            Ok(Email(s))
        } else {
            Err(EmailError::InvalidEmail)
        }
    }

    /// The address as text.
    pub fn as_str(&self) -> (text: &str)
        ensures
            text@ == self@,
            email_is_valid(text@),
    {
        proof {
            use_type_invariant(self);
        }
        self.0.as_str()
    }

    /// The address as an owned string.
    pub fn into_string(self) -> (text: String)
        ensures
            text@ == self@,
            email_is_valid(text@),
    {
        proof {
            use_type_invariant(&self);
        }
        self.0
    }
}

/// A message handed to the sender: recipient, subject and the two bodies.
#[derive(Debug)]
pub struct OutgoingEmail {
    pub recipient: Email,
    pub subject: String,
    pub html_body: String,
    pub text_body: String,
}

/// An outgoing message as plain text.
pub struct OutgoingEmailView {
    pub recipient: Seq<char>,
    pub subject: Seq<char>,
    pub html_body: Seq<char>,
    pub text_body: Seq<char>,
}

impl View for OutgoingEmail {
    type V = OutgoingEmailView;

    open spec fn view(&self) -> OutgoingEmailView {
        OutgoingEmailView {
            recipient: self.recipient@,
            subject: self.subject@,
            html_body: self.html_body@,
            text_body: self.text_body@,
        }
    }
}

impl Clone for OutgoingEmail {
    fn clone(&self) -> (copy: Self)
        ensures
            copy@ == self@,
    {
        OutgoingEmail {
            recipient: self.recipient.clone(),
            subject: self.subject.clone(),
            html_body: self.html_body.clone(),
            text_body: self.text_body.clone(),
        }
    }
}

} // verus!
