//! The data of the sign-up form: what the user has typed, how an input
//! changes it, and the rule it has to meet before it is sent.

use vstd::prelude::*;
use crate::location::Location;

verus! {

/// The inputs of the sign-up form.
#[derive(Clone, Copy, Debug, PartialEq, Eq, Structural)]
pub enum FormFields {
    Email,
    FirstName,
    LastName,
    Location,
    Password1,
    Password2,
}

/// What the sign-up form sends to register an account.
#[derive(Debug)]
pub struct SignUpBody {
    pub email: String,
    pub first_name: String,
    pub last_name: String,
    pub location: Location,
    pub password1: String,
    pub password2: String,
}

/// A `SignUpBody` as plain texts.
pub ghost struct SignUpBodyView {
    pub email: Seq<char>,
    pub first_name: Seq<char>,
    pub last_name: Seq<char>,
    pub location: Location,
    pub password1: Seq<char>,
    pub password2: Seq<char>,
}

impl SignUpBodyView {
    /// The body of a form in which nothing has been typed yet.
    pub open spec fn blank() -> SignUpBodyView {
        SignUpBodyView {
            email: Seq::empty(),
            first_name: Seq::empty(),
            last_name: Seq::empty(),
            location: Location::NewZealand,
            password1: Seq::empty(),
            password2: Seq::empty(),
        }
    }

    /// The body after the input `field` has taken the text `text`. The
    /// location input takes the region that the text names; every other
    /// input takes the text itself.
    pub open spec fn with_field(self, field: FormFields, text: Seq<char>) -> SignUpBodyView {
        match field {
            FormFields::Email => SignUpBodyView { email: text, ..self },
            FormFields::FirstName => SignUpBodyView { first_name: text, ..self },
            FormFields::LastName => SignUpBodyView { last_name: text, ..self },
            FormFields::Location => SignUpBodyView { location: Location::parse(text), ..self },
            FormFields::Password1 => SignUpBodyView { password1: text, ..self },
            FormFields::Password2 => SignUpBodyView { password2: text, ..self },
        }
    }

    /// Whether the password and its confirmation are the same text.
    pub open spec fn passwords_match(self) -> bool {
        self.password1 == self.password2
    }
}

impl View for SignUpBody {
    type V = SignUpBodyView;

    open spec fn view(&self) -> SignUpBodyView {
        SignUpBodyView {
            email: self.email@,
            first_name: self.first_name@,
            last_name: self.last_name@,
            location: self.location,
            password1: self.password1@,
            password2: self.password2@,
        }
    }
}

impl Clone for SignUpBody {
    /// A copy that holds the same texts and the same location.
    fn clone(&self) -> (copy: Self)
        ensures
            copy@ == self@,
    {
        Self {
            email: self.email.clone(),
            first_name: self.first_name.clone(),
            last_name: self.last_name.clone(),
            location: self.location,
            password1: self.password1.clone(),
            password2: self.password2.clone(),
        }
    }
}

impl SignUpBody {
    /// The body of a form in which nothing has been typed yet: every text is
    /// empty and the location is New Zealand.
    pub fn new() -> (body: Self)
        ensures
            body@ == SignUpBodyView::blank(),
    {
        Self {
            email: String::new(),
            first_name: String::new(),
            last_name: String::new(),
            location: Location::NewZealand,
            password1: String::new(),
            password2: String::new(),
        }
    }
}

/// The errors shown in the sign-up form: one for the form as a whole and one
/// for each input.
#[derive(Debug)]
pub struct SignUpErrors {
    pub general: Option<String>,
    pub email: Option<String>,
    pub first_name: Option<String>,
    pub last_name: Option<String>,
    pub location: Option<String>,
    pub password1: Option<String>,
    pub password2: Option<String>,
}

impl Clone for SignUpErrors {
    /// A copy that records the same errors.
    fn clone(&self) -> (copy: Self)
        ensures
            copy == *self,
    {
        Self {
            general: self.general.clone(),
            email: self.email.clone(),
            first_name: self.first_name.clone(),
            last_name: self.last_name.clone(),
            location: self.location.clone(),
            password1: self.password1.clone(),
            password2: self.password2.clone(),
        }
    }
}

impl SignUpErrors {
    /// Whether no error is recorded, neither for the form nor for an input.
    pub open spec fn is_clear(&self) -> bool {
        &&& self.general is None
        &&& self.email is None
        &&& self.first_name is None
        &&& self.last_name is None
        &&& self.location is None
        &&& self.password1 is None
        &&& self.password2 is None
    }

    /// The errors of a form in which nothing has gone wrong.
    pub fn new() -> (errors: Self)
        ensures
            errors.is_clear(),
    {
        Self {
            general: None,
            email: None,
            first_name: None,
            last_name: None,
            location: None,
            password1: None,
            password2: None,
        }
    }
}

/// Records in `body` that the input `field` now holds `val`.
pub fn update_body(body: &mut SignUpBody, field: FormFields, val: String)
    ensures
        final(body)@ == old(body)@.with_field(field, val@),
{
    match field {
        FormFields::Email => body.email = val,
        FormFields::FirstName => body.first_name = val,
        FormFields::LastName => body.last_name = val,
        FormFields::Location => body.location = Location::from_str(&val),
        FormFields::Password1 => body.password1 = val,
        FormFields::Password2 => body.password2 = val,
    }
}

/// Checks the one rule that the form itself enforces: the password and its
/// confirmation have to be the same text.
pub fn validate_form(body: &SignUpBody) -> (outcome: Result<(), String>)
    ensures
        outcome is Ok <==> body@.passwords_match(),
        outcome matches Err(message) ==> message@ == "Passwords do not match"@,
{
    if body.password1 != body.password2 {
        return Err("Passwords do not match".to_string());
    }
    Ok(())
}

} // verus!
