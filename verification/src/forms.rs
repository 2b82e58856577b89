//! A form field: the value an input holds and the error shown beside it.

use vstd::prelude::*;
use crate::location::Location;

verus! {

/// A value that an input can hold. Its text is what the input displays.
pub trait FieldValue {
    /// The text that stands for the value.
    spec fn text(&self) -> Seq<char>;

    /// The text of the value as an owned string.
    fn to_text(&self) -> (text: String)
        ensures
            text@ == self.text(),
    ;
}

impl FieldValue for String {
    open spec fn text(&self) -> Seq<char> {
        self@
    }

    fn to_text(&self) -> (text: String) {
        self.clone()
    }
}

impl FieldValue for Location {
    open spec fn text(&self) -> Seq<char> {
        self.code()
    }

    fn to_text(&self) -> (text: String) {
        self.to_string()
    }
}

/// The state of one input of a form.
pub struct FormField<T> where T: Clone + FieldValue {
    value: T,
    error: Option<String>,
}

impl<T> Clone for FormField<T> where T: Clone + FieldValue {
    /// A copy that holds a clone of the value and the same error.
    fn clone(&self) -> (copy: Self)
        ensures
            cloned(self.value(), copy.value()),
            copy.error() == self.error(),
    {
        Self { value: self.value.clone(), error: self.error.clone() }
    }
}

impl<T> FormField<T> where T: Clone + FieldValue {
    /// The value that the field holds.
    pub closed spec fn value(&self) -> T {
        self.value
    }

    /// The message of the error attached to the field, if there is one.
    pub closed spec fn error(&self) -> Option<Seq<char>> {
        match self.error {
            Some(message) => Some(message@),
            None => None,
        }
    }

    /// A field that holds `value` and has no error.
    pub fn new(value: T) -> (field: Self)
        ensures
            field.value() == value,
            field.error() is None,
    {
        Self { value, error: None }
    }

    /// Replaces the value. The error stays as it is.
    pub fn update(&mut self, value: T)
        ensures
            final(self).value() == value,
            final(self).error() == old(self).error(),
    {
        self.value = value;
    }

    /// Attaches an error, in place of the one that was there.
    pub fn set_error(&mut self, error: String)
        ensures
            final(self).value() == old(self).value(),
            final(self).error() == Some(error@),
    {
        self.error = Some(error);
    }

    /// Removes the error, if there is one.
    pub fn clear_error(&mut self)
        ensures
            final(self).value() == old(self).value(),
            final(self).error() is None,
    {
        self.error = None;
    }

    /// The text of the value.
    pub fn val(&self) -> (text: String)
        ensures
            text@ == self.value().text(),
    {
        self.value.to_text()
    }

    /// The error attached to the field, if there is one.
    pub fn err(&self) -> (error: Option<&String>)
        ensures
            error is Some <==> self.error() is Some,
            error matches Some(message) ==> self.error() == Some(message@),
    {
        self.error.as_ref()
    }

    /// Whether an error is attached to the field.
    pub fn has_error(&self) -> (found: bool)
        ensures
            found == (self.error() is Some),
    {
        self.error.is_some()
    }
}

} // verus!
