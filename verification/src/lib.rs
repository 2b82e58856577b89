//! The logic of a sign-up form: the state of its inputs, the data it
//! collects, the rule that data has to meet, and the texts that stand for
//! its regions and spinner colours.

pub mod forms;
pub mod location;
pub mod sign_up;
pub mod spinner;
pub mod text;

pub use forms::{FieldValue, FormField};
pub use location::Location;
pub use sign_up::{update_body, validate_form, FormFields, SignUpBody, SignUpErrors};
pub use spinner::{spinner_class, SpinnerColor};
