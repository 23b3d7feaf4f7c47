//! A request to create a class.

use crate::database::auth::token_hash;
use crate::model::validation_object::{validation, ValidationObject};
use vstd::prelude::*;

verus! {

#[derive(Clone, Debug)]
pub struct NewClassObject {
    pub session_base: String,
    pub class_number: String,
    pub instructor_user_name: String,
}

impl NewClassObject {
    /// The session of the request, to be validated for the new class.
    pub fn into_validation(self) -> (object: Option<ValidationObject>)
        ensures
            match object {
                Some(o) => o.class == Some(self.class_number) && token_hash(self.session_base@)
                    == Some(o.session_hash@),
                None => token_hash(self.session_base@) is None,
            },
    {
        validation(Some(self.class_number), self.session_base.as_str())
    }
}

} // verus!
