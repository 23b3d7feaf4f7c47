//! A request to add a user to a class.

use crate::database::auth::token_hash;
use crate::model::validation_object::{validation, ValidationObject};
use vstd::prelude::*;

verus! {

#[derive(Clone, Debug)]
pub struct AddToClassObject {
    /// The token of the session, in base64.
    pub session_hash: String,
    pub class_name: String,
    pub user_name: String,
}

impl AddToClassObject {
    /// The session of the request, to be validated for the class.
    pub fn into_validation(self) -> (object: Option<ValidationObject>)
        ensures
            match object {
                Some(o) => o.class == Some(self.class_name) && token_hash(self.session_hash@)
                    == Some(o.session_hash@),
                None => token_hash(self.session_hash@) is None,
            },
    {
        validation(Some(self.class_name), self.session_hash.as_str())
    }
}

} // verus!
