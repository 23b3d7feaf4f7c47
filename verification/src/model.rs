//! The values that travel between the client, the grader and the store.

pub mod add_to_class_object;
pub mod assignment_grade;
pub mod assignment_item;
pub mod class_info;
pub mod class_item;
pub mod file_object;
pub mod login_object;
pub mod new_class_object;
pub mod new_user_object;
pub mod request;
pub mod response_object;
pub mod simple_response;
pub mod submission_object;
pub mod submission_response;
pub mod supplementary_material;
pub mod user_info;
pub mod validation_object;
