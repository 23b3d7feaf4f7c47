//! What a client may send: one record with every field optional, and the
//! task and test descriptions of a new assignment.

use vstd::prelude::*;

verus! {

/// A test as an instructor describes it. Input and output are given either
/// as text or as the base64 of a file; where both are given, the file wins.
#[derive(Debug, Default)]
pub struct Test {
    pub test_name: Option<String>,
    pub is_public: bool,
    pub input: Option<String>,
    pub output: Option<String>,
    pub input_file_base64: Option<String>,
    pub output_file_base64: Option<String>,
}

/// A task as an instructor describes it.
#[derive(Debug, Default)]
pub struct Task {
    pub task_description: String,
    pub allow_editor: bool,
    pub material_base64: Option<String>,
    pub material_filename: Option<String>,
    pub timeout: Option<i32>,
    pub tests: Vec<Test>,
}

/// The body of a request. Each endpoint reads the fields it needs.
#[derive(Debug, Default)]
pub struct ClientRequest {
    pub user_name: Option<String>,
    pub pass: Option<String>,
    pub class_number: Option<String>,
    pub instructor_user_name: Option<String>,
    pub class_description: Option<String>,
    pub student_user_name: Option<String>,
    pub first_name: Option<String>,
    pub last_name: Option<String>,
    pub email: Option<String>,
    pub assignment_name: Option<String>,
    pub assignment_description: Option<String>,
    pub deadline: Option<String>,
    pub tasks: Option<Vec<Task>>,
    pub assignment_id: Option<i32>,
    pub lang: Option<String>,
    pub zip_file: Option<Vec<u8>>,
    pub join_code: Option<String>,
}

/// Both fields, if both are present.
pub open spec fn both(first: Option<String>, second: Option<String>) -> Option<(String, String)> {
    match (first, second) {
        (Some(a), Some(b)) => Some((a, b)),
        _ => None,
    }
}

/// All three fields, if all are present.
pub open spec fn all_three(
    first: Option<String>,
    second: Option<String>,
    third: Option<String>,
) -> Option<(String, String, String)> {
    match (first, second, third) {
        (Some(a), Some(b), Some(c)) => Some((a, b, c)),
        _ => None,
    }
}

fn pair(first: &Option<String>, second: &Option<String>) -> (r: Option<(String, String)>)
    ensures
        r == both(*first, *second),
{
    match (first, second) {
        (Some(a), Some(b)) => Some((a.clone(), b.clone())),
        _ => None,
    }
}

impl ClientRequest {
    /// The login fields `(user_name, pass)`, if both are present.
    pub fn get_login(&self) -> (r: Option<(String, String)>)
        ensures
            r == both(self.user_name, self.pass),
    {
        pair(&self.user_name, &self.pass)
    }

    /// The fields of a new class `(class_number, class_description,
    /// instructor_user_name)`, if all are present.
    pub fn get_new_class(&self) -> (r: Option<(String, String, String)>)
        ensures
            r == all_three(self.class_number, self.class_description, self.instructor_user_name),
    {
        match (&self.class_number, &self.class_description, &self.instructor_user_name) {
            (Some(a), Some(b), Some(c)) => Some((a.clone(), b.clone(), c.clone())),
            _ => None,
        }
    }

    /// The fields that enrol a student `(class_number, student_user_name)`,
    /// if both are present.
    pub fn get_new_student(&self) -> (r: Option<(String, String)>)
        ensures
            r == both(self.class_number, self.student_user_name),
    {
        pair(&self.class_number, &self.student_user_name)
    }

    /// The fields that appoint an instructor `(class_number,
    /// instructor_user_name)`, if both are present.
    pub fn get_new_instructor(&self) -> (r: Option<(String, String)>)
        ensures
            r == both(self.class_number, self.instructor_user_name),
    {
        pair(&self.class_number, &self.instructor_user_name)
    }
}

} // verus!
