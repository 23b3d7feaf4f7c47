//! A container built with the `docker` tool, without time limits.

use crate::text::{trim, trimmed};
use vstd::prelude::*;

verus! {

/// Builds a container from the recipe in a directory.
#[derive(Debug)]
pub struct DockerBuilder {
    tag: Option<String>,
    directory: String,
}

/// A built container, named by the reference that the build tool printed.
#[derive(Clone, Debug)]
pub struct DockerContainer {
    image_id: String,
}

impl DockerBuilder {
    pub closed spec fn spec_directory(&self) -> Seq<char> {
        self.directory@
    }

    pub closed spec fn spec_tag(&self) -> Option<String> {
        self.tag
    }

    /// A builder for a directory, without a tag.
    pub fn new(directory: String) -> (builder: DockerBuilder)
        ensures
            builder.spec_directory() == directory@,
            builder.spec_tag() is None,
    {
        DockerBuilder { directory, tag: None }
    }

    /// The directory that is handed to the build tool.
    pub fn directory(&self) -> (directory: &String)
        ensures
            directory@ == self.spec_directory(),
    {
        &self.directory
    }

    /// Turns what the build tool printed into a container or a build
    /// failure: anything on the error stream is a failure, told as that text
    /// trimmed; otherwise the trimmed output is the image reference.
    pub fn build(self, stdout: &str, stderr: &str) -> (built: Result<DockerContainer, String>)
        ensures
            match built {
                Ok(container) => stderr@.len() == 0 && container.spec_image_id() == trimmed(
                    stdout@,
                ),
                Err(message) => stderr@.len() > 0 && message@ == trimmed(stderr@),
            },
    {
        if !stderr.is_empty() {
            Err(trim(stderr).to_owned())
        } else {
            Ok(DockerContainer { image_id: trim(stdout).to_owned() })
        }
    }
}

impl DockerContainer {
    pub closed spec fn spec_image_id(&self) -> Seq<char> {
        self.image_id@
    }

    /// The reference under which the container tool knows the image.
    pub fn image_id(&self) -> (id: &String)
        ensures
            id@ == self.spec_image_id(),
    {
        &self.image_id
    }

    /// Classifies one run of the container: a non-empty error stream is a
    /// failure with its trimmed text, else the output is handed on as it was
    /// printed.
    pub fn exec(&self, stdout: String, stderr: &str) -> (outcome: Result<String, String>)
        ensures
            match outcome {
                Ok(output) => stderr@.len() == 0 && output == stdout,
                Err(message) => stderr@.len() > 0 && message@ == trimmed(stderr@),
            },
    {
        if !stderr.is_empty() {
            Err(trim(stderr).to_owned())
        } else {
            Ok(stdout)
        }
    }
}

} // verus!
