//! A sandbox image: how the build tool's output becomes an image, and how
//! the output of one run in it is classified.

use crate::text::{trim, trimmed};
use vstd::prelude::*;

verus! {

/// Builds an image from the recipe in a directory.
#[derive(Debug)]
pub struct ImageBuilder {
    directory: String,
}

/// A built image, named by the reference that the build tool printed.
#[derive(Debug)]
pub struct Image {
    image_id: String,
}

impl ImageBuilder {
    pub closed spec fn spec_directory(&self) -> Seq<char> {
        self.directory@
    }

    pub fn new(directory: String) -> (builder: ImageBuilder)
        ensures
            builder.spec_directory() == directory@,
    {
        ImageBuilder { directory }
    }

    /// The directory that is handed to the build tool.
    pub fn directory(&self) -> (directory: &String)
        ensures
            directory@ == self.spec_directory(),
    {
        &self.directory
    }

    /// Turns what the build tool printed into an image or a build failure.
    ///
    /// Anything on the error stream is a failure, reported as that text
    /// trimmed; otherwise the trimmed output is the image reference.
    pub fn build(self, stdout: &str, stderr: &str) -> (built: Result<Image, String>)
        ensures
            match built {
                Ok(image) => stderr@.len() == 0 && image.spec_image_id() == trimmed(stdout@),
                Err(message) => stderr@.len() > 0 && message@ == trimmed(stderr@),
            },
    {
        if !stderr.is_empty() {
            Err(trim(stderr).to_owned())
        } else {
            Ok(Image { image_id: trim(stdout).to_owned() })
        }
    }
}

/// What one run in an image left behind.
#[derive(Debug)]
pub struct RunOutput {
    /// The run was still going when its time limit passed.
    pub timed_out: bool,
    pub stdout: String,
    pub stderr: String,
}

/// How a run is classified: out of time first, then a non-empty error stream
/// as a failure with its trimmed text, else the output as it was printed.
pub open spec fn run_outcome(run: RunOutput) -> Result<Option<Seq<char>>, Seq<char>> {
    if run.timed_out {
        Ok(None)
    } else if run.stderr@.len() > 0 {
        Err(trimmed(run.stderr@))
    } else {
        Ok(Some(run.stdout@))
    }
}

/// The view of an outcome, text by text.
pub open spec fn outcome_view(outcome: Result<Option<String>, String>) -> Result<
    Option<Seq<char>>,
    Seq<char>,
> {
    match outcome {
        Ok(Some(output)) => Ok(Some(output@)),
        Ok(None) => Ok(None),
        Err(message) => Err(message@),
    }
}

impl Image {
    pub closed spec fn spec_image_id(&self) -> Seq<char> {
        self.image_id@
    }

    /// The reference under which the container tool knows the image.
    pub fn image_id(&self) -> (id: &String)
        ensures
            id@ == self.spec_image_id(),
    {
        &self.image_id
    }

    /// Classifies one run of the image.
    pub fn exec(&self, run: RunOutput) -> (outcome: Result<Option<String>, String>)
        ensures
            outcome_view(outcome) == run_outcome(run),
    {
        if run.timed_out {
            Ok(None)
        } else if !run.stderr.as_str().is_empty() {
            Err(trim(run.stderr.as_str()).to_owned())
        } else {
            Ok(Some(run.stdout))
        }
    }
}

} // verus!
