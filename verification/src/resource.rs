//! Paths below the directory of the application's resources.

use vstd::prelude::*;

verus! {

/// The path that std makes of `base` with `part` pushed behind it, as text:
/// what `PathBuf::from_iter` gives for the two, read back with
/// `Path::to_str`. How the two are joined is laid down by the path rules of
/// the platform that the crate is built for; the text is `None` where the
/// path is not valid Unicode, which a path made of two texts never is.
pub uninterp spec fn joined_text(base: Seq<char>, part: Seq<char>) -> Option<Seq<char>>;

/// An optional string as plain text.
pub open spec fn joined_view(joined: Option<String>) -> Option<Seq<char>> {
    match joined {
        Some(path) => Some(path@),
        None => None,
    }
}

/// std's `PathBuf::from_iter` pushes `base` and then `part` onto an empty
/// path, and `Path::to_str` turns the path into text, or into `None` where
/// it is not valid Unicode. The path is made of the two arguments and of
/// nothing else, so the text depends on them alone; and since both are
/// valid Unicode, so is the path, and there is always a text.
#[verifier::external_body]
fn join_text(base: &str, part: &str) -> (joined: Option<String>)
    ensures
        joined_view(joined) == joined_text(base@, part@),
        joined is Some,
{
    let path = std::path::PathBuf::from_iter([base, part]);
    match path.to_str() {
        Some(text) => Some(String::from(text)),
        None => None,
    }
}

/// A path to something among the application's resources, as text. Once
/// made, it is only read.
#[derive(Debug, Clone, PartialEq, Eq)]
pub struct Resource(String);

impl View for Resource {
    type V = Seq<char>;

    closed spec fn view(&self) -> Seq<char> {
        self.0@
    }
}

/// What is reported when the resource directory, or `p` below it, could not
/// be resolved.
pub open spec fn resolve_error(p: Seq<char>) -> Seq<char> {
    "[ERROR] Unable to resolve path: "@ + p
}

/// What is reported when `p` could not be joined to a resource.
pub open spec fn join_error(p: Seq<char>) -> Seq<char> {
    "[ERROR] Unable to join path: "@ + p
}

/// The outcome of a join: the resource at `joined`, or `error` where there is
/// no such text.
pub open spec fn settled(joined: Option<Seq<char>>, error: Seq<char>) -> Result<
    Seq<char>,
    Seq<char>,
> {
    match joined {
        Some(path) => Ok(path),
        None => Err(error),
    }
}

/// A `Result` of this module as plain text.
pub open spec fn outcome_view(outcome: Result<Resource, String>) -> Result<Seq<char>, Seq<char>> {
    match outcome {
        Ok(resource) => Ok(resource@),
        Err(error) => Err(error@),
    }
}

/// An optional string slice as plain text.
pub open spec fn root_view(root: Option<&str>) -> Option<Seq<char>> {
    match root {
        Some(path) => Some(path@),
        None => None,
    }
}

/// The outcome of resolving `p` below `root`: the resource at the path
/// joined of the two, or the error `resolve_error(p)` where there is no root
/// or the joined path is no text.
pub open spec fn resolved(root: Option<Seq<char>>, p: Seq<char>) -> Result<Seq<char>, Seq<char>> {
    match root {
        Some(root) => settled(joined_text(root, p), resolve_error(p)),
        None => Err(resolve_error(p)),
    }
}

impl Resource {
    /// Makes the resource at `joined`, the text of a joined path, or fails
    /// with `error` where the path had no text.
    pub fn settle(joined: Option<String>, error: String) -> (outcome: Result<Resource, String>)
        ensures
            outcome_view(outcome) == settled(joined_view(joined), error@),
    {
        match joined {
            Some(path) => Ok(Resource(path)),
            None => Err(error),
        }
    }

    /// The resource `p` below `root`, the resolved directory of the
    /// application's resources: with a root, the resource at the path joined
    /// of the two; without one, the error `resolve_error(p)`.
    pub fn new(root: Option<&str>, p: &str) -> (outcome: Result<Resource, String>)
        ensures
            outcome_view(outcome) == resolved(root_view(root), p@),
            outcome is Ok <==> root is Some,
    {
        let error = crate::text::join2("[ERROR] Unable to resolve path: ", p);
        match root {
            Some(root) => Resource::settle(join_text(root, p), error),
            None => Err(error),
        }
    }

    /// The path as text.
    pub fn path(&self) -> (text: &str)
        ensures
            text@ == self@,
    {
        self.0.as_str()
    }

    /// The resource `p` below this one, which is left as it is: the
    /// resource at the path joined of this one's path and `p`. The join
    /// always has a text, so there is always a resource; were there none, the
    /// result would be the error `join_error(p)`.
    pub fn join(&mut self, p: &str) -> (outcome: Result<Resource, String>)
        ensures
            *final(self) == *old(self),
            outcome_view(outcome) == settled(joined_text(old(self)@, p@), join_error(p@)),
            outcome is Ok,
    {
        let error = crate::text::join2("[ERROR] Unable to join path: ", p);
        Resource::settle(join_text(self.path(), p), error)
    }
}

} // verus!
