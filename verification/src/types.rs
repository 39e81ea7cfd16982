//! Plain data carried between the remote API and the command handlers.
//!
//! The library treats these as values: the shell around it parses the
//! wire format into them and serializes them back.

use vstd::prelude::*;

verus! {

/// The authenticated user.
#[derive(Debug, Clone)]
pub struct User {
    pub id: String,
    pub email: String,
    pub handle: String,
    pub img_url: Option<String>,
}

/// A published component.
#[derive(Debug, Clone)]
pub struct Component {
    pub key: String,
    pub name: String,
    pub description: String,
}

/// A style definition.
#[derive(Debug, Clone)]
pub struct Style {
    pub key: String,
    pub name: String,
    pub style_type: String,
    pub description: Option<String>,
}

/// A project of a team.
#[derive(Debug, Clone)]
pub struct Project {
    pub id: String,
    pub name: String,
}

/// The projects of a team.
#[derive(Debug, Clone)]
pub struct ProjectsResponse {
    pub projects: Vec<Project>,
}

/// A file of a project.
#[derive(Debug, Clone)]
pub struct ProjectFile {
    pub key: String,
    pub name: String,
    pub thumbnail_url: Option<String>,
    pub last_modified: String,
}

/// The files of a project.
#[derive(Debug, Clone)]
pub struct ProjectFilesResponse {
    pub files: Vec<ProjectFile>,
}

/// One entry of a file's version history.
#[derive(Debug, Clone)]
pub struct Version {
    pub id: String,
    pub created_at: String,
    pub label: Option<String>,
    pub description: Option<String>,
    pub user: Option<VersionUser>,
}

/// The author of a version.
#[derive(Debug, Clone)]
pub struct VersionUser {
    pub handle: String,
    pub img_url: Option<String>,
}

/// A file's version history.
#[derive(Debug, Clone)]
pub struct VersionsResponse {
    pub versions: Vec<Version>,
}

/// The answer to an image-export request: one optional URL per node,
/// or an error with its status.
#[derive(Debug, Clone)]
pub struct ImageResponse {
    pub images: Vec<(String, Option<String>)>,
    pub err: Option<String>,
    pub status: Option<u16>,
}

/// The exported URL of the first entry for the given node id: nothing
/// when no entry matches or the matching entry carries no URL.
pub open spec fn url_lookup(images: Seq<(String, Option<String>)>, id: Seq<char>) -> Option<
    Seq<char>,
>
    decreases images.len(),
{
    if images.len() == 0 {
        None
    } else if images.first().0@ == id {
        match images.first().1 {
            Some(u) => Some(u@),
            None => None,
        }
    } else {
        url_lookup(images.drop_first(), id)
    }
}

impl ImageResponse {
    /// The URL exported for one node id, when the response carries one.
    pub fn url_for(&self, node_id: &str) -> (r: Option<&String>)
        ensures
            match r {
                Some(u) => url_lookup(self.images@, node_id@) == Some(u@),
                None => url_lookup(self.images@, node_id@) is None,
            },
    {
        let n = self.images.len();
        let mut i: usize = 0;
        proof {
            assert(self.images@.skip(0) =~= self.images@);
        }
        while i < n
            invariant
                n == self.images@.len(),
                0 <= i <= n,
                url_lookup(self.images@, node_id@) == url_lookup(
                    self.images@.skip(i as int), node_id@),
        decreases n - i,
        {
            proof {
                let t = self.images@.skip(i as int);
                assert(t.first() == self.images@.index(i as int));
                assert(t.drop_first() =~= self.images@.skip(i + 1));
            }
            let entry = &self.images[i];
            if crate::text::str_eq(entry.0.as_str(), node_id) {
                return match &entry.1 {
                    Some(u) => Some(u),
                    None => None,
                };
            }
            i += 1;
        }
        proof {
            assert(self.images@.skip(n as int) =~= Seq::<(String, Option<String>)>::empty());
        }
        None
    }
}

} // verus!
