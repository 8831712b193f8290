use vstd::prelude::*;

use crate::project::option_view;
use crate::repository::{join, join_path};
use crate::text::ends_with;

verus! {

/// What extraction does with one archive entry.
pub enum EntryPlan {
    /// The entry has no enclosed name: it is not extracted.
    Skip,
    /// A directory entry: the directory tree at `path` is created.
    CreateDir { path: String },
    /// A file entry: its bytes are written to `path`, parents created first.
    WriteFile { path: String },
}

/// What extraction does with one archive entry, as values.
pub enum EntryPlanView {
    Skip,
    CreateDir(Seq<char>),
    WriteFile(Seq<char>),
}

impl View for EntryPlan {
    type V = EntryPlanView;

    open spec fn view(&self) -> EntryPlanView {
        match self {
            EntryPlan::Skip => EntryPlanView::Skip,
            EntryPlan::CreateDir { path } => EntryPlanView::CreateDir(path@),
            EntryPlan::WriteFile { path } => EntryPlanView::WriteFile(path@),
        }
    }
}

/// An entry without an enclosed name is skipped; one whose raw name ends with
/// `/` is a directory; every other one is a file. Both go to the enclosed
/// name under the destination.
pub open spec fn entry_plan(extract_to: Seq<char>, name: Seq<char>, enclosed: Option<Seq<char>>) -> EntryPlanView {
    match enclosed {
        None => EntryPlanView::Skip,
        Some(rel) => if name.len() > 0 && name.last() == '/' {
            EntryPlanView::CreateDir(join_path(extract_to, rel))
        } else {
            EntryPlanView::WriteFile(join_path(extract_to, rel))
        },
    }
}

/// Decides where an archive entry goes under `extract_to`. `name` is the
/// entry's raw name, `enclosed` the name the archive reader resolved to a
/// relative path inside the destination, or none when it could not (a `..`
/// that escapes, an absolute path).
pub fn plan_entry(extract_to: &str, name: &str, enclosed: Option<String>) -> (r: EntryPlan)
    ensures
        r@ == entry_plan(extract_to@, name@, option_view(enclosed)),
{
    match enclosed {
        None => EntryPlan::Skip,
        Some(rel) => {
            let path = join(extract_to, rel.as_str());
            let slash = "/";
            proof {
                reveal_strlit("/");
            }
            assert(slash@ =~= seq!['/']);
            let dir = ends_with(name, slash);
            proof {
                if name@.len() > 0 {
                    let t = name@.subrange(name@.len() - 1, name@.len() as int);
                    assert(t =~= seq![name@.last()]);
                    if name@.last() == '/' {
                        assert(t =~= slash@);
                    }
                    if t == slash@ {
                        assert(t[0] == name@.last());
                    }
                }
            }
            if dir {
                EntryPlan::CreateDir { path }
            } else {
                EntryPlan::WriteFile { path }
            }
        },
    }
}

} // verus!
