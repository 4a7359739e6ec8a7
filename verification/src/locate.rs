//! Choosing which candidate configuration file a workspace supplies.
//!
//! The caller probes the filesystem and hands over a [`Workspace`] snapshot:
//! the contents of each candidate file that exists. The locator applies the
//! fixed priority order — `.devcontainer/devcontainer.json`, then the
//! root-level `devcontainer.json`, then the first immediate subdirectory of
//! `.devcontainer/` (in listing order) holding a `devcontainer.json` — and
//! parses the chosen contents, or returns the built-in default identity when
//! no candidate exists.

use vstd::prelude::*;
use crate::config::{
    parse_devcontainer, parse_result_view, spec_parse, ConfigError, Devcontainer,
    DevcontainerView, opt_str_view,
};

verus! {

/// A snapshot of the candidate configuration files of one workspace.
///
/// Each field is `Some(contents)` exactly when the corresponding file exists,
/// holding that file's text.
pub struct Workspace {
    /// Contents of `<root>/.devcontainer/devcontainer.json`.
    pub primary: Option<String>,
    /// Contents of `<root>/devcontainer.json`.
    pub root_file: Option<String>,
    /// `Some` exactly when `<root>/.devcontainer/` exists as a directory;
    /// then one entry per immediate subdirectory, in listing order, holding
    /// the contents of that subdirectory's `devcontainer.json` if present.
    pub nested: Option<Vec<Option<String>>>,
}

/// Mathematical image of a [`Workspace`]: the same three candidates over
/// character sequences.
pub struct WorkspaceView {
    pub primary: Option<Seq<char>>,
    pub root_file: Option<Seq<char>>,
    pub nested: Option<Seq<Option<Seq<char>>>>,
}

impl View for Workspace {
    type V = WorkspaceView;

    open spec fn view(&self) -> WorkspaceView {
        WorkspaceView {
            primary: opt_str_view(self.primary),
            root_file: opt_str_view(self.root_file),
            nested: match self.nested {
                Some(v) => Some(v@.map_values(|o: Option<String>| opt_str_view(o))),
                None => None,
            },
        }
    }
}

/// The first present entry of the nested candidates, in listing order.
pub open spec fn first_nested_spec(entries: Seq<Option<Seq<char>>>) -> Option<Seq<char>>
    decreases entries.len(),
{
    if entries.len() == 0 {
        None
    } else if entries[0] is Some {
        entries[0]
    } else {
        first_nested_spec(entries.skip(1))
    }
}

/// The built-in identity used when a workspace has no candidate file.
pub open spec fn default_identity_view() -> DevcontainerView {
    DevcontainerView {
        name: "Alpine"@,
        image: "mcr.microsoft.com/devcontainers/base:alpine-3.16"@,
    }
}

/// What locating yields on the snapshot `w`: the parse of the
/// highest-priority candidate that exists, and the default identity when
/// none does.
pub open spec fn spec_locate(w: WorkspaceView) -> Result<DevcontainerView, ConfigError> {
    if w.primary is Some {
        spec_parse(w.primary->0)
    } else if w.root_file is Some {
        spec_parse(w.root_file->0)
    } else if w.nested is Some && first_nested_spec(w.nested->0) is Some {
        spec_parse(first_nested_spec(w.nested->0)->0)
    } else {
        Ok(default_identity_view())
    }
}

/// Resolves the workspace snapshot to a configuration: parses the
/// highest-priority candidate present, or returns the default identity
/// (name `Alpine`) when the snapshot holds no candidate at all. A parse
/// failure of the chosen candidate is surfaced, never skipped.
pub fn identify_devcontainer(w: &Workspace) -> (r: Result<Devcontainer, ConfigError>)
    ensures
        parse_result_view(r) == spec_locate(w@),
{
    if let Some(text) = &w.primary {
        return parse_devcontainer(text.as_str());
    }
    if let Some(text) = &w.root_file {
        return parse_devcontainer(text.as_str());
    }
    if let Some(entries) = &w.nested {
        let ghost ev = w@.nested->0;
        let n = entries.len();
        let mut idx: usize = 0;
        proof {
            assert(ev.skip(0) =~= ev);
        }
        while idx < n
            invariant
                n == entries@.len(),
                0 <= idx <= n,
                ev.len() == entries@.len(),
                forall|k: int| 0 <= k < ev.len() ==> ev[k] == opt_str_view(entries@[k]),
                w@.nested == Some(ev),
                w.primary is None,
                w.root_file is None,
                first_nested_spec(ev) == first_nested_spec(ev.skip(idx as int)),
            decreases n - idx,
        {
            proof {
                assert(ev.skip(idx as int)[0] == ev[idx as int]);
                assert(ev.skip(idx as int).skip(1) =~= ev.skip(idx as int + 1));
            }
            if let Some(text) = &entries[idx] {
                return parse_devcontainer(text.as_str());
            }
            idx = idx + 1;
        }
        proof {
            assert(ev.skip(n as int) =~= Seq::<Option<Seq<char>>>::empty());
        }
    }
    let d = Devcontainer {
        name: String::from_str("Alpine"),
        image: String::from_str("mcr.microsoft.com/devcontainers/base:alpine-3.16"),
    };
    Ok(d)
}

/// A snapshot with no present entry among the nested candidates has no first
/// present entry.
proof fn lemma_first_nested_none(entries: Seq<Option<Seq<char>>>)
    requires
        forall|k: int| 0 <= k < entries.len() ==> entries[k] is None,
    ensures
        first_nested_spec(entries) is None,
    decreases entries.len(),
{
    if entries.len() > 0 {
        lemma_first_nested_none(entries.skip(1));
    }
}

/// Priority: whenever `.devcontainer/devcontainer.json` exists, the locator
/// resolves to the parse of exactly that file's contents, whatever the other
/// candidates hold.
pub proof fn lemma_locate_priority(w: WorkspaceView, text: Seq<char>)
    requires
        w.primary == Some(text),
    ensures
        spec_locate(w) == spec_parse(text),
{
}

/// A workspace whose only candidate is `.devcontainer/devcontainer.json`
/// resolves to the parse of that file's contents.
pub proof fn lemma_locate_primary_only(w: WorkspaceView, text: Seq<char>)
    requires
        w.primary == Some(text),
        w.root_file is None,
        w.nested matches Some(entries) ==> forall|k: int|
            0 <= k < entries.len() ==> entries[k] is None,
    ensures
        spec_locate(w) == spec_parse(text),
{
}

/// A workspace whose only candidate is the root-level `devcontainer.json`
/// resolves to the parse of that file's contents.
pub proof fn lemma_locate_root_only(w: WorkspaceView, text: Seq<char>)
    requires
        w.primary is None,
        w.root_file == Some(text),
        w.nested matches Some(entries) ==> forall|k: int|
            0 <= k < entries.len() ==> entries[k] is None,
    ensures
        spec_locate(w) == spec_parse(text),
{
}

/// A workspace whose `.devcontainer/` directory holds exactly one
/// subdirectory, with a `devcontainer.json` inside it, and no other
/// candidate, resolves to the parse of that nested file's contents.
pub proof fn lemma_locate_nested_only(w: WorkspaceView, text: Seq<char>)
    requires
        w.primary is None,
        w.root_file is None,
        w.nested == Some(seq![Some(text)]),
    ensures
        spec_locate(w) == spec_parse(text),
{
    let entries = w.nested->0;
    assert(entries[0] == Some(text));
    assert(first_nested_spec(entries) == Some(text));
}

/// A workspace with no candidate file anywhere resolves to the default
/// identity, name `Alpine`, and is no error.
pub proof fn lemma_locate_default(w: WorkspaceView)
    requires
        w.primary is None,
        w.root_file is None,
        w.nested matches Some(entries) ==> forall|k: int|
            0 <= k < entries.len() ==> entries[k] is None,
    ensures
        spec_locate(w) == Ok::<DevcontainerView, ConfigError>(default_identity_view()),
{
    if w.nested is Some {
        lemma_first_nested_none(w.nested->0);
    }
}

/// The locator is a pure function of the workspace snapshot: locating the
/// same unchanged workspace twice yields identical results.
pub proof fn lemma_locate_deterministic(w1: WorkspaceView, w2: WorkspaceView)
    requires
        w1 == w2,
    ensures
        spec_locate(w1) == spec_locate(w2),
{
}

} // verus!
