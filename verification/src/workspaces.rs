//! Recently opened items: the tagged union of workspace, folder and file
//! entries, with the accessors the picker needs (locator, locality, label,
//! icon keys).

use vstd::prelude::*;

use crate::errors::RecentError;
use crate::location::{url_to_path, Location, LocationModel};
use crate::paths::{tildify, tildify_spec};

verus! {

/// Identifies a multi-root workspace.
///
/// `id` is a stable handle into the per-workspace storage directory;
/// `config_path` locates the workspace's configuration file.
#[derive(Debug, Clone, PartialEq, Eq)]
pub struct WorkspaceIdentifier {
    pub id: String,
    pub config_path: Location,
}

/// The mathematical value of a [`WorkspaceIdentifier`].
#[verifier::ext_equal]
pub struct WorkspaceIdModel {
    pub id: Seq<char>,
    pub config_path: LocationModel,
}

impl View for WorkspaceIdentifier {
    type V = WorkspaceIdModel;

    open spec fn view(&self) -> WorkspaceIdModel {
        WorkspaceIdModel { id: self.id@, config_path: self.config_path@ }
    }
}

impl DeepView for WorkspaceIdentifier {
    type V = WorkspaceIdModel;

    open spec fn deep_view(&self) -> WorkspaceIdModel {
        self.view()
    }
}

/// A recently opened item.
///
/// Every variant carries an optional display label and an optional remote
/// authority (the non-local execution context the item belongs to).
#[derive(Debug, Clone, PartialEq, Eq)]
pub enum Recent {
    /// A multi-root workspace with its configuration file.
    Workspace { workspace: WorkspaceIdentifier, label: Option<String>, remote_authority: Option<String> },
    /// A single-folder workspace.
    Folder { folder_uri: Location, label: Option<String>, remote_authority: Option<String> },
    /// A single file.
    File { file_uri: Location, label: Option<String>, remote_authority: Option<String> },
}

/// The mathematical value of a [`Recent`].
#[verifier::ext_equal]
pub enum RecentModel {
    Workspace { workspace: WorkspaceIdModel, label: Option<Seq<char>>, remote_authority: Option<Seq<char>> },
    Folder { folder_uri: LocationModel, label: Option<Seq<char>>, remote_authority: Option<Seq<char>> },
    File { file_uri: LocationModel, label: Option<Seq<char>>, remote_authority: Option<Seq<char>> },
}

impl View for Recent {
    type V = RecentModel;

    open spec fn view(&self) -> RecentModel {
        match self {
            Recent::Workspace { workspace, label, remote_authority } => RecentModel::Workspace {
                workspace: workspace@,
                label: label.deep_view(),
                remote_authority: remote_authority.deep_view(),
            },
            Recent::Folder { folder_uri, label, remote_authority } => RecentModel::Folder {
                folder_uri: folder_uri@,
                label: label.deep_view(),
                remote_authority: remote_authority.deep_view(),
            },
            Recent::File { file_uri, label, remote_authority } => RecentModel::File {
                file_uri: file_uri@,
                label: label.deep_view(),
                remote_authority: remote_authority.deep_view(),
            },
        }
    }
}

impl DeepView for Recent {
    type V = RecentModel;

    open spec fn deep_view(&self) -> RecentModel {
        self.view()
    }
}

impl RecentModel {
    /// The location that identifies the item (for a workspace, its
    /// configuration file).
    pub open spec fn locator(self) -> LocationModel {
        match self {
            RecentModel::Workspace { workspace, .. } => workspace.config_path,
            RecentModel::Folder { folder_uri, .. } => folder_uri,
            RecentModel::File { file_uri, .. } => file_uri,
        }
    }

    /// The stored display label, if any.
    pub open spec fn label_opt(self) -> Option<Seq<char>> {
        match self {
            RecentModel::Workspace { label, .. } => label,
            RecentModel::Folder { label, .. } => label,
            RecentModel::File { label, .. } => label,
        }
    }

    /// The remote authority, if any.
    pub open spec fn remote_opt(self) -> Option<Seq<char>> {
        match self {
            RecentModel::Workspace { remote_authority, .. } => remote_authority,
            RecentModel::Folder { remote_authority, .. } => remote_authority,
            RecentModel::File { remote_authority, .. } => remote_authority,
        }
    }

    /// Whether the item is on the local filesystem.
    pub open spec fn is_local(self) -> bool {
        self.locator().is_local()
    }

    /// The item's locator carries the scheme of its own URL text.
    pub open spec fn wf(self) -> bool {
        self.locator().wf()
    }
}

/// What [`Recent::label`] returns: the stored label verbatim, otherwise the
/// home-contracted filesystem path of the locator; the locator's failure to
/// yield a path when no label is stored.
pub open spec fn label_spec(r: RecentModel, home: Seq<char>) -> Result<Seq<char>, RecentError> {
    match r.label_opt() {
        Some(l) => Ok(l),
        None => if !r.is_local() {
            Err(RecentError::NotLocal)
        } else {
            match url_to_path(r.locator().text) {
                Some(p) => Ok(tildify_spec(p, home)),
                None => Err(RecentError::MalformedUrl),
            }
        },
    }
}

/// The icon-theme name of each variant.
pub open spec fn icon_name_spec(r: RecentModel) -> Seq<char> {
    match r {
        RecentModel::Workspace { .. } => "visual-studio-code"@,
        RecentModel::Folder { .. } => "folder"@,
        RecentModel::File { .. } => "text-x-generic"@,
    }
}

/// The nerd-font glyph of each variant.
pub open spec fn nerd_icon_spec(r: RecentModel) -> Seq<char> {
    match r {
        RecentModel::Workspace { .. } => "\u{fb0f}"@,
        RecentModel::Folder { .. } => "\u{f74a}"@,
        RecentModel::File { .. } => "\u{f713}"@,
    }
}

impl Recent {
    /// The location that identifies the item (for a workspace, its
    /// configuration file).
    pub fn url(&self) -> (r: &Location)
        ensures
            r@ == self@.locator(),
    {
        match self {
            Recent::Workspace { workspace, .. } => &workspace.config_path,
            Recent::Folder { folder_uri, .. } => folder_uri,
            Recent::File { file_uri, .. } => file_uri,
        }
    }

    /// Whether the item is on the local filesystem.
    pub fn is_local(&self) -> (r: bool)
        ensures
            r == self@.is_local(),
    {
        self.url().is_local()
    }

    /// The remote authority the item belongs to, if any.
    pub fn remote(&self) -> (r: Option<&str>)
        ensures
            r is Some <==> self@.remote_opt() is Some,
            r is Some ==> r->0@ == self@.remote_opt()->0,
    {
        let ra = match self {
            Recent::Workspace { remote_authority, .. } => remote_authority,
            Recent::Folder { remote_authority, .. } => remote_authority,
            Recent::File { remote_authority, .. } => remote_authority,
        };
        match ra {
            Some(s) => Some(s.as_str()),
            None => None,
        }
    }

    /// The local filesystem path that opens this item.
    ///
    /// Fails with `NotLocal` when the locator's scheme is not `file`, and
    /// with `MalformedUrl` when the `file` URL has no filesystem form.
    pub fn file_path(&self) -> (r: Result<String, RecentError>)
        ensures
            !self@.is_local() ==> r == Err::<String, RecentError>(RecentError::NotLocal),
            self@.is_local() ==> match url_to_path(self@.locator().text) {
                Some(p) => r is Ok && r->Ok_0@ == p,
                None => r == Err::<String, RecentError>(RecentError::MalformedUrl),
            },
    {
        self.url().file_path()
    }

    /// A displayable label: the stored label verbatim, otherwise the
    /// home-contracted filesystem path of the locator.
    ///
    /// The failure (typically `NotLocal`, for a remote item without a stored
    /// label) is an expected condition: callers skip the item or fall back,
    /// they do not abort the list.
    pub fn label(&self, home: &str) -> (r: Result<String, RecentError>)
        ensures
            match label_spec(self@, home@) {
                Ok(l) => r is Ok && r->Ok_0@ == l,
                Err(e) => r == Err::<String, RecentError>(e),
            },
    {
        let stored = match self {
            Recent::Workspace { label, .. } => label,
            Recent::Folder { label, .. } => label,
            Recent::File { label, .. } => label,
        };
        match stored {
            Some(l) => Ok(l.clone()),
            None => match self.file_path() {
                Ok(p) => Ok(tildify(p.as_str(), home)),
                Err(e) => Err(e),
            },
        }
    }

    /// The icon-theme name for the item's variant.
    pub fn icon_name(&self) -> (r: &str)
        ensures
            r@ == icon_name_spec(self@),
    {
        match self {
            Recent::Workspace { .. } => "visual-studio-code",
            Recent::Folder { .. } => "folder",
            Recent::File { .. } => "text-x-generic",
        }
    }

    /// The nerd-font glyph for the item's variant.
    pub fn nerd_icon(&self) -> (r: &str)
        ensures
            r@ == nerd_icon_spec(self@),
    {
        match self {
            Recent::Workspace { .. } => "\u{fb0f}",
            Recent::Folder { .. } => "\u{f74a}",
            Recent::File { .. } => "\u{f713}",
        }
    }
}

} // verus!
