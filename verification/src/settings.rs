use vstd::prelude::*;
use vstd::string::StringExecFns;
use crate::error::{view_result, ErrorView, StoreError};
use crate::paths::{joined, path_join};

verus! {

/// Where the repository and its documents are, and whether that has been set.
#[derive(Debug, Clone)]
pub struct AppSettings {
    pub repository_path: String,
    pub articles_path: String,
    pub is_configured: bool,
}

/// The two paths that a user hands in to configure the editor.
#[derive(Debug)]
pub struct SaveRepositoryRequest {
    pub repository_path: String,
    pub articles_path: String,
}

/// The document directory that is proposed until another one is configured.
pub open spec fn default_articles_path() -> Seq<char> {
    "src/data/blog"@
}

impl Default for AppSettings {
    fn default() -> (r: Self)
        ensures
            r@ == default_settings(),
    {
        AppSettings {
            repository_path: String::new(),
            articles_path: String::from_str("src/data/blog"),
            is_configured: false,
        }
    }
}

/// What `AppSettings` hold, with the paths as sequences of characters.
pub struct SettingsView {
    pub repository_path: Seq<char>,
    pub articles_path: Seq<char>,
    pub is_configured: bool,
}

impl View for AppSettings {
    type V = SettingsView;

    open spec fn view(&self) -> SettingsView {
        SettingsView {
            repository_path: self.repository_path@,
            articles_path: self.articles_path@,
            is_configured: self.is_configured,
        }
    }
}

/// The settings that hold until a repository is configured.
pub open spec fn default_settings() -> SettingsView {
    SettingsView {
        repository_path: Seq::empty(),
        articles_path: default_articles_path(),
        is_configured: false,
    }
}

/// What `save_repository_settings` answers to a request, given what exists on disk.
pub open spec fn saved_settings(
    repository_path: Seq<char>,
    articles_path: Seq<char>,
    repository_exists: bool,
    articles_exist: bool,
) -> Result<SettingsView, ErrorView> {
    if !repository_exists {
        Err(ErrorView::NotConfigured(Some(repository_path)))
    } else if !articles_exist {
        Err(ErrorView::NotConfigured(Some(joined(repository_path, articles_path))))
    } else {
        Ok(SettingsView { repository_path, articles_path, is_configured: true })
    }
}

/// The settings in force: those that were stored, or the defaults where nothing was stored yet.
pub fn get_settings(stored: Option<AppSettings>) -> (r: AppSettings)
    ensures
        r@ == match stored {
            Some(s) => s@,
            None => default_settings(),
        },
{
    match stored {
        Some(settings) => settings,
        None => AppSettings::default(),
    }
}

/// Accepts a repository and its document directory once both have been found to exist.
///
/// `repository_exists` says whether `request.repository_path` exists, `articles_exist` whether
/// the document directory below it does. The settings that come back are to be stored. A path
/// that does not exist is named in the error.
pub fn save_repository_settings(
    request: SaveRepositoryRequest,
    repository_exists: bool,
    articles_exist: bool,
) -> (r: Result<AppSettings, StoreError>)
    ensures
        view_result(r) == saved_settings(
            request.repository_path@,
            request.articles_path@,
            repository_exists,
            articles_exist,
        ),
{
    if !repository_exists {
        return Err(StoreError::NotConfigured { missing: Some(request.repository_path) });
    }
    if !articles_exist {
        let full = path_join(request.repository_path.as_str(), request.articles_path.as_str());
        return Err(StoreError::NotConfigured { missing: Some(full) });
    }
    Ok(
        AppSettings {
            repository_path: request.repository_path,
            articles_path: request.articles_path,
            is_configured: true,
        },
    )
}

} // verus!
