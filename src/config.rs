//! Settings the engine reads: the target image encoding, the host, the
//! primary token and the library roots.

use vstd::prelude::*;
use vstd::string::StringExecFns;

verus! {

/// The host used unless a custom one is configured.
pub const DEFAULT_API_DOMAIN: &'static str = "api.copy2000.online";

/// The encoding that downloaded pages are stored in.
#[derive(Debug, Clone, Copy, PartialEq, Eq, Structural)]
pub enum DownloadFormat {
    Webp,
    Jpeg,
}

/// The file extension of pages stored in format `f`.
pub open spec fn extension_of(f: DownloadFormat) -> Seq<char> {
    match f {
        DownloadFormat::Webp => "webp"@,
        DownloadFormat::Jpeg => "jpg"@,
    }
}

impl DownloadFormat {
    /// The file extension of pages in this format.
    pub fn extension(self) -> (r: &'static str)
        ensures
            r@ == extension_of(self),
    {
        match self {
            DownloadFormat::Webp => "webp",
            DownloadFormat::Jpeg => "jpg",
        }
    }
}

/// Which host the client talks to.
#[derive(Debug, Clone, Copy, PartialEq, Eq, Structural)]
pub enum ApiDomainMode {
    Default,
    Custom,
}

/// The application settings. Directories are held as path strings.
#[derive(Debug, Clone)]
pub struct Config {
    pub token: String,
    pub download_dir: String,
    pub export_dir: String,
    pub api_domain_mode: ApiDomainMode,
    pub custom_api_domain: String,
    pub download_format: DownloadFormat,
    pub enable_file_logger: bool,
    pub update_downloaded_comics_interval_sec: u64,
}

/// The `Authorization` value that carries token `t`.
pub open spec fn authorization_of(t: Seq<char>) -> Seq<char> {
    "Token "@ + t
}

/// Builds the `Authorization` value for token `t`.
pub fn token_authorization(t: &str) -> (r: String)
    ensures
        r@ == authorization_of(t@),
{
    let prefix = String::from_str("Token ");
    prefix.concat(t)
}

impl Config {
    /// Settings for a fresh installation whose library and export roots are
    /// the given directories.
    pub fn default(download_dir: String, export_dir: String) -> (r: Config)
        ensures
            r.token@.len() == 0,
            r.download_dir == download_dir,
            r.export_dir == export_dir,
            r.api_domain_mode == ApiDomainMode::Default,
            r.custom_api_domain@ == DEFAULT_API_DOMAIN@,
            r.download_format == DownloadFormat::Webp,
            r.enable_file_logger,
            r.update_downloaded_comics_interval_sec == 0,
    {
        Config {
            token: String::new(),
            download_dir,
            export_dir,
            api_domain_mode: ApiDomainMode::Default,
            custom_api_domain: String::from_str(DEFAULT_API_DOMAIN),
            download_format: DownloadFormat::Webp,
            enable_file_logger: true,
            update_downloaded_comics_interval_sec: 0,
        }
    }

    /// The `Authorization` value of the primary user.
    pub fn get_authorization(&self) -> (r: String)
        ensures
            r@ == authorization_of(self.token@),
    {
        token_authorization(self.token.as_str())
    }

    /// The host to talk to: the custom one in custom mode, else the default.
    pub fn get_api_domain(&self) -> (r: String)
        ensures
            self.api_domain_mode == ApiDomainMode::Custom ==> r@ == self.custom_api_domain@,
            self.api_domain_mode == ApiDomainMode::Default ==> r@ == DEFAULT_API_DOMAIN@,
    {
        if self.api_domain_mode == ApiDomainMode::Custom {
            self.custom_api_domain.clone()
        } else {
            String::from_str(DEFAULT_API_DOMAIN)
        }
    }
}

/// The order in which favourites are listed.
#[derive(Debug, Clone, Copy, PartialEq, Eq, Structural)]
pub enum GetFavoriteOrdering {
    /// By the time the comic was added, newest first.
    Added,
    /// By the time the comic was updated, newest first.
    Updated,
    /// By the time the comic was last read.
    Read,
}

pub open spec fn ordering_param(o: GetFavoriteOrdering) -> Seq<char> {
    match o {
        GetFavoriteOrdering::Added => "-datetime_modifier"@,
        GetFavoriteOrdering::Updated => "-datetime_updated"@,
        GetFavoriteOrdering::Read => "-datetime_browse"@,
    }
}

impl GetFavoriteOrdering {
    /// The value of the `ordering` query parameter.
    pub fn as_params(&self) -> (r: &'static str)
        ensures
            r@ == ordering_param(*self),
    {
        match self {
            GetFavoriteOrdering::Added => "-datetime_modifier",
            GetFavoriteOrdering::Updated => "-datetime_updated",
            GetFavoriteOrdering::Read => "-datetime_browse",
        }
    }
}

/// Archive kinds that finished chapters can be exported to.
#[derive(Debug, Clone, Copy, PartialEq, Eq, Structural)]
pub enum Archive {
    Cbz,
}

impl Archive {
    /// The file extension of the archive.
    pub fn extension(&self) -> (r: &'static str)
        ensures
            r@ == "cbz"@,
    {
        match self {
            Archive::Cbz => "cbz",
        }
    }
}

} // verus!
