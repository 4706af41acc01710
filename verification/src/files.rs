//! The files that a resolution pass may consult, and the cache that holds
//! each of them from its first use to the end of the pass.
//!
//! The library reads no file.  Where it needs one that the cache does not
//! hold yet, it answers with a [`FileRequest`].  The caller reads the file
//! and hands its text, or `None` where it cannot be read, to
//! [`FileCache::provide`].
use vstd::prelude::*;
use ini::Ini;
use crate::ini_file::file_sections;
use crate::ini_file::ini_sections;
use crate::ini_file::parse_file;
use crate::text::Sections;
use crate::text::view_of;

verus! {

/// Where a file lies.
#[derive(Clone, Debug, PartialEq, Eq)]
pub enum FileLocation {
    /// At a path that the environment names.
    Path(String),
    /// At a fixed place below the user's home directory.
    UnderHome { home: String, relative: String },
}

/// A [`FileLocation`] as contracts see it.
pub enum LocationView {
    Path(Seq<char>),
    UnderHome { home: Seq<char>, relative: Seq<char> },
}

impl View for FileLocation {
    type V = LocationView;

    open spec fn view(&self) -> LocationView {
        match *self {
            FileLocation::Path(path) => LocationView::Path(path@),
            FileLocation::UnderHome { home, relative } => LocationView::UnderHome {
                home: home@,
                relative: relative@,
            },
        }
    }
}

/// The three files of a resolution pass.
#[derive(Clone, Copy, Debug, PartialEq, Eq, Structural)]
pub enum FileKind {
    /// The configuration file, with a section `profile NAME` for each profile.
    Config,
    /// The credentials file, with a section `NAME` for each profile.
    Credentials,
    /// The cached single sign-on token, a JSON document.
    SsoCache,
}

/// A file that has to be in the cache before the pass can go on.
#[derive(Clone, Debug, PartialEq, Eq)]
pub struct FileRequest {
    pub kind: FileKind,
    pub location: FileLocation,
}

/// A [`FileRequest`] as contracts see it.
pub struct RequestView {
    pub kind: FileKind,
    pub location: LocationView,
}

impl View for FileRequest {
    type V = RequestView;

    open spec fn view(&self) -> RequestView {
        RequestView { kind: self.kind, location: self.location@ }
    }
}

/// An answer, or the request that stands in its way, as contracts see it.
pub open spec fn or_request<T>(result: Result<T, FileRequest>) -> Result<T, RequestView> {
    match result {
        Ok(answer) => Ok(answer),
        Err(request) => Err(request@),
    }
}

/// A place that is filled at most once: empty until the file is first asked
/// for, and from then on holding what was found, which may be nothing.
#[derive(Clone, Debug)]
pub enum Slot<T> {
    Uninitialized,
    Loaded(Option<T>),
}

/// What a slot with a parsed file holds, as contracts see it.
pub open spec fn sections_of(slot: Slot<Ini>) -> Slot<Sections> {
    match slot {
        Slot::Uninitialized => Slot::Uninitialized,
        Slot::Loaded(Some(file)) => Slot::Loaded(Some(ini_sections(file))),
        Slot::Loaded(None) => Slot::Loaded(None),
    }
}

/// What a slot with a text holds, as contracts see it.
pub open spec fn characters_of(slot: Slot<String>) -> Slot<Seq<char>> {
    match slot {
        Slot::Uninitialized => Slot::Uninitialized,
        Slot::Loaded(text) => Slot::Loaded(view_of(text)),
    }
}

/// The sections of a file with the given text.  A file that could not be
/// read, or whose text is no INI file, has none.
pub open spec fn parsed(text: Option<Seq<char>>) -> Option<Sections> {
    match text {
        Some(t) => file_sections(t),
        None => None,
    }
}

/// The files of one resolution pass.  Each of the three has a slot of its
/// own.  A slot that has been filled is never changed again.
#[derive(Clone, Debug)]
pub struct FileCache {
    config: Slot<Ini>,
    credentials: Slot<Ini>,
    sso_cache: Slot<String>,
}

/// A [`FileCache`] as contracts see it.
pub struct CacheView {
    /// The sections of the configuration file.
    pub config: Slot<Sections>,
    /// The sections of the credentials file.
    pub credentials: Slot<Sections>,
    /// The text of the cached single sign-on token.
    pub sso_cache: Slot<Seq<char>>,
}

impl CacheView {
    /// The cache of a pass that has consulted no file yet.
    pub open spec fn empty() -> CacheView {
        CacheView {
            config: Slot::Uninitialized,
            credentials: Slot::Uninitialized,
            sso_cache: Slot::Uninitialized,
        }
    }

    /// Whether the slot of a file has been filled.
    pub open spec fn is_loaded(self, kind: FileKind) -> bool {
        match kind {
            FileKind::Config => self.config is Loaded,
            FileKind::Credentials => self.credentials is Loaded,
            FileKind::SsoCache => self.sso_cache is Loaded,
        }
    }

    /// The cache after a file's text has been handed in: an empty slot is
    /// filled, a filled slot keeps what it has.
    pub open spec fn provide(self, kind: FileKind, text: Option<Seq<char>>) -> CacheView {
        if self.is_loaded(kind) {
            self
        } else {
            match kind {
                FileKind::Config => CacheView { config: Slot::Loaded(parsed(text)), ..self },
                FileKind::Credentials => CacheView {
                    credentials: Slot::Loaded(parsed(text)),
                    ..self
                },
                FileKind::SsoCache => CacheView { sso_cache: Slot::Loaded(text), ..self },
            }
        }
    }
}

impl View for FileCache {
    type V = CacheView;

    closed spec fn view(&self) -> CacheView {
        CacheView {
            config: sections_of(self.config),
            credentials: sections_of(self.credentials),
            sso_cache: characters_of(self.sso_cache),
        }
    }
}

/// Parses what was found of a file.
fn parse_found(text: Option<String>) -> (file: Option<Ini>)
    ensures
        match file {
            Some(f) => parsed(view_of(text)) == Some(ini_sections(f)),
            None => parsed(view_of(text)) is None,
        },
{
    match text {
        Some(t) => parse_file(t.as_str()),
        None => None,
    }
}

impl FileCache {
    /// The cache of a pass that has consulted no file yet.
    pub fn new() -> (cache: FileCache)
        ensures
            cache@ == CacheView::empty(),
    {
        FileCache {
            config: Slot::Uninitialized,
            credentials: Slot::Uninitialized,
            sso_cache: Slot::Uninitialized,
        }
    }

    /// Whether the slot of a file has been filled.
    pub fn is_loaded(&self, kind: FileKind) -> (loaded: bool)
        ensures
            loaded == self@.is_loaded(kind),
    {
        match kind {
            FileKind::Config => match &self.config {
                Slot::Loaded(_) => true,
                Slot::Uninitialized => false,
            },
            FileKind::Credentials => match &self.credentials {
                Slot::Loaded(_) => true,
                Slot::Uninitialized => false,
            },
            FileKind::SsoCache => match &self.sso_cache {
                Slot::Loaded(_) => true,
                Slot::Uninitialized => false,
            },
        }
    }

    /// Hands in the text of a file, or `None` for a file that is missing or
    /// cannot be read as text.  The first text handed in for a file stays:
    /// a slot that is filled already is left as it is.
    pub fn provide(&mut self, kind: FileKind, text: Option<String>)
        ensures
            final(self)@ == old(self)@.provide(kind, view_of(text)),
    {
        if self.is_loaded(kind) {
            return ;
        }
        match kind {
            FileKind::Config => {
                self.config = Slot::Loaded(parse_found(text));
            },
            FileKind::Credentials => {
                self.credentials = Slot::Loaded(parse_found(text));
            },
            FileKind::SsoCache => {
                self.sso_cache = Slot::Loaded(text);
            },
        }
    }

    /// The slot of the configuration file.
    pub fn config(&self) -> (slot: &Slot<Ini>)
        ensures
            sections_of(*slot) == self@.config,
    {
        &self.config
    }

    /// The slot of the credentials file.
    pub fn credentials(&self) -> (slot: &Slot<Ini>)
        ensures
            sections_of(*slot) == self@.credentials,
    {
        &self.credentials
    }

    /// The slot of the cached single sign-on token.
    pub fn sso_cache(&self) -> (slot: &Slot<String>)
        ensures
            characters_of(*slot) == self@.sso_cache,
    {
        &self.sso_cache
    }
}

} // verus!
