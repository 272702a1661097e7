//! Virtual paths: names for the files of the application that are
//! independent of where a file system keeps them.

use vstd::prelude::*;
use std::path::PathBuf;

verus! {

#[verifier::external_type_specification]
#[verifier::external_body]
pub struct ExPathBuf(PathBuf);

pub assume_specification[ <PathBuf as Clone>::clone ](p: &PathBuf) -> (r: PathBuf)
    ensures
        r == *p,
;

/// The text that `Path::display` shows for a path.
pub uninterp spec fn path_text(p: PathBuf) -> Seq<char>;

/// `Path::display`, collected into a string.
#[verifier::external_body]
pub(crate) fn display_path(p: &PathBuf) -> (s: String)
    ensures
        s@ == path_text(*p),
{
    p.display().to_string()
}

/// A file or directory of the application, named by its role.
#[derive(Debug, Clone, PartialEq, Eq)]
pub enum VirtualPath {
    /// The application's configuration file.
    ConfigFile,
    /// The directory of the model with the given id.
    ModelDir(String),
    /// The architecture description of the model with the given id.
    ModelConfig(String),
    /// The tokenizer of the model with the given id.
    ModelTokenizer(String),
    /// The weights of the model with the given id.
    ModelWeights(String),
}

/// A virtual path with its model id as text.
pub enum VirtualPathView {
    ConfigFile,
    ModelDir(Seq<char>),
    ModelConfig(Seq<char>),
    ModelTokenizer(Seq<char>),
    ModelWeights(Seq<char>),
}

impl View for VirtualPath {
    type V = VirtualPathView;

    open spec fn view(&self) -> VirtualPathView {
        match self {
            VirtualPath::ConfigFile => VirtualPathView::ConfigFile,
            VirtualPath::ModelDir(id) => VirtualPathView::ModelDir(id@),
            VirtualPath::ModelConfig(id) => VirtualPathView::ModelConfig(id@),
            VirtualPath::ModelTokenizer(id) => VirtualPathView::ModelTokenizer(id@),
            VirtualPath::ModelWeights(id) => VirtualPathView::ModelWeights(id@),
        }
    }
}

impl VirtualPath {
    pub fn config_file() -> (p: VirtualPath)
        ensures
            p@ == VirtualPathView::ConfigFile,
    {
        VirtualPath::ConfigFile
    }

    pub fn model_dir(model_id: String) -> (p: VirtualPath)
        ensures
            p@ == VirtualPathView::ModelDir(model_id@),
    {
        VirtualPath::ModelDir(model_id)
    }

    pub fn model_config(model_id: String) -> (p: VirtualPath)
        ensures
            p@ == VirtualPathView::ModelConfig(model_id@),
    {
        VirtualPath::ModelConfig(model_id)
    }

    pub fn model_tokenizer(model_id: String) -> (p: VirtualPath)
        ensures
            p@ == VirtualPathView::ModelTokenizer(model_id@),
    {
        VirtualPath::ModelTokenizer(model_id)
    }

    pub fn model_weights(model_id: String) -> (p: VirtualPath)
        ensures
            p@ == VirtualPathView::ModelWeights(model_id@),
    {
        VirtualPath::ModelWeights(model_id)
    }
}

/// What a file system reports when an operation fails.
#[derive(Debug, Clone)]
pub struct FsError {
    pub message: String,
}

/// A file system that stores the application's files under virtual paths.
///
/// Nothing is promised of an implementation: callers in this crate state
/// what holds whatever an operation returns.
pub trait VirtualFileSystem {
    /// Whether a file is stored under `path`.
    fn is_present(&self, path: &VirtualPath) -> Result<bool, FsError>;

    /// The contents of the file under `path`.
    fn read(&self, path: &VirtualPath) -> Result<Vec<u8>, FsError>;

    /// Stores `contents` under `path`.
    fn write(&self, path: &VirtualPath, contents: &[u8]) -> Result<(), FsError>;

    /// Makes sure the directory `path` exists.
    fn ensure_dir(&self, path: &VirtualPath) -> Result<(), FsError>;

    /// Makes sure the directory that holds `path` exists.
    fn ensure_parent(&self, path: &VirtualPath) -> Result<(), FsError>;

    /// Where the file under `path` lies on disk.
    fn physical_path(&self, path: &VirtualPath) -> Result<PathBuf, FsError>;
}

} // verus!
