//! The project description and the small enumerations the generator is
//! driven by: the build mode, the platform the generator runs on, the
//! supported languages, and the generation errors.

use vstd::prelude::*;

verus! {

/// The build mode, chosen at invocation time; never persisted.
#[derive(Clone, Copy, PartialEq, Eq, Structural, Debug)]
pub enum BuildModel {
    Debug,
    Release,
}

/// The name of a build mode as it appears in the output path.
pub open spec fn model_name(m: BuildModel) -> Seq<char> {
    match m {
        BuildModel::Debug => "debug"@,
        BuildModel::Release => "release"@,
    }
}

impl BuildModel {
    /// The mode's lower-case name, as used in the output directory.
    pub fn as_str(&self) -> (r: &'static str)
        ensures
            r@ == model_name(*self),
    {
        match self {
            BuildModel::Debug => "debug",
            BuildModel::Release => "release",
        }
    }
}

/// The platform the generator itself runs on. It decides the executable
/// suffix and the shell idioms embedded in the script, not the platform
/// being built for.
#[derive(Clone, Copy, PartialEq, Eq, Structural, Debug)]
pub enum Platform {
    Windows,
    Unix,
}

/// A supported source language.
#[derive(Clone, Copy, PartialEq, Eq, Structural, Debug)]
pub enum Language {
    C,
    Cpp,
}

/// The reasons generation can fail. Failures of loading the configuration
/// and of writing the output are the surrounding program's, not the
/// generator's.
#[derive(Clone, Copy, PartialEq, Eq, Structural, Debug)]
pub enum GenError {
    /// The language field names no supported language.
    UnsupportedLanguage,
    /// No configured file carries the language's extension.
    EmptySourceSet,
}

/// The output directory named for one build mode in the configuration file.
pub struct BuildConfig {
    pub targetdir: String,
}

/// The per-mode output directories of the configuration file.
pub struct BuildModels {
    pub debug: BuildConfig,
    pub release: BuildConfig,
}

/// The parsed project description. Loading it from the configuration file
/// is the surrounding program's job; a missing or mistyped field never
/// reaches this type.
pub struct ProjectConfig {
    pub language: String,
    pub standard: u64,
    pub files: Vec<String>,
    pub target: String,
    pub architecture: String,
    pub model: BuildModels,
}

/// The language a configuration's language field names, if any.
pub open spec fn language_of(s: Seq<char>) -> Option<Language> {
    if s == "c"@ {
        Some(Language::C)
    } else if s == "c++"@ {
        Some(Language::Cpp)
    } else {
        None
    }
}

} // verus!
