//! Derivation: from a project description, a build mode and a platform to
//! the ephemeral build plan the script is rendered from — compiler identity,
//! file extension, filtered source list, flags and output directory.

use vstd::prelude::*;
use vstd::string::StringExecFns;
use crate::config::{BuildModel, GenError, Language, Platform, ProjectConfig, language_of, model_name};
use crate::text::{ends_with, str_eq, str_ends_with, views};

verus! {

/// The source-file extension of a language.
pub open spec fn ext_chars(l: Language) -> Seq<char> {
    match l {
        Language::C => ".c"@,
        Language::Cpp => ".cpp"@,
    }
}

/// The compiler executable name of a language.
pub open spec fn compiler_chars(l: Language) -> Seq<char> {
    match l {
        Language::C => "gcc"@,
        Language::Cpp => "g++"@,
    }
}

/// The prefix a numeric language standard is appended to.
pub open spec fn std_prefix_chars(l: Language) -> Seq<char> {
    match l {
        Language::C => "c"@,
        Language::Cpp => "c++"@,
    }
}

/// The upper-case language name used in the script's header comment.
pub open spec fn upper_chars(l: Language) -> Seq<char> {
    match l {
        Language::C => "C"@,
        Language::Cpp => "C++"@,
    }
}

impl Language {
    /// The extension its source files carry.
    pub fn extension(&self) -> (r: &'static str)
        ensures
            r@ == ext_chars(*self),
    {
        match self {
            Language::C => ".c",
            Language::Cpp => ".cpp",
        }
    }

    /// The compiler that builds it.
    pub fn compiler(&self) -> (r: &'static str)
        ensures
            r@ == compiler_chars(*self),
    {
        match self {
            Language::C => "gcc",
            Language::Cpp => "g++",
        }
    }

    /// The standard-flag prefix.
    pub fn std_prefix(&self) -> (r: &'static str)
        ensures
            r@ == std_prefix_chars(*self),
    {
        match self {
            Language::C => "c",
            Language::Cpp => "c++",
        }
    }

    /// The upper-case name for the header comment.
    pub fn upper_name(&self) -> (r: &'static str)
        ensures
            r@ == upper_chars(*self),
    {
        match self {
            Language::C => "C",
            Language::Cpp => "C++",
        }
    }
}

/// Recognizes the language named by a configuration's language field.
pub fn parse_language(s: &str) -> (r: Result<Language, GenError>)
    ensures
        r == (match language_of(s@) {
            Some(l) => Ok::<Language, GenError>(l),
            None => Err::<Language, GenError>(GenError::UnsupportedLanguage),
        }),
{
    if str_eq(s, "c") {
        Ok(Language::C)
    } else if str_eq(s, "c++") {
        Ok(Language::Cpp)
    } else {
        Err(GenError::UnsupportedLanguage)
    }
}

/// The architecture flag: a 64-bit flag for "x64", a 32-bit flag for "x86",
/// and for any other identifier a flag embedding the identifier verbatim.
pub open spec fn arch_flag_chars(a: Seq<char>) -> Seq<char> {
    if a == "x64"@ {
        "-m64"@
    } else if a == "x86"@ {
        "-m32"@
    } else {
        "-m"@ + a
    }
}

/// Derives the architecture flag of an architecture identifier.
pub fn arch_flag(arch: &str) -> (r: String)
    ensures
        r@ == arch_flag_chars(arch@),
{
    if str_eq(arch, "x64") {
        String::from_str("-m64")
    } else if str_eq(arch, "x86") {
        String::from_str("-m32")
    } else {
        let mut s = String::from_str("-m");
        s.append(arch);
        s
    }
}

/// The optimization and diagnostic flags of a build mode.
pub open spec fn optimization_chars(m: BuildModel) -> Seq<char> {
    match m {
        BuildModel::Debug => "-g -O0 -DDEBUG"@,
        BuildModel::Release => "-O2"@,
    }
}

/// The debug indicator embedded in the script: "1" in debug, "0" in release.
pub open spec fn indicator_chars(m: BuildModel) -> Seq<char> {
    match m {
        BuildModel::Debug => "1"@,
        BuildModel::Release => "0"@,
    }
}

impl BuildModel {
    /// The mode's optimization and diagnostic flags.
    pub fn optimization(&self) -> (r: &'static str)
        ensures
            r@ == optimization_chars(*self),
    {
        match self {
            BuildModel::Debug => "-g -O0 -DDEBUG",
            BuildModel::Release => "-O2",
        }
    }

    /// The mode's debug indicator.
    pub fn indicator(&self) -> (r: &'static str)
        ensures
            r@ == indicator_chars(*self),
    {
        match self {
            BuildModel::Debug => "1",
            BuildModel::Release => "0",
        }
    }
}

/// The platform-suffixed name of the target binary.
pub open spec fn target_file_chars(p: Platform, target: Seq<char>) -> Seq<char> {
    match p {
        Platform::Windows => target + ".exe"@,
        Platform::Unix => target,
    }
}

/// The platform's directory-creation-if-missing command.
pub open spec fn mkdir_chars(p: Platform) -> Seq<char> {
    match p {
        Platform::Windows => "@if not exist \"$(OBJ_DIR)\" mkdir \"$(OBJ_DIR)\""@,
        Platform::Unix => "@mkdir -p $(OBJ_DIR)"@,
    }
}

/// The platform's delete command for the clean rule.
pub open spec fn clean_chars(p: Platform) -> Seq<char> {
    match p {
        Platform::Windows => "del /Q $(OBJ) $(TARGET)"@,
        Platform::Unix => "rm -f $(OBJ) $(TARGET)"@,
    }
}

/// The mode- and architecture-specific output directory.
pub open spec fn out_dir_chars(m: BuildModel, arch: Seq<char>) -> Seq<char> {
    "build/"@ + model_name(m) + "-"@ + arch
}

/// The configured files that carry the extension, in their original order.
pub open spec fn filtered_sources(files: Seq<Seq<char>>, ext: Seq<char>) -> Seq<Seq<char>> {
    files.filter(|f: Seq<char>| ends_with(f, ext))
}

/// Keeps, in order, the files whose names end with `ext`.
pub fn filter_sources(files: &Vec<String>, ext: &str) -> (out: Vec<String>)
    ensures
        views(out@) == filtered_sources(views(files@), ext@),
{
    let ghost pred = |f: Seq<char>| ends_with(f, ext@);
    let ghost vs = views(files@);
    let mut out: Vec<String> = Vec::new();
    let n = files.len();
    let mut i: usize = 0;
    proof {
        assert(views(out@) =~= vs.take(0).filter(pred));
    }
    while i < n
        invariant
            n == files@.len(),
            vs == views(files@),
            vs.len() == n,
            i <= n,
            pred == (|f: Seq<char>| ends_with(f, ext@)),
            views(out@) == vs.take(i as int).filter(pred),
        decreases n - i,
    {
        let keep = str_ends_with(files[i].as_str(), ext);
        proof {
            let t = vs.take(i + 1);
            assert(t.drop_last() =~= vs.take(i as int));
            assert(t.last() == files@[i as int]@);
            reveal_with_fuel(Seq::<_>::filter, 2);
            if keep {
                assert(t.filter(pred) == vs.take(i as int).filter(pred).push(files@[i as int]@));
            } else {
                assert(t.filter(pred) == vs.take(i as int).filter(pred));
            }
        }
        if keep {
            let f = files[i].clone();
            out.push(f);
            proof {
                assert(views(out@) =~= vs.take(i + 1).filter(pred));
            }
        }
        i += 1;
    }
    proof {
        assert(vs.take(n as int) =~= vs);
    }
    out
}

/// The ephemeral build plan, at the specification level: every value the
/// script template substitutes, as character sequences.
pub ghost struct PlanView {
    pub lang_upper: Seq<char>,
    pub compiler: Seq<char>,
    pub extension: Seq<char>,
    pub std_prefix: Seq<char>,
    pub standard: u64,
    pub sources: Seq<Seq<char>>,
    pub target_file: Seq<char>,
    pub architecture: Seq<char>,
    pub arch_flag: Seq<char>,
    pub optimization: Seq<char>,
    pub debug_indicator: Seq<char>,
    pub out_dir: Seq<char>,
    pub mkdir_cmd: Seq<char>,
    pub clean_cmd: Seq<char>,
}

/// The ephemeral build plan: computed once per invocation from the
/// configuration, the mode and the platform, consumed by the renderer.
pub struct BuildPlan {
    pub lang_upper: String,
    pub compiler: String,
    pub extension: String,
    pub std_prefix: String,
    pub standard: u64,
    pub sources: Vec<String>,
    pub target_file: String,
    pub architecture: String,
    pub arch_flag: String,
    pub optimization: String,
    pub debug_indicator: String,
    pub out_dir: String,
    pub mkdir_cmd: String,
    pub clean_cmd: String,
}

impl View for BuildPlan {
    type V = PlanView;

    open spec fn view(&self) -> PlanView {
        PlanView {
            lang_upper: self.lang_upper@,
            compiler: self.compiler@,
            extension: self.extension@,
            std_prefix: self.std_prefix@,
            standard: self.standard,
            sources: views(self.sources@),
            target_file: self.target_file@,
            architecture: self.architecture@,
            arch_flag: self.arch_flag@,
            optimization: self.optimization@,
            debug_indicator: self.debug_indicator@,
            out_dir: self.out_dir@,
            mkdir_cmd: self.mkdir_cmd@,
            clean_cmd: self.clean_cmd@,
        }
    }
}

/// The sources a configuration contributes to the plan: its files filtered
/// by the extension of its (recognized) language.
pub open spec fn spec_sources(cfg: ProjectConfig) -> Seq<Seq<char>> {
    filtered_sources(views(cfg.files@), ext_chars(language_of(cfg.language@).unwrap()))
}

/// The plan a configuration, mode and platform determine, assuming the
/// configuration's language is recognized.
pub open spec fn spec_plan(cfg: ProjectConfig, m: BuildModel, p: Platform) -> PlanView {
    let lang = language_of(cfg.language@).unwrap();
    PlanView {
        lang_upper: upper_chars(lang),
        compiler: compiler_chars(lang),
        extension: ext_chars(lang),
        std_prefix: std_prefix_chars(lang),
        standard: cfg.standard,
        sources: spec_sources(cfg),
        target_file: target_file_chars(p, cfg.target@),
        architecture: cfg.architecture@,
        arch_flag: arch_flag_chars(cfg.architecture@),
        optimization: optimization_chars(m),
        debug_indicator: indicator_chars(m),
        out_dir: out_dir_chars(m, cfg.architecture@),
        mkdir_cmd: mkdir_chars(p),
        clean_cmd: clean_chars(p),
    }
}

/// Builds the mode- and architecture-specific output directory path.
pub fn out_dir(m: BuildModel, arch: &str) -> (r: String)
    ensures
        r@ == out_dir_chars(m, arch@),
{
    let mut s = String::from_str("build/");
    s.append(m.as_str());
    s.append("-");
    s.append(arch);
    s
}

impl Platform {
    /// The platform's directory-creation-if-missing command.
    pub fn mkdir_cmd(&self) -> (r: &'static str)
        ensures
            r@ == mkdir_chars(*self),
    {
        match self {
            Platform::Windows => "@if not exist \"$(OBJ_DIR)\" mkdir \"$(OBJ_DIR)\"",
            Platform::Unix => "@mkdir -p $(OBJ_DIR)",
        }
    }

    /// The platform's delete command for the clean rule.
    pub fn clean_cmd(&self) -> (r: &'static str)
        ensures
            r@ == clean_chars(*self),
    {
        match self {
            Platform::Windows => "del /Q $(OBJ) $(TARGET)",
            Platform::Unix => "rm -f $(OBJ) $(TARGET)",
        }
    }
}

/// Builds the platform-suffixed target file name.
pub fn target_file(p: Platform, target: &str) -> (r: String)
    ensures
        r@ == target_file_chars(p, target@),
{
    match p {
        Platform::Windows => {
            let mut s = String::from_str(target);
            s.append(".exe");
            s
        },
        Platform::Unix => String::from_str(target),
    }
}

/// Derives the whole build plan, or the error the configuration forces:
/// an unrecognized language, or a source list with no file of the
/// language's extension.
pub fn derive_plan(cfg: &ProjectConfig, m: BuildModel, p: Platform) -> (r: Result<
    BuildPlan,
    GenError,
>)
    ensures
        r matches Ok(plan) ==> plan@ == spec_plan(*cfg, m, p),
        r is Ok <==> (language_of(cfg.language@) is Some && spec_sources(*cfg).len() > 0),
        (r == Err::<BuildPlan, GenError>(GenError::UnsupportedLanguage)) <==> language_of(
            cfg.language@,
        ) is None,
        (r == Err::<BuildPlan, GenError>(GenError::EmptySourceSet)) <==> (language_of(
            cfg.language@,
        ) is Some && spec_sources(*cfg).len() == 0),
{
    let lang = match parse_language(cfg.language.as_str()) {
        Ok(l) => l,
        Err(e) => {
            return Err(e);
        },
    };
    let sources = filter_sources(&cfg.files, lang.extension());
    if sources.len() == 0 {
        proof {
            assert(views(sources@) =~= Seq::<Seq<char>>::empty());
        }
        return Err(GenError::EmptySourceSet);
    }
    let plan = BuildPlan {
        lang_upper: String::from_str(lang.upper_name()),
        compiler: String::from_str(lang.compiler()),
        extension: String::from_str(lang.extension()),
        std_prefix: String::from_str(lang.std_prefix()),
        standard: cfg.standard,
        sources,
        target_file: target_file(p, cfg.target.as_str()),
        architecture: cfg.architecture.clone(),
        arch_flag: arch_flag(cfg.architecture.as_str()),
        optimization: m.optimization().to_owned(),
        debug_indicator: m.indicator().to_owned(),
        out_dir: out_dir(m, cfg.architecture.as_str()),
        mkdir_cmd: p.mkdir_cmd().to_owned(),
        clean_cmd: p.clean_cmd().to_owned(),
    };
    Ok(plan)
}

} // verus!
