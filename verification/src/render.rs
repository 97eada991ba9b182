//! Rendering: the fixed build-script template, the substitution of the plan's
//! values into it, and the whole pipeline from configuration and mode to the
//! script text and its output path.
//!
//! The template's rule structure is fixed — default target, link rule,
//! pattern compile rule, directory creation, clean rule, phony declarations —
//! and only the substituted values vary between invocations. Its exact text
//! is a compatibility contract: consumers may depend on the rule names.

use vstd::prelude::*;
use vstd::string::StringExecFns;
use crate::config::{BuildModel, GenError, Platform, ProjectConfig, language_of};
use crate::plan::{BuildPlan, PlanView, derive_plan, out_dir, out_dir_chars, spec_plan, spec_sources};
use crate::text::{decimal, joined, push_decimal, push_joined};

verus! {

/// The rendered script: the template with the plan's values substituted.
pub open spec fn render_text(p: PlanView) -> Seq<char> {
    "# "@ + p.lang_upper + " Project Makefile\nCC := "@ + p.compiler + "\nSRC := "@ + joined(
        p.sources,
    ) + "\nTARGET := "@ + p.out_dir + "/"@ + p.target_file + "\nSTD := "@ + p.std_prefix + decimal(
        p.standard as nat,
    ) + "\nARCH := "@ + p.architecture + "\nDEBUG := "@ + p.debug_indicator + "\n\nOBJ_DIR := "@
        + p.out_dir + "/obj\nOBJ := $(addprefix $(OBJ_DIR)/, $(SRC:"@ + p.extension
        + "=.o))\n\nCFLAGS := "@ + p.optimization + " -std=$(STD) "@ + p.arch_flag
        + "\nLDFLAGS := "@ + p.arch_flag
        + "\n\nall: create_dirs $(TARGET)\n\n$(TARGET): $(OBJ)\n\t$(CC) $^ -o $@ $(LDFLAGS)\n\n$(OBJ_DIR)/%.o: %"@
        + p.extension + "\n\t"@ + p.mkdir_cmd + "\n\t$(CC) $(CFLAGS) -c $< -o $@\n\ncreate_dirs:\n\t"@
        + p.mkdir_cmd + "\n\nclean:\n\t"@ + p.clean_cmd + "\n\n.PHONY: all clean create_dirs\n"@
}

/// Renders the build script for a derived plan.
pub fn render_makefile(p: &BuildPlan) -> (r: String)
    ensures
        r@ == render_text(p@),
{
    let mut s = String::from_str("# ");
    s.append(p.lang_upper.as_str());
    s.append(" Project Makefile\nCC := ");
    s.append(p.compiler.as_str());
    s.append("\nSRC := ");
    push_joined(&mut s, &p.sources);
    s.append("\nTARGET := ");
    s.append(p.out_dir.as_str());
    s.append("/");
    s.append(p.target_file.as_str());
    s.append("\nSTD := ");
    s.append(p.std_prefix.as_str());
    push_decimal(&mut s, p.standard);
    s.append("\nARCH := ");
    s.append(p.architecture.as_str());
    s.append("\nDEBUG := ");
    s.append(p.debug_indicator.as_str());
    s.append("\n\nOBJ_DIR := ");
    s.append(p.out_dir.as_str());
    s.append("/obj\nOBJ := $(addprefix $(OBJ_DIR)/, $(SRC:");
    s.append(p.extension.as_str());
    s.append("=.o))\n\nCFLAGS := ");
    s.append(p.optimization.as_str());
    s.append(" -std=$(STD) ");
    s.append(p.arch_flag.as_str());
    s.append("\nLDFLAGS := ");
    s.append(p.arch_flag.as_str());
    s.append(
        "\n\nall: create_dirs $(TARGET)\n\n$(TARGET): $(OBJ)\n\t$(CC) $^ -o $@ $(LDFLAGS)\n\n$(OBJ_DIR)/%.o: %",
    );
    s.append(p.extension.as_str());
    s.append("\n\t");
    s.append(p.mkdir_cmd.as_str());
    s.append("\n\t$(CC) $(CFLAGS) -c $< -o $@\n\ncreate_dirs:\n\t");
    s.append(p.mkdir_cmd.as_str());
    s.append("\n\nclean:\n\t");
    s.append(p.clean_cmd.as_str());
    s.append("\n\n.PHONY: all clean create_dirs\n");
    s
}

/// The path of the generated script inside the output directory.
pub open spec fn script_path_chars(m: BuildModel, arch: Seq<char>) -> Seq<char> {
    out_dir_chars(m, arch) + "/Makefile"@
}

/// A generated build script: the directory to create, the file path to
/// write, and the text to write there.
pub struct GeneratedScript {
    pub dir: String,
    pub path: String,
    pub content: String,
}

/// The whole pipeline: derives the plan from the configuration, the mode
/// and the platform, and renders the script. Fails exactly when the
/// language is unrecognized, or when no configured file carries the
/// language's extension; on success the text and both paths are fixed by
/// the inputs alone.
pub fn generate(cfg: &ProjectConfig, m: BuildModel, p: Platform) -> (r: Result<
    GeneratedScript,
    GenError,
>)
    ensures
        r matches Ok(g) ==> {
            &&& g.content@ == render_text(spec_plan(*cfg, m, p))
            &&& g.dir@ == out_dir_chars(m, cfg.architecture@)
            &&& g.path@ == script_path_chars(m, cfg.architecture@)
        },
        r is Ok <==> (language_of(cfg.language@) is Some && spec_sources(*cfg).len() > 0),
        (r matches Err(e) && e == GenError::UnsupportedLanguage) <==> language_of(
            cfg.language@,
        ) is None,
        (r matches Err(e) && e == GenError::EmptySourceSet) <==> (language_of(
            cfg.language@,
        ) is Some && spec_sources(*cfg).len() == 0),
{
    let plan = match derive_plan(cfg, m, p) {
        Ok(plan) => plan,
        Err(e) => {
            return Err(e);
        },
    };
    let content = render_makefile(&plan);
    let dir = out_dir(m, cfg.architecture.as_str());
    let mut path = dir.clone();
    path.append("/Makefile");
    Ok(GeneratedScript { dir, path, content })
}

} // verus!
