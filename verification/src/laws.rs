//! The library's stated laws, proved once and for all inputs: which
//! compiler and extension each language yields and how they show in the
//! rendered text, how the architecture flag embeds its identifier, how the
//! two build modes differ, and that generation is deterministic.

use vstd::prelude::*;
use crate::config::{BuildModel, Language, Platform, ProjectConfig, language_of};
use crate::plan::{arch_flag_chars, spec_plan};
use crate::render::render_text;

verus! {

/// For every valid configuration whose language is "c", the plan's compiler
/// is the C compiler and its extension substitution is ".c", and the
/// rendered script opens with the header naming C and a compiler variable
/// equal to the C compiler identifier.
pub proof fn lemma_c_language(cfg: ProjectConfig, m: BuildModel, p: Platform)
    requires
        language_of(cfg.language@) == Some(Language::C),
    ensures
        spec_plan(cfg, m, p).compiler == "gcc"@,
        spec_plan(cfg, m, p).extension == ".c"@,
        render_text(spec_plan(cfg, m, p)).take(30) == "# C Project Makefile\nCC := gcc"@,
{
    let plan = spec_plan(cfg, m, p);
    reveal_strlit("# ");
    reveal_strlit("C");
    reveal_strlit(" Project Makefile\nCC := ");
    reveal_strlit("gcc");
    reveal_strlit("# C Project Makefile\nCC := gcc");
    let h = "# "@ + plan.lang_upper + " Project Makefile\nCC := "@ + plan.compiler;
    assert(h =~= "# C Project Makefile\nCC := gcc"@);
    assert(render_text(plan).take(30) =~= h);
}

/// For every valid configuration whose language is "c++", the plan's
/// compiler is the C++ compiler and its extension substitution is ".cpp",
/// and the rendered script opens with the header naming C++ and a compiler
/// variable equal to the C++ compiler identifier.
pub proof fn lemma_cpp_language(cfg: ProjectConfig, m: BuildModel, p: Platform)
    requires
        language_of(cfg.language@) == Some(Language::Cpp),
    ensures
        spec_plan(cfg, m, p).compiler == "g++"@,
        spec_plan(cfg, m, p).extension == ".cpp"@,
        render_text(spec_plan(cfg, m, p)).take(32) == "# C++ Project Makefile\nCC := g++"@,
{
    let plan = spec_plan(cfg, m, p);
    reveal_strlit("# ");
    reveal_strlit("C++");
    reveal_strlit(" Project Makefile\nCC := ");
    reveal_strlit("g++");
    reveal_strlit("# C++ Project Makefile\nCC := g++");
    let h = "# "@ + plan.lang_upper + " Project Makefile\nCC := "@ + plan.compiler;
    assert(h =~= "# C++ Project Makefile\nCC := g++"@);
    assert(render_text(plan).take(32) =~= h);
}

/// The architecture flag of the plan: the 64-bit flag for "x64", the 32-bit
/// flag for "x86", and for every other identifier a flag that embeds the
/// identifier verbatim after the flag prefix.
pub proof fn lemma_arch_flag(cfg: ProjectConfig, m: BuildModel, p: Platform)
    ensures
        spec_plan(cfg, m, p).arch_flag == arch_flag_chars(cfg.architecture@),
        cfg.architecture@ == "x64"@ ==> spec_plan(cfg, m, p).arch_flag == "-m64"@,
        cfg.architecture@ == "x86"@ ==> spec_plan(cfg, m, p).arch_flag == "-m32"@,
        cfg.architecture@ != "x64"@ && cfg.architecture@ != "x86"@ ==> {
            &&& spec_plan(cfg, m, p).arch_flag.take(2) == "-m"@
            &&& spec_plan(cfg, m, p).arch_flag.skip(2) == cfg.architecture@
        },
{
    let a = cfg.architecture@;
    reveal_strlit("-m");
    reveal_strlit("x64");
    reveal_strlit("x86");
    assert("x86"@[1] != "x64"@[1]);
    if a != "x64"@ && a != "x86"@ {
        assert(("-m"@ + a).take(2) =~= "-m"@);
        assert(("-m"@ + a).skip(2) =~= a);
    }
}

/// Debug mode substitutes the debug-enabling flags and a "1" indicator,
/// release mode the release optimization flag and a "0" indicator; the two
/// plans agree on every other substituted value except the output
/// directory, which embeds the mode's name. Both scripts are rendered from
/// the same fixed template, so their rule structure is identical.
pub proof fn lemma_mode_difference(cfg: ProjectConfig, p: Platform)
    ensures
        spec_plan(cfg, BuildModel::Debug, p).optimization == "-g -O0 -DDEBUG"@,
        spec_plan(cfg, BuildModel::Debug, p).debug_indicator == "1"@,
        spec_plan(cfg, BuildModel::Release, p).optimization == "-O2"@,
        spec_plan(cfg, BuildModel::Release, p).debug_indicator == "0"@,
        spec_plan(cfg, BuildModel::Debug, p).lang_upper == spec_plan(
            cfg,
            BuildModel::Release,
            p,
        ).lang_upper,
        spec_plan(cfg, BuildModel::Debug, p).compiler == spec_plan(
            cfg,
            BuildModel::Release,
            p,
        ).compiler,
        spec_plan(cfg, BuildModel::Debug, p).extension == spec_plan(
            cfg,
            BuildModel::Release,
            p,
        ).extension,
        spec_plan(cfg, BuildModel::Debug, p).std_prefix == spec_plan(
            cfg,
            BuildModel::Release,
            p,
        ).std_prefix,
        spec_plan(cfg, BuildModel::Debug, p).standard == spec_plan(
            cfg,
            BuildModel::Release,
            p,
        ).standard,
        spec_plan(cfg, BuildModel::Debug, p).sources == spec_plan(
            cfg,
            BuildModel::Release,
            p,
        ).sources,
        spec_plan(cfg, BuildModel::Debug, p).target_file == spec_plan(
            cfg,
            BuildModel::Release,
            p,
        ).target_file,
        spec_plan(cfg, BuildModel::Debug, p).architecture == spec_plan(
            cfg,
            BuildModel::Release,
            p,
        ).architecture,
        spec_plan(cfg, BuildModel::Debug, p).arch_flag == spec_plan(
            cfg,
            BuildModel::Release,
            p,
        ).arch_flag,
        spec_plan(cfg, BuildModel::Debug, p).mkdir_cmd == spec_plan(
            cfg,
            BuildModel::Release,
            p,
        ).mkdir_cmd,
        spec_plan(cfg, BuildModel::Debug, p).clean_cmd == spec_plan(
            cfg,
            BuildModel::Release,
            p,
        ).clean_cmd,
        spec_plan(cfg, BuildModel::Debug, p).out_dir == "build/debug-"@ + cfg.architecture@,
        spec_plan(cfg, BuildModel::Release, p).out_dir == "build/release-"@ + cfg.architecture@,
{
    reveal_strlit("build/");
    reveal_strlit("debug");
    reveal_strlit("release");
    reveal_strlit("-");
    reveal_strlit("build/debug-");
    reveal_strlit("build/release-");
    assert("build/"@ + "debug"@ + "-"@ + cfg.architecture@ =~= "build/debug-"@
        + cfg.architecture@);
    assert("build/"@ + "release"@ + "-"@ + cfg.architecture@ =~= "build/release-"@
        + cfg.architecture@);
}

/// Generation is deterministic: an unchanged configuration, mode and
/// platform determine the same plan and the same rendered text, so two runs
/// of the generator produce byte-identical output.
pub proof fn lemma_generation_deterministic(
    cfg1: ProjectConfig,
    cfg2: ProjectConfig,
    m1: BuildModel,
    m2: BuildModel,
    p1: Platform,
    p2: Platform,
)
    requires
        cfg1 == cfg2,
        m1 == m2,
        p1 == p2,
    ensures
        spec_plan(cfg1, m1, p1) == spec_plan(cfg2, m2, p2),
        render_text(spec_plan(cfg1, m1, p1)) == render_text(spec_plan(cfg2, m2, p2)),
{
}

} // verus!
