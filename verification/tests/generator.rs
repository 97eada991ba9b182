use tr2make::config::{BuildConfig, BuildModel, BuildModels, GenError, Platform, ProjectConfig};
use tr2make::plan::arch_flag;
use tr2make::render::generate;

fn config(language: &str, standard: u64, files: &[&str], target: &str, arch: &str) -> ProjectConfig {
    ProjectConfig {
        language: language.to_string(),
        standard,
        files: files.iter().map(|f| f.to_string()).collect(),
        target: target.to_string(),
        architecture: arch.to_string(),
        model: BuildModels {
            debug: BuildConfig { targetdir: "out".to_string() },
            release: BuildConfig { targetdir: "out".to_string() },
        },
    }
}

fn generated(cfg: &ProjectConfig, m: BuildModel, p: Platform) -> tr2make::render::GeneratedScript {
    match generate(cfg, m, p) {
        Ok(g) => g,
        Err(_) => panic!("generation failed unexpectedly"),
    }
}

#[test]
fn c_compiler_and_extension() {
    let cfg = config("c", 11, &["a.c", "b.cpp", "c.c"], "app", "x64");
    let g = generated(&cfg, BuildModel::Debug, Platform::Unix);
    assert!(g.content.starts_with("# C Project Makefile\nCC := gcc\n"));
    assert!(g.content.contains("SRC := a.c c.c\n"));
    assert!(g.content.contains("$(SRC:.c=.o)"));
    assert!(g.content.contains("$(OBJ_DIR)/%.o: %.c\n"));
}

#[test]
fn cpp_compiler_and_extension() {
    let cfg = config("c++", 17, &["a.c", "b.cpp", "d.cpp"], "app", "x64");
    let g = generated(&cfg, BuildModel::Debug, Platform::Unix);
    assert!(g.content.starts_with("# C++ Project Makefile\nCC := g++\n"));
    assert!(g.content.contains("SRC := b.cpp d.cpp\n"));
    assert!(g.content.contains("$(SRC:.cpp=.o)"));
    assert!(g.content.contains("STD := c++17\n"));
}

#[test]
fn empty_source_set_fails() {
    let cfg = config("c", 11, &["a.cpp", "b.rs"], "app", "x64");
    match generate(&cfg, BuildModel::Debug, Platform::Unix) {
        Ok(_) => panic!("expected an error"),
        Err(e) => assert_eq!(e, GenError::EmptySourceSet),
    }
}

#[test]
fn no_files_at_all_fails() {
    let cfg = config("c++", 17, &[], "app", "x64");
    match generate(&cfg, BuildModel::Release, Platform::Unix) {
        Ok(_) => panic!("expected an error"),
        Err(e) => assert_eq!(e, GenError::EmptySourceSet),
    }
}

#[test]
fn unsupported_language_fails() {
    let cfg = config("rust", 21, &["a.rs"], "app", "x64");
    match generate(&cfg, BuildModel::Debug, Platform::Unix) {
        Ok(_) => panic!("expected an error"),
        Err(e) => assert_eq!(e, GenError::UnsupportedLanguage),
    }
}

#[test]
fn architecture_flags() {
    assert_eq!(arch_flag("x64"), "-m64");
    assert_eq!(arch_flag("x86"), "-m32");
    assert_eq!(arch_flag("arm"), "-marm");

    let cfg64 = config("c", 11, &["a.c"], "app", "x64");
    let g64 = generated(&cfg64, BuildModel::Release, Platform::Unix);
    assert!(g64.content.contains("CFLAGS := -O2 -std=$(STD) -m64\n"));
    assert!(g64.content.contains("LDFLAGS := -m64\n"));

    let cfg86 = config("c", 11, &["a.c"], "app", "x86");
    let g86 = generated(&cfg86, BuildModel::Release, Platform::Unix);
    assert!(g86.content.contains("CFLAGS := -O2 -std=$(STD) -m32\n"));

    let cfg_other = config("c", 11, &["a.c"], "app", "riscv");
    let g_other = generated(&cfg_other, BuildModel::Release, Platform::Unix);
    assert!(g_other.content.contains("-mriscv"));
}

#[test]
fn debug_and_release_modes() {
    let cfg = config("c", 11, &["a.c"], "app", "x64");
    let d = generated(&cfg, BuildModel::Debug, Platform::Unix);
    let r = generated(&cfg, BuildModel::Release, Platform::Unix);

    assert!(d.content.contains("CFLAGS := -g -O0 -DDEBUG -std=$(STD) -m64\n"));
    assert!(d.content.contains("DEBUG := 1\n"));
    assert!(r.content.contains("CFLAGS := -O2 -std=$(STD) -m64\n"));
    assert!(r.content.contains("DEBUG := 0\n"));

    // The rule structure is identical in both modes.
    for rule in [
        "all: create_dirs $(TARGET)\n",
        "$(TARGET): $(OBJ)\n\t$(CC) $^ -o $@ $(LDFLAGS)\n",
        "$(OBJ_DIR)/%.o: %.c\n\t@mkdir -p $(OBJ_DIR)\n\t$(CC) $(CFLAGS) -c $< -o $@\n",
        "create_dirs:\n\t@mkdir -p $(OBJ_DIR)\n",
        "clean:\n\trm -f $(OBJ) $(TARGET)\n",
        ".PHONY: all clean create_dirs\n",
    ] {
        assert!(d.content.contains(rule));
        assert!(r.content.contains(rule));
    }
}

#[test]
fn generation_is_idempotent() {
    let cfg = config("c++", 20, &["m.cpp", "n.cpp"], "tool", "arm");
    let first = generated(&cfg, BuildModel::Release, Platform::Unix);
    let second = generated(&cfg, BuildModel::Release, Platform::Unix);
    assert_eq!(first.content, second.content);
    assert_eq!(first.dir, second.dir);
    assert_eq!(first.path, second.path);
}

#[test]
fn end_to_end_example() {
    let cfg = config("c", 17, &["a.c", "b.cpp", "c.c"], "app", "x64");
    let g = generated(&cfg, BuildModel::Debug, Platform::Unix);
    assert_eq!(g.dir, "build/debug-x64");
    assert_eq!(g.path, "build/debug-x64/Makefile");
    assert!(g.content.contains("SRC := a.c c.c\n"));
    assert!(g.content.contains("STD := c17\n"));
    assert!(g.content.contains("ARCH := x64\n"));
    assert!(g.content.contains("-g -O0 -DDEBUG"));
    assert!(g.content.contains("-m64"));
}

#[test]
fn full_text_on_unix() {
    let cfg = config("c", 17, &["a.c", "b.cpp", "c.c"], "app", "x64");
    let g = generated(&cfg, BuildModel::Debug, Platform::Unix);
    let expected = "# C Project Makefile\n\
CC := gcc\n\
SRC := a.c c.c\n\
TARGET := build/debug-x64/app\n\
STD := c17\n\
ARCH := x64\n\
DEBUG := 1\n\
\n\
OBJ_DIR := build/debug-x64/obj\n\
OBJ := $(addprefix $(OBJ_DIR)/, $(SRC:.c=.o))\n\
\n\
CFLAGS := -g -O0 -DDEBUG -std=$(STD) -m64\n\
LDFLAGS := -m64\n\
\n\
all: create_dirs $(TARGET)\n\
\n\
$(TARGET): $(OBJ)\n\
\t$(CC) $^ -o $@ $(LDFLAGS)\n\
\n\
$(OBJ_DIR)/%.o: %.c\n\
\t@mkdir -p $(OBJ_DIR)\n\
\t$(CC) $(CFLAGS) -c $< -o $@\n\
\n\
create_dirs:\n\
\t@mkdir -p $(OBJ_DIR)\n\
\n\
clean:\n\
\trm -f $(OBJ) $(TARGET)\n\
\n\
.PHONY: all clean create_dirs\n";
    assert_eq!(g.content, expected);
}

#[test]
fn windows_fragments() {
    let cfg = config("c", 11, &["a.c"], "app", "x86");
    let g = generated(&cfg, BuildModel::Release, Platform::Windows);
    assert!(g.content.contains("TARGET := build/release-x86/app.exe\n"));
    assert!(g.content.contains("@if not exist \"$(OBJ_DIR)\" mkdir \"$(OBJ_DIR)\""));
    assert!(g.content.contains("clean:\n\tdel /Q $(OBJ) $(TARGET)\n"));
    assert!(!g.content.contains("rm -f"));
}

#[test]
fn mode_names() {
    assert_eq!(BuildModel::Debug.as_str(), "debug");
    assert_eq!(BuildModel::Release.as_str(), "release");
}

#[test]
fn source_order_is_preserved() {
    let cfg = config("c", 11, &["z.c", "a.c", "m.c"], "app", "x64");
    let g = generated(&cfg, BuildModel::Debug, Platform::Unix);
    assert!(g.content.contains("SRC := z.c a.c m.c\n"));
}

#[test]
fn release_output_path() {
    let cfg = config("c++", 14, &["a.cpp"], "svc", "arm");
    let g = generated(&cfg, BuildModel::Release, Platform::Unix);
    assert_eq!(g.dir, "build/release-arm");
    assert_eq!(g.path, "build/release-arm/Makefile");
    assert!(g.content.contains("TARGET := build/release-arm/svc\n"));
    assert!(g.content.contains("STD := c++14\n"));
}

#[test]
fn multi_digit_standard() {
    let cfg = config("c++", 20, &["a.cpp"], "app", "x64");
    let g = generated(&cfg, BuildModel::Release, Platform::Unix);
    assert!(g.content.contains("STD := c++20\n"));
}
