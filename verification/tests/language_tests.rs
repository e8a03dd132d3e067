use codablellm::language::{path_extension, file_name, Language, SourceLanguage};

#[test]
fn header_files_are_c() {
    assert_eq!(SourceLanguage::from_path("src/include/foo.h"), Some(SourceLanguage::C));
}

#[test]
fn cpp_headers_and_sources() {
    assert_eq!(SourceLanguage::from_path("a/b.hpp"), Some(SourceLanguage::Cpp));
    assert_eq!(SourceLanguage::from_path("a/b.cc"), Some(SourceLanguage::Cpp));
    assert_eq!(SourceLanguage::from_path("a/b.c++"), Some(SourceLanguage::Cpp));
}

#[test]
fn every_language_is_found_by_its_extensions() {
    assert_eq!(SourceLanguage::from_path("x.py"), Some(SourceLanguage::Python));
    assert_eq!(SourceLanguage::from_path("x.pyw"), Some(SourceLanguage::Python));
    assert_eq!(SourceLanguage::from_path("x.mjs"), Some(SourceLanguage::JavaScript));
    assert_eq!(SourceLanguage::from_path("x.tsx"), Some(SourceLanguage::TypeScript));
    assert_eq!(SourceLanguage::from_path("x.go"), Some(SourceLanguage::Go));
    assert_eq!(SourceLanguage::from_path("x.rs"), Some(SourceLanguage::Rust));
    assert_eq!(SourceLanguage::from_path("x.java"), Some(SourceLanguage::Java));
    assert_eq!(SourceLanguage::from_path("x.cs"), Some(SourceLanguage::CSharp));
}

#[test]
fn unknown_and_missing_extensions() {
    assert_eq!(SourceLanguage::from_path("README.md"), None);
    assert_eq!(SourceLanguage::from_path("Makefile"), None);
    assert_eq!(SourceLanguage::from_path(".c"), None);
    assert_eq!(SourceLanguage::from_path("dir.c/"), Some(SourceLanguage::C));
    assert_eq!(SourceLanguage::from_path("x.C"), None);
}

#[test]
fn path_extension_follows_std() {
    let cases = ["a/b.tar.gz", "noext", ".hidden", "trailing.", "dir/.", "x/..", "/", "", "a//b.rs//", "./c.c"];
    for case in cases {
        let std_ext = std::path::Path::new(case).extension().map(|e| e.to_str().unwrap().to_string());
        assert_eq!(path_extension(case), std_ext, "extension of {case:?}");
        let std_name = std::path::Path::new(case).file_name().map(|e| e.to_str().unwrap().to_string());
        assert_eq!(file_name(case), std_name, "file name of {case:?}");
    }
}

#[test]
fn extensions_and_compilability() {
    assert_eq!(SourceLanguage::C.file_extensions(), &["c", "h"]);
    assert_eq!(SourceLanguage::TypeScript.file_extensions(), &["ts", "tsx"]);
    assert!(SourceLanguage::Rust.is_compilable());
    assert!(SourceLanguage::CSharp.is_compilable());
    assert!(!SourceLanguage::Python.is_compilable());
    assert!(!SourceLanguage::JavaScript.is_compilable());
}

#[test]
fn language_names() {
    let names: Vec<String> = SourceLanguage::iter().iter().map(|l| l.to_string()).collect();
    assert_eq!(names, ["c", "c++", "python", "javascript", "typescript", "go", "rust", "java", "c#"]);
    assert_eq!(Language::Source(SourceLanguage::Cpp).to_string(), "c++");
    assert_eq!(Language::Assembly().to_string(), "assembly");
    assert_eq!(Language::PseudoC.to_string(), "pseudoc");
}

#[test]
fn each_claimed_extension_leads_back_to_its_language() {
    for language in SourceLanguage::iter() {
        for ext in language.file_extensions() {
            let found = SourceLanguage::from_path(&format!("dir/file.{ext}"));
            if language == SourceLanguage::Cpp && *ext == "h" {
                assert_eq!(found, Some(SourceLanguage::C));
            } else {
                assert_eq!(found, Some(language), "extension {ext}");
            }
        }
    }
}
