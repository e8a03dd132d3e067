//! Functions read from the source files of a fetched repository.
use vstd::prelude::*;

use crate::function::parsed::{descriptor_views, spec_extraction, Extraction, ParsedFunctions};
use crate::function::{Descriptor, DescriptorView};
use crate::language::{spec_language_from_path, SourceLanguage};
use crate::parser::{spec_grammar_for, ParsedCode};

verus! {

/// A source file of the repository: its path and its bytes.
#[derive(Debug, Clone)]
pub struct SourceFile {
    pub path: String,
    pub text: Vec<u8>,
}

/// The functions found in `text`, parsed as `language` from the file at `path` with the
/// grammar the path gives (see [`spec_extraction`]); none when the extraction fails.
pub open spec fn file_functions(language: SourceLanguage, path: Seq<char>, text: Seq<u8>) -> Seq<
    DescriptorView,
> {
    match spec_extraction(language, spec_grammar_for(language, Some(path)), text, path) {
        Extraction::Found(fs) => fs,
        _ => Seq::empty(),
    }
}

/// The functions of a file of the given language; none when they cannot be read.
fn extract_language_file(language: SourceLanguage, path: &str, text: Vec<u8>) -> (r: Vec<
    Descriptor,
>)
    ensures
        descriptor_views(r@) == file_functions(language, path@, text@),
{
    match ParsedCode::new(language, text, Some(path.to_owned())) {
        Ok(code) => {
            let mut functions = ParsedFunctions::new(code);
            match functions.functions() {
                Ok(fs) => crate::function::parsed::copy_descriptors(fs),
                Err(_) => Vec::new(),
            }
        },
        Err(_) => Vec::new(),
    }
}

/// The functions of a C file (see [`file_functions`]).
pub fn extract_c_file(path: &str, text: Vec<u8>) -> (r: Vec<Descriptor>)
    ensures
        descriptor_views(r@) == file_functions(SourceLanguage::C, path@, text@),
{
    extract_language_file(SourceLanguage::C, path, text)
}

/// The functions of a C++ file (see [`file_functions`]).
pub fn extract_cpp_file(path: &str, text: Vec<u8>) -> (r: Vec<Descriptor>)
    ensures
        descriptor_views(r@) == file_functions(SourceLanguage::Cpp, path@, text@),
{
    extract_language_file(SourceLanguage::Cpp, path, text)
}

/// The functions of a Python file (see [`file_functions`]).
pub fn extract_python_file(path: &str, text: Vec<u8>) -> (r: Vec<Descriptor>)
    ensures
        descriptor_views(r@) == file_functions(SourceLanguage::Python, path@, text@),
{
    extract_language_file(SourceLanguage::Python, path, text)
}

/// The functions of a JavaScript file (see [`file_functions`]).
pub fn extract_javascript_file(path: &str, text: Vec<u8>) -> (r: Vec<Descriptor>)
    ensures
        descriptor_views(r@) == file_functions(SourceLanguage::JavaScript, path@, text@),
{
    extract_language_file(SourceLanguage::JavaScript, path, text)
}

/// The functions of a TypeScript file (see [`file_functions`]).
pub fn extract_typescript_file(path: &str, text: Vec<u8>) -> (r: Vec<Descriptor>)
    ensures
        descriptor_views(r@) == file_functions(SourceLanguage::TypeScript, path@, text@),
{
    extract_language_file(SourceLanguage::TypeScript, path, text)
}

/// The functions of a Go file (see [`file_functions`]).
pub fn extract_go_file(path: &str, text: Vec<u8>) -> (r: Vec<Descriptor>)
    ensures
        descriptor_views(r@) == file_functions(SourceLanguage::Go, path@, text@),
{
    extract_language_file(SourceLanguage::Go, path, text)
}

/// The functions of a Rust file (see [`file_functions`]).
pub fn extract_rust_file(path: &str, text: Vec<u8>) -> (r: Vec<Descriptor>)
    ensures
        descriptor_views(r@) == file_functions(SourceLanguage::Rust, path@, text@),
{
    extract_language_file(SourceLanguage::Rust, path, text)
}

/// The functions of a Java file (see [`file_functions`]).
pub fn extract_java_file(path: &str, text: Vec<u8>) -> (r: Vec<Descriptor>)
    ensures
        descriptor_views(r@) == file_functions(SourceLanguage::Java, path@, text@),
{
    extract_language_file(SourceLanguage::Java, path, text)
}

/// The functions of a C# file (see [`file_functions`]).
pub fn extract_csharp_file(path: &str, text: Vec<u8>) -> (r: Vec<Descriptor>)
    ensures
        descriptor_views(r@) == file_functions(SourceLanguage::CSharp, path@, text@),
{
    extract_language_file(SourceLanguage::CSharp, path, text)
}

/// The functions of a source file: those of its language (see [`file_functions`]), or none
/// for a file of no known language.
pub open spec fn source_file_functions(f: SourceFile) -> Seq<DescriptorView> {
    match spec_language_from_path(f.path@) {
        None => Seq::empty(),
        Some(l) => file_functions(l, f.path@, f.text@),
    }
}

/// The functions of the files, file after file.
pub open spec fn files_functions(files: Seq<SourceFile>) -> Seq<DescriptorView>
    decreases files.len(),
{
    if files.len() == 0 {
        Seq::empty()
    } else {
        files_functions(files.drop_last()) + source_file_functions(files.last())
    }
}

/// The functions of the files of a known language, file after file (see
/// [`files_functions`]).
pub fn extract(files: Vec<SourceFile>) -> (r: Vec<Descriptor>)
    ensures
        descriptor_views(r@) == files_functions(files@),
{
    let mut functions: Vec<Descriptor> = Vec::new();
    let mut i: usize = 0;
    while i < files.len()
        invariant
            0 <= i <= files@.len(),
            descriptor_views(functions@) == files_functions(files@.subrange(0, i as int)),
        decreases files.len() - i,
    {
        assert(files@.subrange(0, i + 1).drop_last() == files@.subrange(0, i as int));
        let path = files[i].path.as_str();
        let text = files[i].text.clone();
        let found: Vec<Descriptor> = match SourceLanguage::from_path(path) {
            Some(language) => match language {
                SourceLanguage::C => extract_c_file(path, text),
                SourceLanguage::Cpp => extract_cpp_file(path, text),
                SourceLanguage::Python => extract_python_file(path, text),
                SourceLanguage::JavaScript => extract_javascript_file(path, text),
                SourceLanguage::TypeScript => extract_typescript_file(path, text),
                SourceLanguage::Go => extract_go_file(path, text),
                SourceLanguage::Rust => extract_rust_file(path, text),
                SourceLanguage::Java => extract_java_file(path, text),
                SourceLanguage::CSharp => extract_csharp_file(path, text),
            },
            None => Vec::new(),
        };
        let ghost part = descriptor_views(found@);
        assert(part == source_file_functions(files@[i as int]));
        let mut j: usize = 0;
        let ghost base = descriptor_views(functions@);
        while j < found.len()
            invariant
                0 <= j <= found@.len(),
                part == descriptor_views(found@),
                descriptor_views(functions@) == base + part.subrange(0, j as int),
            decreases found.len() - j,
        {
            let d = found[j].duplicate();
            let ghost before = functions@;
            functions.push(d);
            assert(descriptor_views(functions@) =~= descriptor_views(before).push(d@));
            assert(part.subrange(0, j + 1) =~= part.subrange(0, j as int).push(found@[j as int]@));
            j = j + 1;
        }
        assert(part.subrange(0, part.len() as int) == part);
        i = i + 1;
    }
    assert(files@.subrange(0, files@.len() as int) == files@);
    functions
}

} // verus!
