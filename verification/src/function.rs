//! Functions found in source code: where they are, how they are named and shown.
use vstd::prelude::*;

pub mod parsed;

use crate::language::{Language, SourceLanguage};
use crate::text::{decimal_chars, join, push_chars, push_str, spec_decimal, spec_join};

verus! {

/// A half-open range `[start, end)` of offsets, rows or columns.
#[derive(Debug, Clone, Copy, PartialEq, Eq, Structural)]
pub struct Span {
    pub start: usize,
    pub end: usize,
}

/// Where a function's definition sits in its source file.
#[derive(Debug, Clone)]
pub struct Location {
    /// Path of the source file.
    pub source: String,
    /// Byte offsets of the definition.
    pub bytes_range: Span,
    /// Zero-based rows of the definition's first and last lines.
    pub line_range: Span,
    /// Zero-based columns at which the definition starts and ends.
    pub column_range: Span,
}

/// A function's name, full definition text, language and (for source code) location.
#[derive(Debug, Clone)]
pub struct Descriptor {
    pub name: String,
    pub definition: String,
    pub language: Language,
    pub location: Option<Location>,
}

/// A location as plain values.
#[verifier::ext_equal]
pub struct LocationView {
    pub source: Seq<char>,
    pub bytes_range: Span,
    pub line_range: Span,
    pub column_range: Span,
}

/// A descriptor as plain values.
#[verifier::ext_equal]
pub struct DescriptorView {
    pub name: Seq<char>,
    pub definition: Seq<char>,
    pub language: Language,
    pub location: Option<LocationView>,
}

impl View for Location {
    type V = LocationView;

    open spec fn view(&self) -> LocationView {
        LocationView {
            source: self.source@,
            bytes_range: self.bytes_range,
            line_range: self.line_range,
            column_range: self.column_range,
        }
    }
}

impl View for Descriptor {
    type V = DescriptorView;

    open spec fn view(&self) -> DescriptorView {
        DescriptorView {
            name: self.name@,
            definition: self.definition@,
            language: self.language,
            location: match self.location {
                Some(l) => Some(l@),
                None => None,
            },
        }
    }
}

/// `source:line` text of a location.
pub open spec fn location_text(l: Location) -> Seq<char> {
    l.source@ + ":"@ + spec_decimal(l.line_range.start as nat)
}

/// `name (source:line)` text of a function, or `name (<MEM>)` when it has no location.
pub open spec fn function_text(d: Descriptor) -> Seq<char> {
    d.name@ + " ("@ + match d.location {
        Some(l) => location_text(l),
        None => "<MEM>"@,
    } + ")"@
}

/// The separator between scope parts: `::` for C++ and Rust, `.` otherwise.
pub open spec fn separator(lang: Language) -> Seq<char> {
    match lang {
        Language::Source(SourceLanguage::Cpp) | Language::Source(SourceLanguage::Rust) => "::"@,
        _ => "."@,
    }
}

/// Law: scope parts are joined by `::` exactly in C++ and Rust, and by `.` in every other
/// language (C, Python, JavaScript, TypeScript, Go, Java, C#, and code without a source
/// language); so a Java method shows as `scope.receiver.name (source:line)` and a scoped
/// Python function as `scope.name (source:line)`.
pub proof fn lemma_separator_by_language(
    lang: Language,
    d: Descriptor,
    scope: Seq<String>,
    receiver: Seq<char>,
)
    ensures
        separator(lang) == "::"@ <==> (lang == Language::Source(SourceLanguage::Cpp) || lang
            == Language::Source(SourceLanguage::Rust)),
        separator(lang) == "."@ <==> !(lang == Language::Source(SourceLanguage::Cpp) || lang
            == Language::Source(SourceLanguage::Rust)),
        !(d.language == Language::Source(SourceLanguage::Cpp) || d.language == Language::Source(
            SourceLanguage::Rust,
        )) ==> method_text(d, scope, receiver) == spec_join(string_views(scope), "."@) + "."@
            + receiver + "."@ + function_text(d),
        (d.language == Language::Source(SourceLanguage::Cpp) || d.language == Language::Source(
            SourceLanguage::Rust,
        )) ==> method_text(d, scope, receiver) == spec_join(string_views(scope), "::"@) + "::"@
            + receiver + "::"@ + function_text(d),
        !(d.language == Language::Source(SourceLanguage::Cpp) || d.language == Language::Source(
            SourceLanguage::Rust,
        )) ==> scoped_text(d, scope) == spec_join(string_views(scope), "."@) + "."@
            + function_text(d),
{
    reveal_strlit("::");
    reveal_strlit(".");
    assert("::"@.len() != "."@.len());
}

/// Views of a list of strings.
pub open spec fn string_views(v: Seq<String>) -> Seq<Seq<char>> {
    v.map_values(|s: String| s@)
}

/// Text of a function inside a scope: the scope parts, then the function, joined by the
/// language's separator.
pub open spec fn scoped_text(d: Descriptor, scope: Seq<String>) -> Seq<char> {
    spec_join(string_views(scope), separator(d.language)) + separator(d.language)
        + function_text(d)
}

/// Text of a method: the scope parts, the receiver, then the function, joined by the
/// language's separator.
pub open spec fn method_text(d: Descriptor, scope: Seq<String>, receiver: Seq<char>) -> Seq<
    char,
> {
    spec_join(string_views(scope), separator(d.language)) + separator(d.language) + receiver
        + separator(d.language) + function_text(d)
}

impl Location {
    /// A copy of the location.
    pub fn duplicate(&self) -> (r: Location)
        ensures
            r@ == self@,
    {
        Location {
            source: self.source.clone(),
            bytes_range: self.bytes_range,
            line_range: self.line_range,
            column_range: self.column_range,
        }
    }

    /// `source:line`, with the zero-based first line of the definition.
    pub fn to_string(&self) -> (r: String)
        ensures
            r@ == location_text(*self),
    {
        let mut r = self.source.clone();
        push_str(&mut r, ":");
        let digits = decimal_chars(self.line_range.start);
        push_chars(&mut r, &digits);
        proof {
            reveal_strlit(":");
        }
        r
    }
}

impl Descriptor {
    /// A copy of the descriptor.
    pub fn duplicate(&self) -> (r: Descriptor)
        ensures
            r@ == self@,
    {
        Descriptor {
            name: self.name.clone(),
            definition: self.definition.clone(),
            language: self.language,
            location: match &self.location {
                Some(l) => Some(l.duplicate()),
                None => None,
            },
        }
    }
}

/// The separator between scope parts of a function in the given language.
pub fn separator_of(lang: Language) -> (r: &'static str)
    ensures
        r@ == separator(lang),
{
    match lang {
        Language::Source(SourceLanguage::Cpp) | Language::Source(SourceLanguage::Rust) => "::",
        _ => ".",
    }
}

/// Anything that is described by a function [`Descriptor`].
pub trait Function {
    /// The descriptor, in specifications.
    spec fn spec_descriptor(&self) -> Descriptor;

    /// The function's descriptor.
    fn descriptor(&self) -> (d: &Descriptor)
        ensures
            *d == self.spec_descriptor(),
    ;

    /// The function's name.
    fn name(&self) -> (r: &str)
        ensures
            r@ == self.spec_descriptor().name@,
    {
        self.descriptor().name.as_str()
    }

    /// The function's full definition text.
    fn definition(&self) -> (r: &str)
        ensures
            r@ == self.spec_descriptor().definition@,
    {
        self.descriptor().definition.as_str()
    }

    /// The language the function is written in.
    fn language(&self) -> (r: Language)
        ensures
            r == self.spec_descriptor().language,
    {
        self.descriptor().language
    }

    /// Where the function's definition is, if it came from a file.
    fn location(&self) -> (r: &Option<Location>)
        ensures
            *r == self.spec_descriptor().location,
    {
        &self.descriptor().location
    }

    /// `name (source:line)`, or `name (<MEM>)` for a function held only in memory.
    fn function_display(&self) -> (r: String)
        ensures
            r@ == function_text(self.spec_descriptor()),
    {
        let d = self.descriptor();
        let mut r = d.name.clone();
        push_str(&mut r, " (");
        match &d.location {
            Some(l) => {
                let t = l.to_string();
                push_str(&mut r, t.as_str());
            },
            None => {
                push_str(&mut r, "<MEM>");
            },
        }
        push_str(&mut r, ")");
        proof {
            reveal_strlit(" (");
            reveal_strlit(")");
            reveal_strlit("<MEM>");
        }
        r
    }
}

/// A function that lives inside a scope (a namespace, module, class or type).
pub trait ScopedFunction: Function {
    /// The scope parts, in specifications.
    spec fn spec_scope(&self) -> Seq<String>;

    /// The enclosing scope parts, outermost first.
    fn scope(&self) -> (r: &[String])
        ensures
            r@ == self.spec_scope(),
    ;

    /// The scope parts, then the function, joined by `::` (C++, Rust) or `.`.
    fn scoped_display(&self) -> (r: String)
        ensures
            r@ == scoped_text(self.spec_descriptor(), self.spec_scope()),
    {
        let d = self.descriptor();
        let sep = separator_of(d.language);
        let mut r = join(self.scope(), sep);
        push_str(&mut r, sep);
        let f = self.function_display();
        push_str(&mut r, f.as_str());
        r
    }
}

/// A function called on a receiver.
pub trait Method: ScopedFunction {
    /// The receiver, in specifications.
    spec fn spec_receiver(&self) -> Seq<char>;

    /// The receiver's name.
    fn receiver(&self) -> (r: &str)
        ensures
            r@ == self.spec_receiver(),
    ;

    /// The scope parts, the receiver, then the function, joined by `::` (C++, Rust) or `.`.
    fn method_display(&self) -> (r: String)
        ensures
            r@ == method_text(self.spec_descriptor(), self.spec_scope(), self.spec_receiver()),
    {
        let d = self.descriptor();
        let sep = separator_of(d.language);
        let mut r = join(self.scope(), sep);
        push_str(&mut r, sep);
        push_str(&mut r, self.receiver());
        push_str(&mut r, sep);
        let f = self.function_display();
        push_str(&mut r, f.as_str());
        r
    }
}

/// A function read from disassembled machine code.
pub struct AssemblyFunction;

/// A function produced by a decompiler.
pub struct DecompiledFunction;

/// A free function in C source code.
#[derive(Debug, Clone)]
pub struct CFunction {
    descriptor: Descriptor,
}

impl CFunction {
    /// A function with the given descriptor.
    pub fn new(descriptor: Descriptor) -> (r: Self)
        ensures
            r.spec_descriptor() == descriptor,
    {
        CFunction { descriptor }
    }

    /// `name (source:line)`.
    pub fn to_string(&self) -> (r: String)
        ensures
            r@ == function_text(self.spec_descriptor()),
    {
        self.function_display()
    }
}

impl Function for CFunction {
    closed spec fn spec_descriptor(&self) -> Descriptor {
        self.descriptor
    }

    fn descriptor(&self) -> (d: &Descriptor) {
        &self.descriptor
    }
}
/// A free function in C++ source code.
#[derive(Debug, Clone)]
pub struct CppFunction {
    descriptor: Descriptor,
}

impl CppFunction {
    /// A function with the given descriptor.
    pub fn new(descriptor: Descriptor) -> (r: Self)
        ensures
            r.spec_descriptor() == descriptor,
    {
        CppFunction { descriptor }
    }

    /// `name (source:line)`.
    pub fn to_string(&self) -> (r: String)
        ensures
            r@ == function_text(self.spec_descriptor()),
    {
        self.function_display()
    }
}

impl Function for CppFunction {
    closed spec fn spec_descriptor(&self) -> Descriptor {
        self.descriptor
    }

    fn descriptor(&self) -> (d: &Descriptor) {
        &self.descriptor
    }
}
/// A free function in Python source code.
#[derive(Debug, Clone)]
pub struct PythonFunction {
    descriptor: Descriptor,
}

impl PythonFunction {
    /// A function with the given descriptor.
    pub fn new(descriptor: Descriptor) -> (r: Self)
        ensures
            r.spec_descriptor() == descriptor,
    {
        PythonFunction { descriptor }
    }

    /// `name (source:line)`.
    pub fn to_string(&self) -> (r: String)
        ensures
            r@ == function_text(self.spec_descriptor()),
    {
        self.function_display()
    }
}

impl Function for PythonFunction {
    closed spec fn spec_descriptor(&self) -> Descriptor {
        self.descriptor
    }

    fn descriptor(&self) -> (d: &Descriptor) {
        &self.descriptor
    }
}
/// A free function in JavaScript source code.
#[derive(Debug, Clone)]
pub struct JavaScriptFunction {
    descriptor: Descriptor,
}

impl JavaScriptFunction {
    /// A function with the given descriptor.
    pub fn new(descriptor: Descriptor) -> (r: Self)
        ensures
            r.spec_descriptor() == descriptor,
    {
        JavaScriptFunction { descriptor }
    }

    /// `name (source:line)`.
    pub fn to_string(&self) -> (r: String)
        ensures
            r@ == function_text(self.spec_descriptor()),
    {
        self.function_display()
    }
}

impl Function for JavaScriptFunction {
    closed spec fn spec_descriptor(&self) -> Descriptor {
        self.descriptor
    }

    fn descriptor(&self) -> (d: &Descriptor) {
        &self.descriptor
    }
}
/// A free function in TypeScript source code.
#[derive(Debug, Clone)]
pub struct TypeScriptFunction {
    descriptor: Descriptor,
}

impl TypeScriptFunction {
    /// A function with the given descriptor.
    pub fn new(descriptor: Descriptor) -> (r: Self)
        ensures
            r.spec_descriptor() == descriptor,
    {
        TypeScriptFunction { descriptor }
    }

    /// `name (source:line)`.
    pub fn to_string(&self) -> (r: String)
        ensures
            r@ == function_text(self.spec_descriptor()),
    {
        self.function_display()
    }
}

impl Function for TypeScriptFunction {
    closed spec fn spec_descriptor(&self) -> Descriptor {
        self.descriptor
    }

    fn descriptor(&self) -> (d: &Descriptor) {
        &self.descriptor
    }
}
/// A free function in Go source code.
#[derive(Debug, Clone)]
pub struct GoFunction {
    descriptor: Descriptor,
}

impl GoFunction {
    /// A function with the given descriptor.
    pub fn new(descriptor: Descriptor) -> (r: Self)
        ensures
            r.spec_descriptor() == descriptor,
    {
        GoFunction { descriptor }
    }

    /// `name (source:line)`.
    pub fn to_string(&self) -> (r: String)
        ensures
            r@ == function_text(self.spec_descriptor()),
    {
        self.function_display()
    }
}

impl Function for GoFunction {
    closed spec fn spec_descriptor(&self) -> Descriptor {
        self.descriptor
    }

    fn descriptor(&self) -> (d: &Descriptor) {
        &self.descriptor
    }
}
/// A free function in Rust source code.
#[derive(Debug, Clone)]
pub struct RustFunction {
    descriptor: Descriptor,
}

impl RustFunction {
    /// A function with the given descriptor.
    pub fn new(descriptor: Descriptor) -> (r: Self)
        ensures
            r.spec_descriptor() == descriptor,
    {
        RustFunction { descriptor }
    }

    /// `name (source:line)`.
    pub fn to_string(&self) -> (r: String)
        ensures
            r@ == function_text(self.spec_descriptor()),
    {
        self.function_display()
    }
}

impl Function for RustFunction {
    closed spec fn spec_descriptor(&self) -> Descriptor {
        self.descriptor
    }

    fn descriptor(&self) -> (d: &Descriptor) {
        &self.descriptor
    }
}
/// A method in C++ source code: a function called on a receiver.
#[derive(Debug, Clone)]
pub struct CppMethod {
    descriptor: Descriptor,
    scope: Vec<String>,
    receiver: String,
}

impl CppMethod {
    /// A method with the given descriptor, enclosing scope parts and receiver.
    pub fn new(descriptor: Descriptor, scope: Vec<String>, receiver: String) -> (r: Self)
        ensures
            r.spec_descriptor() == descriptor,
            r.spec_scope() == scope@,
            r.spec_receiver() == receiver@,
    {
        CppMethod { descriptor, scope, receiver }
    }

    /// `scope{sep}receiver{sep}name (source:line)`.
    pub fn to_string(&self) -> (r: String)
        ensures
            r@ == method_text(self.spec_descriptor(), self.spec_scope(), self.spec_receiver()),
    {
        self.method_display()
    }
}

impl Function for CppMethod {
    closed spec fn spec_descriptor(&self) -> Descriptor {
        self.descriptor
    }

    fn descriptor(&self) -> (d: &Descriptor) {
        &self.descriptor
    }
}

impl ScopedFunction for CppMethod {
    closed spec fn spec_scope(&self) -> Seq<String> {
        self.scope@
    }

    fn scope(&self) -> (r: &[String]) {
        self.scope.as_slice()
    }
}

impl Method for CppMethod {
    closed spec fn spec_receiver(&self) -> Seq<char> {
        self.receiver@
    }

    fn receiver(&self) -> (r: &str) {
        self.receiver.as_str()
    }
}

/// A method in Python source code: a function called on a receiver.
#[derive(Debug, Clone)]
pub struct PythonMethod {
    descriptor: Descriptor,
    scope: Vec<String>,
    receiver: String,
}

impl PythonMethod {
    /// A method with the given descriptor, enclosing scope parts and receiver.
    pub fn new(descriptor: Descriptor, scope: Vec<String>, receiver: String) -> (r: Self)
        ensures
            r.spec_descriptor() == descriptor,
            r.spec_scope() == scope@,
            r.spec_receiver() == receiver@,
    {
        PythonMethod { descriptor, scope, receiver }
    }

    /// `scope{sep}receiver{sep}name (source:line)`.
    pub fn to_string(&self) -> (r: String)
        ensures
            r@ == method_text(self.spec_descriptor(), self.spec_scope(), self.spec_receiver()),
    {
        self.method_display()
    }
}

impl Function for PythonMethod {
    closed spec fn spec_descriptor(&self) -> Descriptor {
        self.descriptor
    }

    fn descriptor(&self) -> (d: &Descriptor) {
        &self.descriptor
    }
}

impl ScopedFunction for PythonMethod {
    closed spec fn spec_scope(&self) -> Seq<String> {
        self.scope@
    }

    fn scope(&self) -> (r: &[String]) {
        self.scope.as_slice()
    }
}

impl Method for PythonMethod {
    closed spec fn spec_receiver(&self) -> Seq<char> {
        self.receiver@
    }

    fn receiver(&self) -> (r: &str) {
        self.receiver.as_str()
    }
}

/// A method in JavaScript source code: a function called on a receiver.
#[derive(Debug, Clone)]
pub struct JavaScriptMethod {
    descriptor: Descriptor,
    scope: Vec<String>,
    receiver: String,
}

impl JavaScriptMethod {
    /// A method with the given descriptor, enclosing scope parts and receiver.
    pub fn new(descriptor: Descriptor, scope: Vec<String>, receiver: String) -> (r: Self)
        ensures
            r.spec_descriptor() == descriptor,
            r.spec_scope() == scope@,
            r.spec_receiver() == receiver@,
    {
        JavaScriptMethod { descriptor, scope, receiver }
    }

    /// `scope{sep}receiver{sep}name (source:line)`.
    pub fn to_string(&self) -> (r: String)
        ensures
            r@ == method_text(self.spec_descriptor(), self.spec_scope(), self.spec_receiver()),
    {
        self.method_display()
    }
}

impl Function for JavaScriptMethod {
    closed spec fn spec_descriptor(&self) -> Descriptor {
        self.descriptor
    }

    fn descriptor(&self) -> (d: &Descriptor) {
        &self.descriptor
    }
}

impl ScopedFunction for JavaScriptMethod {
    closed spec fn spec_scope(&self) -> Seq<String> {
        self.scope@
    }

    fn scope(&self) -> (r: &[String]) {
        self.scope.as_slice()
    }
}

impl Method for JavaScriptMethod {
    closed spec fn spec_receiver(&self) -> Seq<char> {
        self.receiver@
    }

    fn receiver(&self) -> (r: &str) {
        self.receiver.as_str()
    }
}

/// A method in TypeScript source code: a function called on a receiver.
#[derive(Debug, Clone)]
pub struct TypeScriptMethod {
    descriptor: Descriptor,
    scope: Vec<String>,
    receiver: String,
}

impl TypeScriptMethod {
    /// A method with the given descriptor, enclosing scope parts and receiver.
    pub fn new(descriptor: Descriptor, scope: Vec<String>, receiver: String) -> (r: Self)
        ensures
            r.spec_descriptor() == descriptor,
            r.spec_scope() == scope@,
            r.spec_receiver() == receiver@,
    {
        TypeScriptMethod { descriptor, scope, receiver }
    }

    /// `scope{sep}receiver{sep}name (source:line)`.
    pub fn to_string(&self) -> (r: String)
        ensures
            r@ == method_text(self.spec_descriptor(), self.spec_scope(), self.spec_receiver()),
    {
        self.method_display()
    }
}

impl Function for TypeScriptMethod {
    closed spec fn spec_descriptor(&self) -> Descriptor {
        self.descriptor
    }

    fn descriptor(&self) -> (d: &Descriptor) {
        &self.descriptor
    }
}

impl ScopedFunction for TypeScriptMethod {
    closed spec fn spec_scope(&self) -> Seq<String> {
        self.scope@
    }

    fn scope(&self) -> (r: &[String]) {
        self.scope.as_slice()
    }
}

impl Method for TypeScriptMethod {
    closed spec fn spec_receiver(&self) -> Seq<char> {
        self.receiver@
    }

    fn receiver(&self) -> (r: &str) {
        self.receiver.as_str()
    }
}

/// A method in Go source code: a function called on a receiver.
#[derive(Debug, Clone)]
pub struct GoMethod {
    descriptor: Descriptor,
    scope: Vec<String>,
    receiver: String,
}

impl GoMethod {
    /// A method with the given descriptor, enclosing scope parts and receiver.
    pub fn new(descriptor: Descriptor, scope: Vec<String>, receiver: String) -> (r: Self)
        ensures
            r.spec_descriptor() == descriptor,
            r.spec_scope() == scope@,
            r.spec_receiver() == receiver@,
    {
        GoMethod { descriptor, scope, receiver }
    }

    /// `scope{sep}receiver{sep}name (source:line)`.
    pub fn to_string(&self) -> (r: String)
        ensures
            r@ == method_text(self.spec_descriptor(), self.spec_scope(), self.spec_receiver()),
    {
        self.method_display()
    }
}

impl Function for GoMethod {
    closed spec fn spec_descriptor(&self) -> Descriptor {
        self.descriptor
    }

    fn descriptor(&self) -> (d: &Descriptor) {
        &self.descriptor
    }
}

impl ScopedFunction for GoMethod {
    closed spec fn spec_scope(&self) -> Seq<String> {
        self.scope@
    }

    fn scope(&self) -> (r: &[String]) {
        self.scope.as_slice()
    }
}

impl Method for GoMethod {
    closed spec fn spec_receiver(&self) -> Seq<char> {
        self.receiver@
    }

    fn receiver(&self) -> (r: &str) {
        self.receiver.as_str()
    }
}

/// A method in Rust source code: a function called on a receiver.
#[derive(Debug, Clone)]
pub struct RustMethod {
    descriptor: Descriptor,
    scope: Vec<String>,
    receiver: String,
}

impl RustMethod {
    /// A method with the given descriptor, enclosing scope parts and receiver.
    pub fn new(descriptor: Descriptor, scope: Vec<String>, receiver: String) -> (r: Self)
        ensures
            r.spec_descriptor() == descriptor,
            r.spec_scope() == scope@,
            r.spec_receiver() == receiver@,
    {
        RustMethod { descriptor, scope, receiver }
    }

    /// `scope{sep}receiver{sep}name (source:line)`.
    pub fn to_string(&self) -> (r: String)
        ensures
            r@ == method_text(self.spec_descriptor(), self.spec_scope(), self.spec_receiver()),
    {
        self.method_display()
    }
}

impl Function for RustMethod {
    closed spec fn spec_descriptor(&self) -> Descriptor {
        self.descriptor
    }

    fn descriptor(&self) -> (d: &Descriptor) {
        &self.descriptor
    }
}

impl ScopedFunction for RustMethod {
    closed spec fn spec_scope(&self) -> Seq<String> {
        self.scope@
    }

    fn scope(&self) -> (r: &[String]) {
        self.scope.as_slice()
    }
}

impl Method for RustMethod {
    closed spec fn spec_receiver(&self) -> Seq<char> {
        self.receiver@
    }

    fn receiver(&self) -> (r: &str) {
        self.receiver.as_str()
    }
}

/// A method in Java source code: a function called on a receiver.
#[derive(Debug, Clone)]
pub struct JavaMethod {
    descriptor: Descriptor,
    scope: Vec<String>,
    receiver: String,
}

impl JavaMethod {
    /// A method with the given descriptor, enclosing scope parts and receiver.
    pub fn new(descriptor: Descriptor, scope: Vec<String>, receiver: String) -> (r: Self)
        ensures
            r.spec_descriptor() == descriptor,
            r.spec_scope() == scope@,
            r.spec_receiver() == receiver@,
    {
        JavaMethod { descriptor, scope, receiver }
    }

    /// `scope{sep}receiver{sep}name (source:line)`.
    pub fn to_string(&self) -> (r: String)
        ensures
            r@ == method_text(self.spec_descriptor(), self.spec_scope(), self.spec_receiver()),
    {
        self.method_display()
    }
}

impl Function for JavaMethod {
    closed spec fn spec_descriptor(&self) -> Descriptor {
        self.descriptor
    }

    fn descriptor(&self) -> (d: &Descriptor) {
        &self.descriptor
    }
}

impl ScopedFunction for JavaMethod {
    closed spec fn spec_scope(&self) -> Seq<String> {
        self.scope@
    }

    fn scope(&self) -> (r: &[String]) {
        self.scope.as_slice()
    }
}

impl Method for JavaMethod {
    closed spec fn spec_receiver(&self) -> Seq<char> {
        self.receiver@
    }

    fn receiver(&self) -> (r: &str) {
        self.receiver.as_str()
    }
}

/// A method in C# source code: a function called on a receiver.
#[derive(Debug, Clone)]
pub struct CSharpMethod {
    descriptor: Descriptor,
    scope: Vec<String>,
    receiver: String,
}

impl CSharpMethod {
    /// A method with the given descriptor, enclosing scope parts and receiver.
    pub fn new(descriptor: Descriptor, scope: Vec<String>, receiver: String) -> (r: Self)
        ensures
            r.spec_descriptor() == descriptor,
            r.spec_scope() == scope@,
            r.spec_receiver() == receiver@,
    {
        CSharpMethod { descriptor, scope, receiver }
    }

    /// `scope{sep}receiver{sep}name (source:line)`.
    pub fn to_string(&self) -> (r: String)
        ensures
            r@ == method_text(self.spec_descriptor(), self.spec_scope(), self.spec_receiver()),
    {
        self.method_display()
    }
}

impl Function for CSharpMethod {
    closed spec fn spec_descriptor(&self) -> Descriptor {
        self.descriptor
    }

    fn descriptor(&self) -> (d: &Descriptor) {
        &self.descriptor
    }
}

impl ScopedFunction for CSharpMethod {
    closed spec fn spec_scope(&self) -> Seq<String> {
        self.scope@
    }

    fn scope(&self) -> (r: &[String]) {
        self.scope.as_slice()
    }
}

impl Method for CSharpMethod {
    closed spec fn spec_receiver(&self) -> Seq<char> {
        self.receiver@
    }

    fn receiver(&self) -> (r: &str) {
        self.receiver.as_str()
    }
}

/// An associated function in C++ source code: scoped, with no receiver.
#[derive(Debug, Clone)]
pub struct CppAssociatedFunction {
    descriptor: Descriptor,
    scope: Vec<String>,
}

impl CppAssociatedFunction {
    /// An associated function with the given descriptor and enclosing scope parts.
    pub fn new(descriptor: Descriptor, scope: Vec<String>) -> (r: Self)
        ensures
            r.spec_descriptor() == descriptor,
            r.spec_scope() == scope@,
    {
        CppAssociatedFunction { descriptor, scope }
    }

    /// `scope{sep}name (source:line)`.
    pub fn to_string(&self) -> (r: String)
        ensures
            r@ == scoped_text(self.spec_descriptor(), self.spec_scope()),
    {
        self.scoped_display()
    }
}

impl Function for CppAssociatedFunction {
    closed spec fn spec_descriptor(&self) -> Descriptor {
        self.descriptor
    }

    fn descriptor(&self) -> (d: &Descriptor) {
        &self.descriptor
    }
}

impl ScopedFunction for CppAssociatedFunction {
    closed spec fn spec_scope(&self) -> Seq<String> {
        self.scope@
    }

    fn scope(&self) -> (r: &[String]) {
        self.scope.as_slice()
    }
}

/// An associated function in Python source code: scoped, with no receiver.
#[derive(Debug, Clone)]
pub struct PythonAssociatedFunction {
    descriptor: Descriptor,
    scope: Vec<String>,
}

impl PythonAssociatedFunction {
    /// An associated function with the given descriptor and enclosing scope parts.
    pub fn new(descriptor: Descriptor, scope: Vec<String>) -> (r: Self)
        ensures
            r.spec_descriptor() == descriptor,
            r.spec_scope() == scope@,
    {
        PythonAssociatedFunction { descriptor, scope }
    }

    /// `scope{sep}name (source:line)`.
    pub fn to_string(&self) -> (r: String)
        ensures
            r@ == scoped_text(self.spec_descriptor(), self.spec_scope()),
    {
        self.scoped_display()
    }
}

impl Function for PythonAssociatedFunction {
    closed spec fn spec_descriptor(&self) -> Descriptor {
        self.descriptor
    }

    fn descriptor(&self) -> (d: &Descriptor) {
        &self.descriptor
    }
}

impl ScopedFunction for PythonAssociatedFunction {
    closed spec fn spec_scope(&self) -> Seq<String> {
        self.scope@
    }

    fn scope(&self) -> (r: &[String]) {
        self.scope.as_slice()
    }
}

/// An associated function in JavaScript source code: scoped, with no receiver.
#[derive(Debug, Clone)]
pub struct JavaScriptAssociatedFunction {
    descriptor: Descriptor,
    scope: Vec<String>,
}

impl JavaScriptAssociatedFunction {
    /// An associated function with the given descriptor and enclosing scope parts.
    pub fn new(descriptor: Descriptor, scope: Vec<String>) -> (r: Self)
        ensures
            r.spec_descriptor() == descriptor,
            r.spec_scope() == scope@,
    {
        JavaScriptAssociatedFunction { descriptor, scope }
    }

    /// `scope{sep}name (source:line)`.
    pub fn to_string(&self) -> (r: String)
        ensures
            r@ == scoped_text(self.spec_descriptor(), self.spec_scope()),
    {
        self.scoped_display()
    }
}

impl Function for JavaScriptAssociatedFunction {
    closed spec fn spec_descriptor(&self) -> Descriptor {
        self.descriptor
    }

    fn descriptor(&self) -> (d: &Descriptor) {
        &self.descriptor
    }
}

impl ScopedFunction for JavaScriptAssociatedFunction {
    closed spec fn spec_scope(&self) -> Seq<String> {
        self.scope@
    }

    fn scope(&self) -> (r: &[String]) {
        self.scope.as_slice()
    }
}

/// An associated function in TypeScript source code: scoped, with no receiver.
#[derive(Debug, Clone)]
pub struct TypeScriptAssociatedFunction {
    descriptor: Descriptor,
    scope: Vec<String>,
}

impl TypeScriptAssociatedFunction {
    /// An associated function with the given descriptor and enclosing scope parts.
    pub fn new(descriptor: Descriptor, scope: Vec<String>) -> (r: Self)
        ensures
            r.spec_descriptor() == descriptor,
            r.spec_scope() == scope@,
    {
        TypeScriptAssociatedFunction { descriptor, scope }
    }

    /// `scope{sep}name (source:line)`.
    pub fn to_string(&self) -> (r: String)
        ensures
            r@ == scoped_text(self.spec_descriptor(), self.spec_scope()),
    {
        self.scoped_display()
    }
}

impl Function for TypeScriptAssociatedFunction {
    closed spec fn spec_descriptor(&self) -> Descriptor {
        self.descriptor
    }

    fn descriptor(&self) -> (d: &Descriptor) {
        &self.descriptor
    }
}

impl ScopedFunction for TypeScriptAssociatedFunction {
    closed spec fn spec_scope(&self) -> Seq<String> {
        self.scope@
    }

    fn scope(&self) -> (r: &[String]) {
        self.scope.as_slice()
    }
}

/// An associated function in Rust source code: scoped, with no receiver.
#[derive(Debug, Clone)]
pub struct RustAssociatedFunction {
    descriptor: Descriptor,
    scope: Vec<String>,
}

impl RustAssociatedFunction {
    /// An associated function with the given descriptor and enclosing scope parts.
    pub fn new(descriptor: Descriptor, scope: Vec<String>) -> (r: Self)
        ensures
            r.spec_descriptor() == descriptor,
            r.spec_scope() == scope@,
    {
        RustAssociatedFunction { descriptor, scope }
    }

    /// `scope{sep}name (source:line)`.
    pub fn to_string(&self) -> (r: String)
        ensures
            r@ == scoped_text(self.spec_descriptor(), self.spec_scope()),
    {
        self.scoped_display()
    }
}

impl Function for RustAssociatedFunction {
    closed spec fn spec_descriptor(&self) -> Descriptor {
        self.descriptor
    }

    fn descriptor(&self) -> (d: &Descriptor) {
        &self.descriptor
    }
}

impl ScopedFunction for RustAssociatedFunction {
    closed spec fn spec_scope(&self) -> Seq<String> {
        self.scope@
    }

    fn scope(&self) -> (r: &[String]) {
        self.scope.as_slice()
    }
}

/// An associated function in Java source code: scoped, with no receiver.
#[derive(Debug, Clone)]
pub struct JavaAssociatedFunction {
    descriptor: Descriptor,
    scope: Vec<String>,
}

impl JavaAssociatedFunction {
    /// An associated function with the given descriptor and enclosing scope parts.
    pub fn new(descriptor: Descriptor, scope: Vec<String>) -> (r: Self)
        ensures
            r.spec_descriptor() == descriptor,
            r.spec_scope() == scope@,
    {
        JavaAssociatedFunction { descriptor, scope }
    }

    /// `scope{sep}name (source:line)`.
    pub fn to_string(&self) -> (r: String)
        ensures
            r@ == scoped_text(self.spec_descriptor(), self.spec_scope()),
    {
        self.scoped_display()
    }
}

impl Function for JavaAssociatedFunction {
    closed spec fn spec_descriptor(&self) -> Descriptor {
        self.descriptor
    }

    fn descriptor(&self) -> (d: &Descriptor) {
        &self.descriptor
    }
}

impl ScopedFunction for JavaAssociatedFunction {
    closed spec fn spec_scope(&self) -> Seq<String> {
        self.scope@
    }

    fn scope(&self) -> (r: &[String]) {
        self.scope.as_slice()
    }
}

/// An associated function in C# source code: scoped, with no receiver.
#[derive(Debug, Clone)]
pub struct CSharpAssociatedFunction {
    descriptor: Descriptor,
    scope: Vec<String>,
}

impl CSharpAssociatedFunction {
    /// An associated function with the given descriptor and enclosing scope parts.
    pub fn new(descriptor: Descriptor, scope: Vec<String>) -> (r: Self)
        ensures
            r.spec_descriptor() == descriptor,
            r.spec_scope() == scope@,
    {
        CSharpAssociatedFunction { descriptor, scope }
    }

    /// `scope{sep}name (source:line)`.
    pub fn to_string(&self) -> (r: String)
        ensures
            r@ == scoped_text(self.spec_descriptor(), self.spec_scope()),
    {
        self.scoped_display()
    }
}

impl Function for CSharpAssociatedFunction {
    closed spec fn spec_descriptor(&self) -> Descriptor {
        self.descriptor
    }

    fn descriptor(&self) -> (d: &Descriptor) {
        &self.descriptor
    }
}

impl ScopedFunction for CSharpAssociatedFunction {
    closed spec fn spec_scope(&self) -> Seq<String> {
        self.scope@
    }

    fn scope(&self) -> (r: &[String]) {
        self.scope.as_slice()
    }
}

/// A function found in source code, of any supported language and kind.
#[derive(Debug, Clone)]
pub enum SourceFunction {
    CFunction(CFunction),
    CppFunction(CppFunction),
    CppMethod(CppMethod),
    CppAssociatedFunction(CppAssociatedFunction),
    PythonFunction(PythonFunction),
    PythonMethod(PythonMethod),
    PythonAssociatedFunction(PythonAssociatedFunction),
    JavaScriptFunction(JavaScriptFunction),
    JavaScriptMethod(JavaScriptMethod),
    JavaScriptAssociatedFunction(JavaScriptAssociatedFunction),
    TypeScriptFunction(TypeScriptFunction),
    TypeScriptMethod(TypeScriptMethod),
    TypeScriptAssociatedFunction(TypeScriptAssociatedFunction),
    GoFunction(GoFunction),
    GoMethod(GoMethod),
    RustFunction(RustFunction),
    RustMethod(RustMethod),
    RustAssociatedFunction(RustAssociatedFunction),
    JavaMethod(JavaMethod),
    JavaAssociatedFunction(JavaAssociatedFunction),
    CSharpMethod(CSharpMethod),
    CSharpAssociatedFunction(CSharpAssociatedFunction),
}

impl Function for SourceFunction {
    open spec fn spec_descriptor(&self) -> Descriptor {
        match self {
            SourceFunction::CFunction(func) => func.spec_descriptor(),
            SourceFunction::CppFunction(func) => func.spec_descriptor(),
            SourceFunction::CppMethod(func) => func.spec_descriptor(),
            SourceFunction::CppAssociatedFunction(func) => func.spec_descriptor(),
            SourceFunction::PythonFunction(func) => func.spec_descriptor(),
            SourceFunction::PythonMethod(func) => func.spec_descriptor(),
            SourceFunction::PythonAssociatedFunction(func) => func.spec_descriptor(),
            SourceFunction::JavaScriptFunction(func) => func.spec_descriptor(),
            SourceFunction::JavaScriptMethod(func) => func.spec_descriptor(),
            SourceFunction::JavaScriptAssociatedFunction(func) => func.spec_descriptor(),
            SourceFunction::TypeScriptFunction(func) => func.spec_descriptor(),
            SourceFunction::TypeScriptMethod(func) => func.spec_descriptor(),
            SourceFunction::TypeScriptAssociatedFunction(func) => func.spec_descriptor(),
            SourceFunction::GoFunction(func) => func.spec_descriptor(),
            SourceFunction::GoMethod(func) => func.spec_descriptor(),
            SourceFunction::RustFunction(func) => func.spec_descriptor(),
            SourceFunction::RustMethod(func) => func.spec_descriptor(),
            SourceFunction::RustAssociatedFunction(func) => func.spec_descriptor(),
            SourceFunction::JavaMethod(func) => func.spec_descriptor(),
            SourceFunction::JavaAssociatedFunction(func) => func.spec_descriptor(),
            SourceFunction::CSharpMethod(func) => func.spec_descriptor(),
            SourceFunction::CSharpAssociatedFunction(func) => func.spec_descriptor(),
        }
    }

    fn descriptor(&self) -> (d: &Descriptor) {
        match self {
            SourceFunction::CFunction(func) => func.descriptor(),
            SourceFunction::CppFunction(func) => func.descriptor(),
            SourceFunction::CppMethod(func) => func.descriptor(),
            SourceFunction::CppAssociatedFunction(func) => func.descriptor(),
            SourceFunction::PythonFunction(func) => func.descriptor(),
            SourceFunction::PythonMethod(func) => func.descriptor(),
            SourceFunction::PythonAssociatedFunction(func) => func.descriptor(),
            SourceFunction::JavaScriptFunction(func) => func.descriptor(),
            SourceFunction::JavaScriptMethod(func) => func.descriptor(),
            SourceFunction::JavaScriptAssociatedFunction(func) => func.descriptor(),
            SourceFunction::TypeScriptFunction(func) => func.descriptor(),
            SourceFunction::TypeScriptMethod(func) => func.descriptor(),
            SourceFunction::TypeScriptAssociatedFunction(func) => func.descriptor(),
            SourceFunction::GoFunction(func) => func.descriptor(),
            SourceFunction::GoMethod(func) => func.descriptor(),
            SourceFunction::RustFunction(func) => func.descriptor(),
            SourceFunction::RustMethod(func) => func.descriptor(),
            SourceFunction::RustAssociatedFunction(func) => func.descriptor(),
            SourceFunction::JavaMethod(func) => func.descriptor(),
            SourceFunction::JavaAssociatedFunction(func) => func.descriptor(),
            SourceFunction::CSharpMethod(func) => func.descriptor(),
            SourceFunction::CSharpAssociatedFunction(func) => func.descriptor(),
        }
    }
}

/// The enclosing scope parts of a source function; `None` for a free function.
pub open spec fn spec_source_scope(f: SourceFunction) -> Option<Seq<String>> {
    match f {
        SourceFunction::CFunction(func) => None,
        SourceFunction::CppFunction(func) => None,
        SourceFunction::PythonFunction(func) => None,
        SourceFunction::JavaScriptFunction(func) => None,
        SourceFunction::TypeScriptFunction(func) => None,
        SourceFunction::GoFunction(func) => None,
        SourceFunction::RustFunction(func) => None,
        SourceFunction::CppMethod(func) => Some(func.spec_scope()),
        SourceFunction::CppAssociatedFunction(func) => Some(func.spec_scope()),
        SourceFunction::PythonMethod(func) => Some(func.spec_scope()),
        SourceFunction::PythonAssociatedFunction(func) => Some(func.spec_scope()),
        SourceFunction::JavaScriptMethod(func) => Some(func.spec_scope()),
        SourceFunction::JavaScriptAssociatedFunction(func) => Some(func.spec_scope()),
        SourceFunction::TypeScriptMethod(func) => Some(func.spec_scope()),
        SourceFunction::TypeScriptAssociatedFunction(func) => Some(func.spec_scope()),
        SourceFunction::GoMethod(func) => Some(func.spec_scope()),
        SourceFunction::RustMethod(func) => Some(func.spec_scope()),
        SourceFunction::RustAssociatedFunction(func) => Some(func.spec_scope()),
        SourceFunction::JavaMethod(func) => Some(func.spec_scope()),
        SourceFunction::JavaAssociatedFunction(func) => Some(func.spec_scope()),
        SourceFunction::CSharpMethod(func) => Some(func.spec_scope()),
        SourceFunction::CSharpAssociatedFunction(func) => Some(func.spec_scope()),
    }
}

/// The receiver of a source function; `None` unless it is a method.
pub open spec fn spec_source_receiver(f: SourceFunction) -> Option<Seq<char>> {
    match f {
        SourceFunction::CppMethod(func) => Some(func.spec_receiver()),
        SourceFunction::PythonMethod(func) => Some(func.spec_receiver()),
        SourceFunction::JavaScriptMethod(func) => Some(func.spec_receiver()),
        SourceFunction::TypeScriptMethod(func) => Some(func.spec_receiver()),
        SourceFunction::GoMethod(func) => Some(func.spec_receiver()),
        SourceFunction::RustMethod(func) => Some(func.spec_receiver()),
        SourceFunction::JavaMethod(func) => Some(func.spec_receiver()),
        SourceFunction::CSharpMethod(func) => Some(func.spec_receiver()),
        _ => None,
    }
}

/// The text a source function is shown as: a free function as `name (location)`, an
/// associated function behind its scope, and a method behind its scope and receiver.
pub open spec fn source_text(f: SourceFunction) -> Seq<char> {
    match f {
        SourceFunction::CFunction(func) => function_text(func.spec_descriptor()),
        SourceFunction::CppFunction(func) => function_text(func.spec_descriptor()),
        SourceFunction::CppMethod(func) => method_text(func.spec_descriptor(), func.spec_scope(), func.spec_receiver()),
        SourceFunction::CppAssociatedFunction(func) => scoped_text(func.spec_descriptor(), func.spec_scope()),
        SourceFunction::PythonFunction(func) => function_text(func.spec_descriptor()),
        SourceFunction::PythonMethod(func) => method_text(func.spec_descriptor(), func.spec_scope(), func.spec_receiver()),
        SourceFunction::PythonAssociatedFunction(func) => scoped_text(func.spec_descriptor(), func.spec_scope()),
        SourceFunction::JavaScriptFunction(func) => function_text(func.spec_descriptor()),
        SourceFunction::JavaScriptMethod(func) => method_text(func.spec_descriptor(), func.spec_scope(), func.spec_receiver()),
        SourceFunction::JavaScriptAssociatedFunction(func) => scoped_text(func.spec_descriptor(), func.spec_scope()),
        SourceFunction::TypeScriptFunction(func) => function_text(func.spec_descriptor()),
        SourceFunction::TypeScriptMethod(func) => method_text(func.spec_descriptor(), func.spec_scope(), func.spec_receiver()),
        SourceFunction::TypeScriptAssociatedFunction(func) => scoped_text(func.spec_descriptor(), func.spec_scope()),
        SourceFunction::GoFunction(func) => function_text(func.spec_descriptor()),
        SourceFunction::GoMethod(func) => method_text(func.spec_descriptor(), func.spec_scope(), func.spec_receiver()),
        SourceFunction::RustFunction(func) => function_text(func.spec_descriptor()),
        SourceFunction::RustMethod(func) => method_text(func.spec_descriptor(), func.spec_scope(), func.spec_receiver()),
        SourceFunction::RustAssociatedFunction(func) => scoped_text(func.spec_descriptor(), func.spec_scope()),
        SourceFunction::JavaMethod(func) => method_text(func.spec_descriptor(), func.spec_scope(), func.spec_receiver()),
        SourceFunction::JavaAssociatedFunction(func) => scoped_text(func.spec_descriptor(), func.spec_scope()),
        SourceFunction::CSharpMethod(func) => method_text(func.spec_descriptor(), func.spec_scope(), func.spec_receiver()),
        SourceFunction::CSharpAssociatedFunction(func) => scoped_text(func.spec_descriptor(), func.spec_scope()),
    }
}

impl SourceFunction {
    /// The function, if it is a `CFunction`.
    pub fn as_c_function(&self) -> (r: Option<&CFunction>)
        ensures
            r is Some <==> self is CFunction,
            r matches Some(f) ==> *self == SourceFunction::CFunction(*f),
    {
        if let SourceFunction::CFunction(func) = self {
            Some(func)
        } else {
            None
        }
    }

    /// The function, if it is a `CppFunction`.
    pub fn as_cpp_function(&self) -> (r: Option<&CppFunction>)
        ensures
            r is Some <==> self is CppFunction,
            r matches Some(f) ==> *self == SourceFunction::CppFunction(*f),
    {
        if let SourceFunction::CppFunction(func) = self {
            Some(func)
        } else {
            None
        }
    }

    /// The function, if it is a `CppMethod`.
    pub fn as_cpp_method(&self) -> (r: Option<&CppMethod>)
        ensures
            r is Some <==> self is CppMethod,
            r matches Some(f) ==> *self == SourceFunction::CppMethod(*f),
    {
        if let SourceFunction::CppMethod(func) = self {
            Some(func)
        } else {
            None
        }
    }

    /// The function, if it is a `CppAssociatedFunction`.
    pub fn as_cpp_associated_function(&self) -> (r: Option<&CppAssociatedFunction>)
        ensures
            r is Some <==> self is CppAssociatedFunction,
            r matches Some(f) ==> *self == SourceFunction::CppAssociatedFunction(*f),
    {
        if let SourceFunction::CppAssociatedFunction(func) = self {
            Some(func)
        } else {
            None
        }
    }

    /// The function, if it is a `PythonFunction`.
    pub fn as_python_function(&self) -> (r: Option<&PythonFunction>)
        ensures
            r is Some <==> self is PythonFunction,
            r matches Some(f) ==> *self == SourceFunction::PythonFunction(*f),
    {
        if let SourceFunction::PythonFunction(func) = self {
            Some(func)
        } else {
            None
        }
    }

    /// The function, if it is a `PythonMethod`.
    pub fn as_python_method(&self) -> (r: Option<&PythonMethod>)
        ensures
            r is Some <==> self is PythonMethod,
            r matches Some(f) ==> *self == SourceFunction::PythonMethod(*f),
    {
        if let SourceFunction::PythonMethod(func) = self {
            Some(func)
        } else {
            None
        }
    }

    /// The function, if it is a `PythonAssociatedFunction`.
    pub fn as_python_associated_function(&self) -> (r: Option<&PythonAssociatedFunction>)
        ensures
            r is Some <==> self is PythonAssociatedFunction,
            r matches Some(f) ==> *self == SourceFunction::PythonAssociatedFunction(*f),
    {
        if let SourceFunction::PythonAssociatedFunction(func) = self {
            Some(func)
        } else {
            None
        }
    }

    /// The function, if it is a `JavaScriptFunction`.
    pub fn as_java_script_function(&self) -> (r: Option<&JavaScriptFunction>)
        ensures
            r is Some <==> self is JavaScriptFunction,
            r matches Some(f) ==> *self == SourceFunction::JavaScriptFunction(*f),
    {
        if let SourceFunction::JavaScriptFunction(func) = self {
            Some(func)
        } else {
            None
        }
    }

    /// The function, if it is a `JavaScriptMethod`.
    pub fn as_java_script_method(&self) -> (r: Option<&JavaScriptMethod>)
        ensures
            r is Some <==> self is JavaScriptMethod,
            r matches Some(f) ==> *self == SourceFunction::JavaScriptMethod(*f),
    {
        if let SourceFunction::JavaScriptMethod(func) = self {
            Some(func)
        } else {
            None
        }
    }

    /// The function, if it is a `JavaScriptAssociatedFunction`.
    pub fn as_java_script_associated_function(&self) -> (r: Option<&JavaScriptAssociatedFunction>)
        ensures
            r is Some <==> self is JavaScriptAssociatedFunction,
            r matches Some(f) ==> *self == SourceFunction::JavaScriptAssociatedFunction(*f),
    {
        if let SourceFunction::JavaScriptAssociatedFunction(func) = self {
            Some(func)
        } else {
            None
        }
    }

    /// The function, if it is a `TypeScriptFunction`.
    pub fn as_type_script_function(&self) -> (r: Option<&TypeScriptFunction>)
        ensures
            r is Some <==> self is TypeScriptFunction,
            r matches Some(f) ==> *self == SourceFunction::TypeScriptFunction(*f),
    {
        if let SourceFunction::TypeScriptFunction(func) = self {
            Some(func)
        } else {
            None
        }
    }

    /// The function, if it is a `TypeScriptMethod`.
    pub fn as_type_script_method(&self) -> (r: Option<&TypeScriptMethod>)
        ensures
            r is Some <==> self is TypeScriptMethod,
            r matches Some(f) ==> *self == SourceFunction::TypeScriptMethod(*f),
    {
        if let SourceFunction::TypeScriptMethod(func) = self {
            Some(func)
        } else {
            None
        }
    }

    /// The function, if it is a `TypeScriptAssociatedFunction`.
    pub fn as_type_script_associated_function(&self) -> (r: Option<&TypeScriptAssociatedFunction>)
        ensures
            r is Some <==> self is TypeScriptAssociatedFunction,
            r matches Some(f) ==> *self == SourceFunction::TypeScriptAssociatedFunction(*f),
    {
        if let SourceFunction::TypeScriptAssociatedFunction(func) = self {
            Some(func)
        } else {
            None
        }
    }

    /// The function, if it is a `GoFunction`.
    pub fn as_go_function(&self) -> (r: Option<&GoFunction>)
        ensures
            r is Some <==> self is GoFunction,
            r matches Some(f) ==> *self == SourceFunction::GoFunction(*f),
    {
        if let SourceFunction::GoFunction(func) = self {
            Some(func)
        } else {
            None
        }
    }

    /// The function, if it is a `GoMethod`.
    pub fn as_go_method(&self) -> (r: Option<&GoMethod>)
        ensures
            r is Some <==> self is GoMethod,
            r matches Some(f) ==> *self == SourceFunction::GoMethod(*f),
    {
        if let SourceFunction::GoMethod(func) = self {
            Some(func)
        } else {
            None
        }
    }

    /// The function, if it is a `RustFunction`.
    pub fn as_rust_function(&self) -> (r: Option<&RustFunction>)
        ensures
            r is Some <==> self is RustFunction,
            r matches Some(f) ==> *self == SourceFunction::RustFunction(*f),
    {
        if let SourceFunction::RustFunction(func) = self {
            Some(func)
        } else {
            None
        }
    }

    /// The function, if it is a `RustMethod`.
    pub fn as_rust_method(&self) -> (r: Option<&RustMethod>)
        ensures
            r is Some <==> self is RustMethod,
            r matches Some(f) ==> *self == SourceFunction::RustMethod(*f),
    {
        if let SourceFunction::RustMethod(func) = self {
            Some(func)
        } else {
            None
        }
    }

    /// The function, if it is a `RustAssociatedFunction`.
    pub fn as_rust_associated_function(&self) -> (r: Option<&RustAssociatedFunction>)
        ensures
            r is Some <==> self is RustAssociatedFunction,
            r matches Some(f) ==> *self == SourceFunction::RustAssociatedFunction(*f),
    {
        if let SourceFunction::RustAssociatedFunction(func) = self {
            Some(func)
        } else {
            None
        }
    }

    /// The function, if it is a `JavaMethod`.
    pub fn as_java_method(&self) -> (r: Option<&JavaMethod>)
        ensures
            r is Some <==> self is JavaMethod,
            r matches Some(f) ==> *self == SourceFunction::JavaMethod(*f),
    {
        if let SourceFunction::JavaMethod(func) = self {
            Some(func)
        } else {
            None
        }
    }

    /// The function, if it is a `JavaAssociatedFunction`.
    pub fn as_java_associated_function(&self) -> (r: Option<&JavaAssociatedFunction>)
        ensures
            r is Some <==> self is JavaAssociatedFunction,
            r matches Some(f) ==> *self == SourceFunction::JavaAssociatedFunction(*f),
    {
        if let SourceFunction::JavaAssociatedFunction(func) = self {
            Some(func)
        } else {
            None
        }
    }

    /// The function, if it is a `CSharpMethod`.
    pub fn as_csharp_method(&self) -> (r: Option<&CSharpMethod>)
        ensures
            r is Some <==> self is CSharpMethod,
            r matches Some(f) ==> *self == SourceFunction::CSharpMethod(*f),
    {
        if let SourceFunction::CSharpMethod(func) = self {
            Some(func)
        } else {
            None
        }
    }

    /// The function, if it is a `CSharpAssociatedFunction`.
    pub fn as_csharp_associated_function(&self) -> (r: Option<&CSharpAssociatedFunction>)
        ensures
            r is Some <==> self is CSharpAssociatedFunction,
            r matches Some(f) ==> *self == SourceFunction::CSharpAssociatedFunction(*f),
    {
        if let SourceFunction::CSharpAssociatedFunction(func) = self {
            Some(func)
        } else {
            None
        }
    }

    /// The enclosing scope parts; `None` for a free function.
    pub fn scope(&self) -> (r: Option<&[String]>)
        ensures
            match r {
                Some(s) => spec_source_scope(*self) == Some(s@),
                None => spec_source_scope(*self) is None,
            },
    {
        match self {
            SourceFunction::CFunction(_) => None,
            SourceFunction::CppFunction(_) => None,
            SourceFunction::PythonFunction(_) => None,
            SourceFunction::JavaScriptFunction(_) => None,
            SourceFunction::TypeScriptFunction(_) => None,
            SourceFunction::GoFunction(_) => None,
            SourceFunction::RustFunction(_) => None,
            SourceFunction::CppMethod(func) => Some(func.scope()),
            SourceFunction::CppAssociatedFunction(func) => Some(func.scope()),
            SourceFunction::PythonMethod(func) => Some(func.scope()),
            SourceFunction::PythonAssociatedFunction(func) => Some(func.scope()),
            SourceFunction::JavaScriptMethod(func) => Some(func.scope()),
            SourceFunction::JavaScriptAssociatedFunction(func) => Some(func.scope()),
            SourceFunction::TypeScriptMethod(func) => Some(func.scope()),
            SourceFunction::TypeScriptAssociatedFunction(func) => Some(func.scope()),
            SourceFunction::GoMethod(func) => Some(func.scope()),
            SourceFunction::RustMethod(func) => Some(func.scope()),
            SourceFunction::RustAssociatedFunction(func) => Some(func.scope()),
            SourceFunction::JavaMethod(func) => Some(func.scope()),
            SourceFunction::JavaAssociatedFunction(func) => Some(func.scope()),
            SourceFunction::CSharpMethod(func) => Some(func.scope()),
            SourceFunction::CSharpAssociatedFunction(func) => Some(func.scope()),
        }
    }

    /// The receiver; `None` unless the function is a method.
    pub fn receiver(&self) -> (r: Option<&str>)
        ensures
            match r {
                Some(s) => spec_source_receiver(*self) == Some(s@),
                None => spec_source_receiver(*self) is None,
            },
    {
        match self {
            SourceFunction::CppMethod(func) => Some(func.receiver()),
            SourceFunction::PythonMethod(func) => Some(func.receiver()),
            SourceFunction::JavaScriptMethod(func) => Some(func.receiver()),
            SourceFunction::TypeScriptMethod(func) => Some(func.receiver()),
            SourceFunction::GoMethod(func) => Some(func.receiver()),
            SourceFunction::RustMethod(func) => Some(func.receiver()),
            SourceFunction::JavaMethod(func) => Some(func.receiver()),
            SourceFunction::CSharpMethod(func) => Some(func.receiver()),
            SourceFunction::CFunction(_) => None,
            SourceFunction::CppFunction(_) => None,
            SourceFunction::CppAssociatedFunction(_) => None,
            SourceFunction::PythonFunction(_) => None,
            SourceFunction::PythonAssociatedFunction(_) => None,
            SourceFunction::JavaScriptFunction(_) => None,
            SourceFunction::JavaScriptAssociatedFunction(_) => None,
            SourceFunction::TypeScriptFunction(_) => None,
            SourceFunction::TypeScriptAssociatedFunction(_) => None,
            SourceFunction::GoFunction(_) => None,
            SourceFunction::RustFunction(_) => None,
            SourceFunction::RustAssociatedFunction(_) => None,
            SourceFunction::JavaAssociatedFunction(_) => None,
            SourceFunction::CSharpAssociatedFunction(_) => None,
        }
    }

    /// The text the function is shown as (see [`source_text`]).
    pub fn to_string(&self) -> (r: String)
        ensures
            r@ == source_text(*self),
    {
        match self {
            SourceFunction::CFunction(func) => func.to_string(),
            SourceFunction::CppFunction(func) => func.to_string(),
            SourceFunction::CppMethod(func) => func.to_string(),
            SourceFunction::CppAssociatedFunction(func) => func.to_string(),
            SourceFunction::PythonFunction(func) => func.to_string(),
            SourceFunction::PythonMethod(func) => func.to_string(),
            SourceFunction::PythonAssociatedFunction(func) => func.to_string(),
            SourceFunction::JavaScriptFunction(func) => func.to_string(),
            SourceFunction::JavaScriptMethod(func) => func.to_string(),
            SourceFunction::JavaScriptAssociatedFunction(func) => func.to_string(),
            SourceFunction::TypeScriptFunction(func) => func.to_string(),
            SourceFunction::TypeScriptMethod(func) => func.to_string(),
            SourceFunction::TypeScriptAssociatedFunction(func) => func.to_string(),
            SourceFunction::GoFunction(func) => func.to_string(),
            SourceFunction::GoMethod(func) => func.to_string(),
            SourceFunction::RustFunction(func) => func.to_string(),
            SourceFunction::RustMethod(func) => func.to_string(),
            SourceFunction::RustAssociatedFunction(func) => func.to_string(),
            SourceFunction::JavaMethod(func) => func.to_string(),
            SourceFunction::JavaAssociatedFunction(func) => func.to_string(),
            SourceFunction::CSharpMethod(func) => func.to_string(),
            SourceFunction::CSharpAssociatedFunction(func) => func.to_string(),
        }
    }
}

} // verus!
