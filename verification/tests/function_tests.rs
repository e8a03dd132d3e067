use codablellm::function::{
    CFunction, CppAssociatedFunction, CppMethod, Descriptor, Function, GoMethod, Location, Method, PythonAssociatedFunction,
    PythonMethod, RustMethod, ScopedFunction, SourceFunction, Span,
};
use codablellm::language::{Language, SourceLanguage};

fn descriptor(name: &str, language: SourceLanguage, line: usize) -> Descriptor {
    Descriptor {
        name: name.to_string(),
        definition: format!("def {name}"),
        language: Language::Source(language),
        location: Some(Location {
            source: "src/m.x".to_string(),
            bytes_range: Span { start: 10, end: 20 },
            line_range: Span { start: line, end: line + 3 },
            column_range: Span { start: 0, end: 1 },
        }),
    }
}

#[test]
fn location_and_function_text() {
    let d = descriptor("f", SourceLanguage::C, 12);
    assert_eq!(d.location.as_ref().unwrap().to_string(), "src/m.x:12");
    let f = CFunction::new(d);
    assert_eq!(f.to_string(), "f (src/m.x:12)");
    assert_eq!(f.name(), "f");
    assert_eq!(f.definition(), "def f");
    assert_eq!(f.language(), Language::Source(SourceLanguage::C));
}

#[test]
fn function_in_memory_has_no_location() {
    let mut d = descriptor("g", SourceLanguage::C, 0);
    d.location = None;
    let f = CFunction::new(d);
    assert_eq!(f.function_display(), "g (<MEM>)");
    assert!(f.location().is_none());
}

#[test]
fn scoped_functions_use_the_language_separator() {
    let f = CppAssociatedFunction::new(descriptor("make", SourceLanguage::Cpp, 3), vec!["ns".to_string(), "Widget".to_string()]);
    assert_eq!(f.to_string(), "ns::Widget::make (src/m.x:3)");
    let f = PythonAssociatedFunction::new(descriptor("build", SourceLanguage::Python, 7), vec!["pkg".to_string(), "Cls".to_string()]);
    assert_eq!(f.to_string(), "pkg.Cls.build (src/m.x:7)");
    let f = CppAssociatedFunction::new(descriptor("free", SourceLanguage::Cpp, 1), vec![]);
    assert_eq!(f.to_string(), "::free (src/m.x:1)");
}

#[test]
fn methods_show_their_receiver() {
    let m = CppMethod::new(descriptor("size", SourceLanguage::Cpp, 5), vec!["std".to_string()], "vec".to_string());
    assert_eq!(m.to_string(), "std::vec::size (src/m.x:5)");
    assert_eq!(m.receiver(), "vec");
    assert_eq!(m.scope(), &["std".to_string()]);
    let m = RustMethod::new(descriptor("len", SourceLanguage::Rust, 9), vec!["crate".to_string(), "buf".to_string()], "self".to_string());
    assert_eq!(m.method_display(), "crate::buf::self::len (src/m.x:9)");
    let m = GoMethod::new(descriptor("Run", SourceLanguage::Go, 2), vec!["main".to_string()], "s".to_string());
    assert_eq!(m.to_string(), "main.s.Run (src/m.x:2)");
}

#[test]
fn source_function_accessors() {
    let m = PythonMethod::new(descriptor("run", SourceLanguage::Python, 4), vec!["app".to_string()], "self".to_string());
    let sf = SourceFunction::PythonMethod(m);
    assert!(sf.as_python_method().is_some());
    assert!(sf.as_python_function().is_none());
    assert!(sf.as_c_function().is_none());
    assert_eq!(sf.scope(), Some(&["app".to_string()][..]));
    assert_eq!(sf.receiver(), Some("self"));
    assert_eq!(sf.name(), "run");
    assert_eq!(sf.to_string(), "app.self.run (src/m.x:4)");

    let sf = SourceFunction::CFunction(CFunction::new(descriptor("main", SourceLanguage::C, 0)));
    assert_eq!(sf.scope(), None);
    assert_eq!(sf.receiver(), None);
    assert!(sf.as_c_function().is_some());
    assert_eq!(sf.to_string(), "main (src/m.x:0)");

    let sf = SourceFunction::CppAssociatedFunction(CppAssociatedFunction::new(descriptor("mk", SourceLanguage::Cpp, 1), vec!["A".to_string()]));
    assert_eq!(sf.scope(), Some(&["A".to_string()][..]));
    assert_eq!(sf.receiver(), None);
    assert_eq!(sf.to_string(), "A::mk (src/m.x:1)");
}

#[test]
fn descriptor_copies_are_equal() {
    let d = descriptor("h", SourceLanguage::Java, 8);
    let c = d.duplicate();
    assert_eq!(c.name, d.name);
    assert_eq!(c.definition, d.definition);
    assert_eq!(c.location.as_ref().unwrap().line_range, d.location.as_ref().unwrap().line_range);
}
