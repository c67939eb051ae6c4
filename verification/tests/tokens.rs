use proc_macro2::TokenStream;
use under_dev::audit::LogKind;
use under_dev::declaration::Convention;
use under_dev::error::StubError;
use under_dev::generate::Generated;
use under_dev::syntax::{unimplemented_functions, wip, InputError};

fn tokens(text: &str) -> TokenStream {
    text.parse().unwrap()
}

fn squeezed(text: &str) -> String {
    text.chars().filter(|c| !c.is_whitespace()).collect()
}

fn single(attr: &str, item: &str) -> Result<Generated, InputError> {
    wip(tokens(attr), tokens(item), LogKind::General).map(|expanded| expanded.generated)
}

fn batch(input: &str) -> Result<Vec<Generated>, InputError> {
    unimplemented_functions(tokens(input), LogKind::General).map(|expanded| expanded.generated)
}

fn rejected(r: Result<Generated, InputError>) -> StubError {
    match r {
        Err(InputError::Rejected(e)) => e,
        other => panic!("expected a refusal, got {:?}", other),
    }
}

fn has_c_convention(c: &Convention) -> bool {
    matches!(c, Convention::Named(n) if n == "C")
}

#[test]
fn annotation_without_arguments() {
    let g = single("", "fn myFunc() {}").unwrap();
    assert_eq!(g.record.line(), "myFunc");
    assert_eq!(g.record.comment, "");
    assert!(g.record.location.is_none());
    assert!(g.stub.export_name.is_none());
    assert!(!g.stub.signature.is_unsafe);
    assert!(matches!(g.stub.signature.convention, Convention::Native));
}

#[test]
fn annotation_with_comment() {
    let g = single("\"Need to check EINVAL\"", "fn myFunc() {}").unwrap();
    assert_eq!(g.record.line(), "myFunc # Need to check EINVAL");
    assert_eq!(g.stub.doc, "Need to check EINVAL");
}

#[test]
fn annotation_with_foreign_flag() {
    let g = single("ffi = true", "fn myFunc() {}").unwrap();
    assert_eq!(g.record.line(), "myFunc");
    assert!(g.stub.signature.is_unsafe);
    assert!(has_c_convention(&g.stub.signature.convention));
    assert_eq!(g.stub.export_name.as_deref(), Some("myFunc"));
}

#[test]
fn foreign_flag_on_a_qualified_function() {
    let item = "pub unsafe extern \"system\" fn ffi_wip(a: i32) -> i32 { a }";
    let g = single("ffi = true, \"later\"", item).unwrap();
    assert!(g.stub.signature.is_unsafe);
    assert!(has_c_convention(&g.stub.signature.convention));
    assert_eq!(g.stub.export_name.as_deref(), Some("ffi_wip"));
    assert_eq!(g.stub.signature.visibility, "pub");
    assert_eq!(g.stub.signature.return_type, "i32");
    assert_eq!(g.stub.signature.params.len(), 1);
    assert_eq!(squeezed(&g.stub.signature.params[0]), "a:i32");
    assert_eq!(g.stub.doc, "later");

    let kept = single("ffi = false", item).unwrap();
    assert!(kept.stub.signature.is_unsafe);
    assert!(matches!(&kept.stub.signature.convention, Convention::Named(n) if n == "system"));
    assert!(kept.stub.export_name.is_none());
}

#[test]
fn argument_order_is_free() {
    let a = single("\"c\", ffi = true", "fn f() {}").unwrap();
    let b = single("ffi = true, \"c\"", "fn f() {}").unwrap();
    assert_eq!(a.stub.doc, "c");
    assert_eq!(b.stub.doc, "c");
    assert!(a.stub.export_name.is_some());
    assert!(b.stub.export_name.is_some());
    assert_eq!(a.record.line(), "f # c");
    assert_eq!(a.record.line(), b.record.line());
}

#[test]
fn number_argument_is_refused() {
    let r = single("42", "fn myFunc() {}");
    assert_eq!(rejected(r), StubError::MalformedArgument { index: 0 });
}

#[test]
fn other_refused_arguments() {
    let r = single("\"ok\", ffi = 42", "fn f() {}");
    assert_eq!(rejected(r), StubError::InvalidFfiValue { index: 1 });
    let r = single("ffi = \"yes\"", "fn f() {}");
    assert_eq!(rejected(r), StubError::InvalidFfiValue { index: 0 });
    let r = single("mode = true", "fn f() {}");
    assert_eq!(rejected(r), StubError::MalformedArgument { index: 0 });
    let r = single("a::ffi = true", "fn f() {}");
    assert_eq!(rejected(r), StubError::MalformedArgument { index: 0 });
    let r = single("true", "fn f() {}");
    assert_eq!(rejected(r), StubError::MalformedArgument { index: 0 });
}

#[test]
fn tokens_that_do_not_parse() {
    assert!(matches!(single("ffi =", "fn f() {}"), Err(InputError::Syntax(_))));
    assert!(matches!(single("", "struct S;"), Err(InputError::Syntax(_))));
    assert!(matches!(single("", "fn f() {} fn g() {}"), Err(InputError::Syntax(_))));
    let r = single("\"a\" \"b\"", "fn f() {}");
    assert!(matches!(r, Err(InputError::Syntax(_))));
}

#[test]
fn literal_values_are_read_as_written() {
    let g = single("\"a\\n\\\"b\\\"\"", "fn f() {}").unwrap();
    assert_eq!(g.stub.doc, "a\n\"b\"");
    let g = single("r\"raw\",", "fn f() {}").unwrap();
    assert_eq!(g.stub.doc, "raw");
    assert_eq!(g.record.line(), "f # raw");
    let g = single("\"first\", \"second\"", "fn f() {}").unwrap();
    assert_eq!(g.stub.doc, "second");
    let r = single("\"a\", ffi = false, x = 1, f()", "fn f() {}");
    assert_eq!(rejected(r), StubError::MalformedArgument { index: 2 });
    let r = single("\"a\", ffi = false, f(), x = 1", "fn f() {}");
    assert_eq!(rejected(r), StubError::MalformedArgument { index: 2 });
}

#[test]
fn declaration_record() {
    let item = "pub(crate) const unsafe extern fn pick<'a, T: Clone>(x: &'a T, n: usize) -> &'a T where T: Send { x }";
    let s = single("", item).unwrap().stub.signature;
    assert_eq!(squeezed(&s.visibility), "pub(crate)");
    assert!(s.is_const);
    assert!(!s.is_async);
    assert!(s.is_unsafe);
    assert!(matches!(s.convention, Convention::Unnamed));
    assert_eq!(s.name, "pick");
    assert_eq!(squeezed(&s.generics), "<'a,T:Clone>");
    assert_eq!(s.params.len(), 2);
    assert_eq!(squeezed(&s.params[0]), "x:&'aT");
    assert_eq!(squeezed(&s.params[1]), "n:usize");
    assert_eq!(squeezed(&s.return_type), "&'aT");
    assert_eq!(squeezed(&s.where_clause), "whereT:Send");

    let s = single("", "async fn plain() {}").unwrap().stub.signature;
    assert_eq!(s.visibility, "");
    assert!(s.is_async);
    assert!(!s.is_const);
    assert!(!s.is_unsafe);
    assert!(matches!(s.convention, Convention::Native));
    assert_eq!(s.generics, "");
    assert!(s.params.is_empty());
    assert_eq!(s.return_type, "");
    assert_eq!(s.where_clause, "");
}

#[test]
fn variadic_is_the_last_parameter() {
    let item = "unsafe extern \"C\" fn log(fmt: *const u8, ...) {}";
    let s = single("", item).unwrap().stub.signature;
    assert_eq!(s.params.len(), 2);
    assert_eq!(squeezed(&s.params[0]), "fmt:*constu8");
    assert_eq!(squeezed(&s.params[1]), "...");
    assert!(matches!(&s.convention, Convention::Named(n) if n == "C"));
}

#[test]
fn foreign_batch_from_tokens() {
    let input = "ffi = true,
        pub fn f1(path: *const u8, flags: i32) -> i32 {}
        fn f2(fd: i32) -> isize {}";
    let all = batch(input).unwrap();
    assert_eq!(all.len(), 2);
    assert_eq!(all[0].stub.signature.name, "f1");
    assert_eq!(all[1].stub.signature.name, "f2");
    assert_eq!(all[0].record.line(), "f1");
    assert_eq!(all[1].record.line(), "f2");
    for g in &all {
        assert!(g.stub.signature.is_unsafe);
        assert!(has_c_convention(&g.stub.signature.convention));
        assert_eq!(g.stub.export_name.as_deref(), Some(g.stub.signature.name.as_str()));
        assert_eq!(g.stub.doc, "");
        assert!(g.record.location.is_none());
    }
    assert_eq!(all[0].stub.signature.visibility, "pub");
    assert_eq!(all[0].stub.signature.params.len(), 2);
    assert_eq!(all[1].stub.signature.return_type, "isize");
}

#[test]
fn batch_header_forms_from_tokens() {
    let plain = batch("fn a() {} fn b() {}").unwrap();
    assert_eq!(plain.len(), 2);
    assert!(plain.iter().all(|g| g.stub.export_name.is_none()));
    let off = batch("ffi = false fn a() {}").unwrap();
    assert_eq!(off.len(), 1);
    assert!(off[0].stub.export_name.is_none());
    let on = batch("ffi = true fn a() {}").unwrap();
    assert_eq!(on[0].stub.export_name.as_deref(), Some("a"));
    assert!(batch("").unwrap().is_empty());
    assert!(batch("ffi = true,").unwrap().is_empty());
}

#[test]
fn refused_batches() {
    let r = batch("mode = true, fn a() {}");
    assert!(matches!(r, Err(InputError::Rejected(StubError::UnexpectedBatchHeader))));
    let r = batch("ffi = 1, fn a() {}");
    assert!(matches!(r, Err(InputError::Rejected(StubError::InvalidFfiValue { index: 0 }))));
    let r = batch("ffi = true, struct S;");
    assert!(matches!(r, Err(InputError::Syntax(_))));
    let r = batch("ffi = true,, fn a() {}");
    assert!(matches!(r, Err(InputError::Syntax(_))));
}

#[test]
fn located_log_of_one_function() {
    let e = wip(tokens("\"later\""), tokens("fn myFunc() {}"), LogKind::Located).unwrap();
    let place = e.generated.record.location.clone().unwrap();
    assert_eq!((place.line, place.column), (1, 3));
    let expected = format!("myFunc # later ({}:line 1:col 3)", place.file);
    assert_eq!(e.generated.record.line(), expected);
    assert_eq!(e.generated.stub.doc, "later");
    let bare = wip(tokens(""), tokens("fn myFunc() {}"), LogKind::Located).unwrap();
    let place = bare.generated.record.location.clone().unwrap();
    assert_eq!(bare.generated.record.line(), format!("myFunc ({}:line 1:col 3)", place.file));
}

#[test]
fn located_log_of_a_batch() {
    let input = "ffi = true,
        pub fn f1(path: *const u8, flags: i32) -> i32 {}
        fn f2(fd: i32) -> isize {}";
    let all = unimplemented_functions(tokens(input), LogKind::Located).unwrap();
    assert_eq!(all.generated.len(), 2);
    let first = all.generated[0].record.location.clone().unwrap();
    let second = all.generated[1].record.location.clone().unwrap();
    assert_eq!((first.line, second.line), (2, 3));
    assert_eq!(all.generated[0].record.line(), format!("f1 ({}:line 2:col 15)", first.file));
    assert_eq!(all.generated[1].record.line(), format!("f2 ({}:line 3:col 11)", second.file));
}

#[test]
fn parsed_functions_are_handed_back() {
    let e = wip(tokens("ffi = true"), tokens("pub fn myFunc(a: i32) {}"), LogKind::General).unwrap();
    assert_eq!(e.function.sig.ident.to_string(), "myFunc");
    assert_eq!(e.function.sig.inputs.len(), 1);
    assert!(e.function.sig.abi.is_none());
    let all = unimplemented_functions(tokens("fn a() {} fn b(x: u8) {}"), LogKind::General).unwrap();
    assert_eq!(all.functions.len(), 2);
    assert_eq!(all.generated.len(), 2);
    assert_eq!(all.functions[0].sig.ident.to_string(), "a");
    assert_eq!(all.functions[1].sig.ident.to_string(), "b");
    assert_eq!(all.generated[1].stub.signature.name, "b");
}

#[test]
fn joined_punctuation_is_not_a_header() {
    let r = batch("ffi == true fn a() {}");
    assert!(matches!(r, Err(InputError::Rejected(StubError::InvalidFfiValue { index: 0 }))));
    let r = batch("ffi += true fn a() {}");
    assert!(matches!(r, Err(InputError::Syntax(_))));
}
