//! Reading token streams: arguments, declarations and batches as `syn`
//! parses them, turned into the plain records that generation works on.

use vstd::prelude::*;
use crate::args::{
    all_accepted, first_rejected, index_of, resolve, AnnotationView, ArgExpr, AssignedValue,
};
use crate::audit::{LogKind, SourceLocation, SourceLocationView};
use crate::batch::{header_outcome, parse_batch_header, Token};
use crate::declaration::{
    Convention, ConventionView, Declaration, DeclarationView, Signature, SignatureView,
};
use crate::error::StubError;
use crate::text::texts_view;
use crate::generate::{
    batch_annotation, generate, generate_batch, generated_of, BatchItem, Generated, GeneratedView,
    location_view,
};

verus! {

/// `proc_macro2::TokenStream`, carried through as it is.
#[verifier::external_type_specification]
#[verifier::external_body]
pub struct ExTokenStream(proc_macro2::TokenStream);

/// `syn::Expr`, read only through the functions below.
#[verifier::external_type_specification]
#[verifier::external_body]
pub struct ExExpr(syn::Expr);

/// `syn::ItemFn`, read only through the functions below.
#[verifier::external_type_specification]
#[verifier::external_body]
pub struct ExItemFn(syn::ItemFn);

/// `syn::Error`, handed on to the caller as it is.
#[verifier::external_type_specification]
#[verifier::external_body]
pub struct ExSynError(syn::Error);

/// Why a token stream gave no stub.
#[derive(Debug)]
pub enum InputError {
    /// The tokens are not what the grammar asks for; the parser's own error.
    Syntax(syn::Error),
    /// The tokens were parsed and an argument or a batch header was refused.
    Rejected(StubError),
}

/// The expressions that the parser reads from a stream as a comma-separated
/// list, in order; `None` where it reports an error.
pub uninterp spec fn parsed_arguments(tokens: proc_macro2::TokenStream) -> Option<Seq<syn::Expr>>;

/// The function that the parser reads from a stream that holds one function
/// and nothing else; `None` where it reports an error.
pub uninterp spec fn parsed_function(tokens: proc_macro2::TokenStream) -> Option<syn::ItemFn>;

/// The functions that the parser reads from a stream, one after the other
/// until the stream is empty; `None` where it reports an error.
pub uninterp spec fn parsed_functions(tokens: proc_macro2::TokenStream) -> Option<
    Seq<syn::ItemFn>,
>;

/// The top-level tokens of a stream by shape, in order.
pub uninterp spec fn leading_shapes(tokens: proc_macro2::TokenStream) -> Seq<Token>;

/// The stream without its first `count` top-level tokens.
pub uninterp spec fn stream_after(tokens: proc_macro2::TokenStream, count: usize)
    -> proc_macro2::TokenStream;

/// `syn::punctuated::Punctuated::parse_terminated`, run over the whole stream
/// by `syn::parse::Parser::parse2`: the expressions of a comma-separated
/// list, in order, or the parser's error. What the parser reads depends on
/// the tokens alone; the contract gives it its name and claims no more.
#[verifier::external_body]
fn parse_expressions(tokens: proc_macro2::TokenStream) -> (r: Result<Vec<syn::Expr>, syn::Error>)
    ensures
        r is Ok <==> parsed_arguments(tokens) is Some,
        r matches Ok(list) ==> parsed_arguments(tokens) == Some(list@),
{
    let parser = syn::punctuated::Punctuated::<syn::Expr, syn::token::Comma>::parse_terminated;
    syn::parse::Parser::parse2(parser, tokens).map(|list| list.into_iter().collect())
}

/// `syn::parse2` for `syn::ItemFn`: the one function that the stream holds,
/// or the parser's error. The contract only names the result.
#[verifier::external_body]
fn parse_function(tokens: proc_macro2::TokenStream) -> (r: Result<syn::ItemFn, syn::Error>)
    ensures
        r is Ok <==> parsed_function(tokens) is Some,
        r matches Ok(function) ==> parsed_function(tokens) == Some(function),
{
    syn::parse2::<syn::ItemFn>(tokens)
}

/// `syn::punctuated::Punctuated::parse_terminated` with `syn::parse::Nothing`
/// for the separator, which takes no token, run over the whole stream by
/// `syn::parse::Parser::parse2`: one `syn::ItemFn` after the other until the
/// stream is empty, or the parser's error. The contract only names the
/// result.
#[verifier::external_body]
fn parse_functions(tokens: proc_macro2::TokenStream) -> (r: Result<Vec<syn::ItemFn>, syn::Error>)
    ensures
        r is Ok <==> parsed_functions(tokens) is Some,
        r matches Ok(list) ==> parsed_functions(tokens) == Some(list@),
{
    let parser = syn::punctuated::Punctuated::<syn::ItemFn, syn::parse::Nothing>::parse_terminated;
    syn::parse::Parser::parse2(parser, tokens).map(|list| list.into_iter().collect())
}

/// The top-level tokens of a stream by shape, from
/// `proc_macro2::TokenStream::into_iter`: an identifier with its text, a
/// punctuation character, or anything else. The contract only names the
/// result.
#[verifier::external_body]
fn token_shapes(tokens: &proc_macro2::TokenStream) -> (r: Vec<Token>)
    ensures
        r@ == leading_shapes(*tokens),
{
    tokens.clone().into_iter().map(|tree| match tree {
        proc_macro2::TokenTree::Ident(word) => Token::Word(word.to_string()),
        proc_macro2::TokenTree::Punct(p) => Token::Punct(p.as_char()),
        _ => Token::Other,
    }).collect()
}

/// The stream without its first `count` top-level tokens, from
/// `proc_macro2::TokenStream::into_iter` and `Iterator::skip`. The contract
/// only names the result.
#[verifier::external_body]
fn without_leading(tokens: proc_macro2::TokenStream, count: usize) -> (r:
    proc_macro2::TokenStream)
    ensures
        r == stream_after(tokens, count),
{
    tokens.into_iter().skip(count).collect()
}

/// What `syn::LitStr::value` gives for an expression that is a string
/// literal; `None` for any other expression.
pub uninterp spec fn literal_string(e: syn::Expr) -> Option<Seq<char>>;

/// The field `syn::LitBool::value` of an expression that is a boolean
/// literal; `None` for any other expression.
pub uninterp spec fn literal_boolean(e: syn::Expr) -> Option<bool>;

/// The fields `left` and `right` of an expression that is a
/// `syn::ExprAssign`; `None` for any other expression.
pub uninterp spec fn assignment_of(e: syn::Expr) -> Option<(syn::Expr, syn::Expr)>;

/// The text that the tokens of an expression print as.
pub uninterp spec fn printed_expression(e: syn::Expr) -> Seq<char>;

/// The value of a string literal, by `syn::LitStr::value`; `None` for any
/// other expression. The contract gives the result its name and claims no
/// more than that one expression always gives one result.
#[verifier::external_body]
fn string_literal(e: &syn::Expr) -> (r: Option<String>)
    ensures
        r is Some == literal_string(*e) is Some,
        r matches Some(value) ==> literal_string(*e) == Some(value@),
{
    match e {
        syn::Expr::Lit(syn::ExprLit { lit: syn::Lit::Str(s), .. }) => Some(s.value()),
        _ => None,
    }
}

/// The value of a boolean literal, the field `syn::LitBool::value`; `None`
/// for any other expression. The contract only names the result.
#[verifier::external_body]
fn boolean_literal(e: &syn::Expr) -> (r: Option<bool>)
    ensures
        r == literal_boolean(*e),
{
    match e {
        syn::Expr::Lit(syn::ExprLit { lit: syn::Lit::Bool(b), .. }) => Some(b.value),
        _ => None,
    }
}

/// The two sides of an assignment, the fields `left` and `right` of
/// `syn::ExprAssign`; `None` for any other expression. The contract only
/// names the result.
#[verifier::external_body]
fn assignment_sides(e: &syn::Expr) -> (r: Option<(syn::Expr, syn::Expr)>)
    ensures
        r == assignment_of(*e),
{
    match e {
        syn::Expr::Assign(a) => Some(((*a.left).clone(), (*a.right).clone())),
        _ => None,
    }
}

/// The expression printed back as text, by `quote::ToTokens::to_token_stream`
/// and the stream's `to_string`. The contract only names the result.
#[verifier::external_body]
fn expression_text(e: &syn::Expr) -> (r: String)
    ensures
        r@ == printed_expression(*e),
{
    quote::ToTokens::to_token_stream(e).to_string()
}

/// The text of `syn::Signature::ident`.
pub uninterp spec fn declared_name(f: syn::ItemFn) -> Seq<char>;

/// The text that `syn::ItemFn::vis` prints as.
pub uninterp spec fn printed_visibility(f: syn::ItemFn) -> Seq<char>;

/// Whether `syn::Signature::constness` is set.
pub uninterp spec fn declared_const(f: syn::ItemFn) -> bool;

/// Whether `syn::Signature::asyncness` is set.
pub uninterp spec fn declared_async(f: syn::ItemFn) -> bool;

/// Whether `syn::Signature::unsafety` is set.
pub uninterp spec fn declared_unsafe(f: syn::ItemFn) -> bool;

/// `syn::Signature::abi`: `None` without one, `Some(None)` for one without a
/// name, else the value of its name.
pub uninterp spec fn declared_abi(f: syn::ItemFn) -> Option<Option<Seq<char>>>;

/// The text that `syn::Signature::generics` prints as.
pub uninterp spec fn printed_generics(f: syn::ItemFn) -> Seq<char>;

/// The text that the `where` clause of `syn::Signature::generics` prints as.
pub uninterp spec fn printed_where_clause(f: syn::ItemFn) -> Seq<char>;

/// The texts that the members of `syn::Signature::inputs` print as, in
/// order, then that of `syn::Signature::variadic` if there is one.
pub uninterp spec fn printed_params(f: syn::ItemFn) -> Seq<Seq<char>>;

/// The text that the type of `syn::Signature::output` prints as; empty for
/// the default.
pub uninterp spec fn printed_return_type(f: syn::ItemFn) -> Seq<char>;

/// The text that `syn::ItemFn::block` prints as.
pub uninterp spec fn printed_body(f: syn::ItemFn) -> Seq<char>;

/// The calling convention that an optional, optionally named qualifier
/// stands for.
pub open spec fn convention_from(abi: Option<Option<Seq<char>>>) -> ConventionView {
    match abi {
        None => ConventionView::Native,
        Some(None) => ConventionView::Unnamed,
        Some(Some(name)) => ConventionView::Named(name),
    }
}

/// The record of a parsed function: each part as the parser holds it or as
/// its tokens print.
pub open spec fn declaration_of(f: syn::ItemFn) -> DeclarationView {
    DeclarationView {
        signature: SignatureView {
            visibility: printed_visibility(f),
            is_const: declared_const(f),
            is_async: declared_async(f),
            is_unsafe: declared_unsafe(f),
            convention: convention_from(declared_abi(f)),
            name: declared_name(f),
            generics: printed_generics(f),
            params: printed_params(f),
            return_type: printed_return_type(f),
            where_clause: printed_where_clause(f),
        },
        body: printed_body(f),
    }
}

/// Whether `shape` is the shape of the expression `e`: a string literal
/// with its value; an assignment with the text of its left side for the key
/// and, for the value, the boolean literal on its right side if there is
/// one; anything else.
pub open spec fn is_shape_of(e: syn::Expr, shape: ArgExpr) -> bool {
    match literal_string(e) {
        Some(text) => shape matches ArgExpr::Literal(value) && value@ == text,
        None => match assignment_of(e) {
            Some((left, right)) => {
                &&& shape matches ArgExpr::Assignment { key, value }
                &&& key@ == printed_expression(left)
                &&& value == match literal_boolean(right) {
                    Some(b) => AssignedValue::Boolean(b),
                    None => AssignedValue::Other,
                }
            },
            None => shape is Other,
        },
    }
}

/// The declared name: `syn::Signature::ident`, by `to_string`. This contract
/// and those of the functions below that read a parsed function only name
/// the result: one parsed function always gives one result.
#[verifier::external_body]
fn function_name(f: &syn::ItemFn) -> (r: String)
    ensures
        r@ == declared_name(*f),
{
    f.sig.ident.to_string()
}

/// The visibility printed back as text; empty for a private function.
#[verifier::external_body]
fn function_visibility(f: &syn::ItemFn) -> (r: String)
    ensures
        r@ == printed_visibility(*f),
{
    quote::ToTokens::to_token_stream(&f.vis).to_string()
}

/// Whether `syn::Signature::constness` is set.
#[verifier::external_body]
fn function_is_const(f: &syn::ItemFn) -> (r: bool)
    ensures
        r == declared_const(*f),
{
    f.sig.constness.is_some()
}

/// Whether `syn::Signature::asyncness` is set.
#[verifier::external_body]
fn function_is_async(f: &syn::ItemFn) -> (r: bool)
    ensures
        r == declared_async(*f),
{
    f.sig.asyncness.is_some()
}

/// The generic parameters printed back as text, without the `where` clause,
/// which `syn::Generics` prints apart.
#[verifier::external_body]
fn function_generics(f: &syn::ItemFn) -> (r: String)
    ensures
        r@ == printed_generics(*f),
{
    quote::ToTokens::to_token_stream(&f.sig.generics).to_string()
}

/// The `where` clause printed back as text; empty where there is none.
#[verifier::external_body]
fn function_where_clause(f: &syn::ItemFn) -> (r: String)
    ensures
        r@ == printed_where_clause(*f),
{
    quote::ToTokens::to_token_stream(&f.sig.generics.where_clause).to_string()
}

/// Whether `syn::Signature::unsafety` is set.
#[verifier::external_body]
fn function_is_unsafe(f: &syn::ItemFn) -> (r: bool)
    ensures
        r == declared_unsafe(*f),
{
    f.sig.unsafety.is_some()
}

/// The calling convention: `syn::Signature::abi`, and the value of its name
/// by `syn::LitStr::value` where it has one.
#[verifier::external_body]
fn function_convention(f: &syn::ItemFn) -> (r: Convention)
    ensures
        r@ == convention_from(declared_abi(*f)),
{
    match &f.sig.abi {
        None => Convention::Native,
        Some(syn::Abi { name: None, .. }) => Convention::Unnamed,
        Some(syn::Abi { name: Some(name), .. }) => Convention::Named(name.value()),
    }
}

/// The parameters printed back as text, one each, in order:
/// `syn::Signature::inputs`, then the variadic if there is one.
#[verifier::external_body]
fn function_params(f: &syn::ItemFn) -> (r: Vec<String>)
    ensures
        texts_view(r@) == printed_params(*f),
{
    let inputs = f.sig.inputs.iter().map(|p| quote::ToTokens::to_token_stream(p).to_string());
    let variadic = f.sig.variadic.iter().map(|v| quote::ToTokens::to_token_stream(v).to_string());
    inputs.chain(variadic).collect()
}

/// The return type printed back as text, without its arrow; empty where
/// `syn::Signature::output` is the default.
#[verifier::external_body]
fn function_return_type(f: &syn::ItemFn) -> (r: String)
    ensures
        r@ == printed_return_type(*f),
{
    match &f.sig.output {
        syn::ReturnType::Default => String::new(),
        syn::ReturnType::Type(_, ty) => quote::ToTokens::to_token_stream(ty).to_string(),
    }
}

/// The body printed back as text, braces included.
#[verifier::external_body]
fn function_body(f: &syn::ItemFn) -> (r: String)
    ensures
        r@ == printed_body(*f),
{
    quote::ToTokens::to_token_stream(&f.block).to_string()
}

/// Where the declared name stands: `proc_macro2::Span::file` and
/// `proc_macro2::Span::start` of the name's span. What they give depends on
/// where the tokens came from, so nothing is claimed of the result.
#[verifier::external_body]
fn function_location(f: &syn::ItemFn) -> (r: SourceLocation) {
    let span = f.sig.ident.span();
    let start = span.start();
    SourceLocation { file: span.file(), line: start.line, column: start.column }
}

/// The shape of one argument expression.
fn shape_of(e: &syn::Expr) -> (r: ArgExpr)
    ensures
        is_shape_of(*e, r),
{
    match string_literal(e) {
        Some(value) => ArgExpr::Literal(value),
        None => match assignment_sides(e) {
            Some((left, right)) => ArgExpr::Assignment {
                key: expression_text(&left),
                value: match boolean_literal(&right) {
                    Some(b) => AssignedValue::Boolean(b),
                    None => AssignedValue::Other,
                },
            },
            None => ArgExpr::Other,
        },
    }
}

/// Whether `shapes` holds the shape of each of `expressions`, in order.
pub open spec fn are_shapes_of(expressions: Seq<syn::Expr>, shapes: Seq<ArgExpr>) -> bool {
    &&& shapes.len() == expressions.len()
    &&& forall|j: int| 0 <= j < shapes.len() ==> is_shape_of(expressions[j], #[trigger] shapes[j])
}

/// The shapes of parsed argument expressions, one for each, in order.
fn shapes_of(expressions: &Vec<syn::Expr>) -> (r: Vec<ArgExpr>)
    ensures
        are_shapes_of(expressions@, r@),
{
    let mut shapes: Vec<ArgExpr> = Vec::new();
    let mut i: usize = 0;
    while i < expressions.len()
        invariant
            i <= expressions.len(),
            shapes.len() == i,
            forall|j: int| 0 <= j < i ==> is_shape_of(expressions[j], #[trigger] shapes[j]),
        decreases expressions.len() - i,
    {
        shapes.push(shape_of(&expressions[i]));
        i = i + 1;
    }
    shapes
}

/// The record of a parsed function.
fn read_declaration(f: &syn::ItemFn) -> (r: Declaration)
    ensures
        r@ == declaration_of(*f),
{
    Declaration {
        signature: Signature {
            visibility: function_visibility(f),
            is_const: function_is_const(f),
            is_async: function_is_async(f),
            is_unsafe: function_is_unsafe(f),
            convention: function_convention(f),
            name: function_name(f),
            generics: function_generics(f),
            params: function_params(f),
            return_type: function_return_type(f),
            where_clause: function_where_clause(f),
        },
        body: function_body(f),
    }
}

/// Whether `e` is the refusal of the first argument of `shapes` that is not
/// accepted.
pub open spec fn refused_under(e: StubError, shapes: Seq<ArgExpr>) -> bool {
    &&& first_rejected(shapes, index_of(e))
    &&& e == shapes[index_of(e)].rejection(index_of(e) as usize)
}

/// The location that a record carries in each kind of log: none in the
/// general log, the place of the function's name in the located one.
pub open spec fn record_location(kind: LogKind, place: SourceLocationView) -> Option<
    SourceLocationView,
> {
    match kind {
        LogKind::General => None,
        LogKind::Located => Some(place),
    }
}

/// Whether `g` is what generation gives for the parsed function `f` under
/// `annotation`, with a record for the log of kind `kind`.
pub open spec fn generated_from(
    g: GeneratedView,
    f: syn::ItemFn,
    annotation: AnnotationView,
    kind: LogKind,
) -> bool {
    exists|place: SourceLocationView|
        g == generated_of(declaration_of(f), annotation, record_location(kind, place))
}

/// In the general log the line of a function is its name, then the comment
/// part if it has a comment, and nothing else; in the located log the record
/// has a location.
pub proof fn line_by_log_kind(
    g: GeneratedView,
    f: syn::ItemFn,
    annotation: AnnotationView,
    kind: LogKind,
)
    requires
        generated_from(g, f, annotation, kind),
    ensures
        g.record.name == declared_name(f),
        g.record.comment == annotation.comment,
        kind is General ==> g.record.location is None && g.record.line() == declared_name(f)
            + g.record.comment_part(),
        kind is Located ==> g.record.location is Some,
{
    if kind is General {
        assert(g.record.line() =~= declared_name(f) + g.record.comment_part());
    }
}

/// What one annotated function expands to: the stub and the audit record,
/// and the function as the parser read it, for whoever prints the stub.
#[derive(Debug)]
pub struct Expanded {
    pub generated: Generated,
    pub function: syn::ItemFn,
}

/// What a batch expands to: for each function, in order, the stub and the
/// audit record in `generated` and the function as the parser read it in
/// `functions`.
#[derive(Debug)]
pub struct ExpandedBatch {
    pub generated: Vec<Generated>,
    pub functions: Vec<syn::ItemFn>,
}

/// Whether `r` is the outcome for the parsed function `f` annotated with
/// arguments of the shapes `shapes`: the generated pair if all of them are
/// accepted, else the refusal of the first that is not.
pub open spec fn is_outcome_for(
    r: Result<Expanded, InputError>,
    f: syn::ItemFn,
    shapes: Seq<ArgExpr>,
    kind: LogKind,
) -> bool {
    match r {
        Ok(expanded) => {
            &&& all_accepted(shapes)
            &&& expanded.function == f
            &&& generated_from(expanded.generated@, f, resolve(shapes), kind)
        },
        Err(InputError::Rejected(e)) => refused_under(e, shapes),
        Err(InputError::Syntax(_)) => false,
    }
}

/// Whether `batch` is what the parsed functions `fs` expand to under the
/// shared flag: one generated pair for each, in order.
pub open spec fn is_batch_of(
    batch: ExpandedBatch,
    fs: Seq<syn::ItemFn>,
    is_ffi: bool,
    kind: LogKind,
) -> bool {
    &&& batch.functions@ == fs
    &&& batch.generated.len() == fs.len()
    &&& forall|i: int|
        0 <= i < fs.len() ==> generated_from(
            (#[trigger] batch.generated[i])@,
            fs[i],
            batch_annotation(is_ffi),
            kind,
        )
}

fn location_for(kind: LogKind, f: &syn::ItemFn) -> (r: Option<SourceLocation>)
    ensures
        kind is General ==> r is None,
        kind is Located ==> r is Some,
{
    match kind {
        LogKind::General => None,
        LogKind::Located => Some(function_location(f)),
    }
}

/// Generates the stub and the audit record of one annotated function from
/// the tokens of its annotation and of its declaration.
///
/// Where the parser refuses either stream, so does this function, with the
/// parser's error for the first that it refuses. Otherwise the arguments are
/// taken by their shapes and the function by its record: if every argument
/// is accepted the result is what `generate` gives for them, else the
/// refusal of the first that is not. The record is made for the log of kind
/// `kind`: without a location for the general log, with the place of the
/// function's name for the located one.
pub fn wip(attr: proc_macro2::TokenStream, item: proc_macro2::TokenStream, kind: LogKind) -> (r:
    Result<Expanded, InputError>)
    ensures
        parsed_arguments(attr) is None || parsed_function(item) is None ==> r matches Err(
            InputError::Syntax(_),
        ),
        parsed_arguments(attr) is Some && parsed_function(item) is Some ==> exists|
            shapes: Seq<ArgExpr>,
        |
            are_shapes_of(parsed_arguments(attr)->Some_0, shapes) && is_outcome_for(
                r,
                parsed_function(item)->Some_0,
                shapes,
                kind,
            ),
{
    let ghost stated = parsed_arguments(attr);
    let expressions = match parse_expressions(attr) {
        Ok(expressions) => expressions,
        Err(e) => {
            return Err(InputError::Syntax(e));
        },
    };
    let function = match parse_function(item) {
        Ok(function) => function,
        Err(e) => {
            return Err(InputError::Syntax(e));
        },
    };
    let shapes = shapes_of(&expressions);
    let declaration = read_declaration(&function);
    let location = location_for(kind, &function);
    let ghost f = function;
    match generate(&shapes, &declaration, &location) {
        Ok(generated) => {
            proof {
                let place = if location is Some {
                    location->Some_0@
                } else {
                    arbitrary()
                };
                assert(location_view(location) == record_location(kind, place));
                assert(generated_from(generated@, f, resolve(shapes@), kind));
            }
            let r: Result<Expanded, InputError> = Ok(Expanded { generated, function });
            assert(are_shapes_of(stated->Some_0, shapes@) && is_outcome_for(r, f, shapes@, kind));
            r
        },
        Err(e) => {
            let r: Result<Expanded, InputError> = Err(InputError::Rejected(e));
            assert(are_shapes_of(stated->Some_0, shapes@) && is_outcome_for(r, f, shapes@, kind));
            r
        },
    }
}

/// Generates the stubs and audit records of a batch from its tokens: an
/// optional header, then the functions.
///
/// The header is read from the shapes of the leading tokens, and a refused
/// header ends the batch with its error before any function is parsed. The
/// functions are parsed from what follows the header: where the parser
/// refuses that, so does this function, with the parser's error. Otherwise
/// every function gives one stub and one record, in order and all under the
/// header's flag, each record made for the log of kind `kind`.
pub fn unimplemented_functions(input: proc_macro2::TokenStream, kind: LogKind) -> (r: Result<
    ExpandedBatch,
    InputError,
>)
    ensures
        match header_outcome(leading_shapes(input)) {
            Err(e) => r matches Err(InputError::Rejected(refusal)) && refusal == e,
            Ok(header) => match parsed_functions(stream_after(input, header.consumed)) {
                None => r matches Err(InputError::Syntax(_)),
                Some(fs) => r matches Ok(batch) && is_batch_of(batch, fs, header.is_ffi, kind),
            },
        },
{
    let leading = token_shapes(&input);
    let header = match parse_batch_header(&leading) {
        Ok(header) => header,
        Err(e) => {
            return Err(InputError::Rejected(e));
        },
    };
    let functions = match parse_functions(without_leading(input, header.consumed)) {
        Ok(functions) => functions,
        Err(e) => {
            return Err(InputError::Syntax(e));
        },
    };
    let mut items: Vec<BatchItem> = Vec::new();
    let mut i: usize = 0;
    while i < functions.len()
        invariant
            i <= functions.len(),
            items.len() == i,
            forall|j: int|
                0 <= j < i ==> (#[trigger] items[j]).declaration@ == declaration_of(functions[j]),
            forall|j: int| 0 <= j < i ==> (kind is General ==> (#[trigger] items[j]).location is None),
            forall|j: int| 0 <= j < i ==> (kind is Located ==> (#[trigger] items[j]).location is Some),
        decreases functions.len() - i,
    {
        items.push(
            BatchItem {
                declaration: read_declaration(&functions[i]),
                location: location_for(kind, &functions[i]),
            },
        );
        i = i + 1;
    }
    let generated = generate_batch(header.is_ffi, &items);
    proof {
        assert forall|k: int| 0 <= k < functions.len() implies generated_from(
            (#[trigger] generated[k])@,
            functions[k],
            batch_annotation(header.is_ffi),
            kind,
        ) by {
            let place = if items[k].location is Some {
                items[k].location->Some_0@
            } else {
                arbitrary()
            };
            assert(location_view(items[k].location) == record_location(kind, place));
            assert(generated[k]@ == generated_of(
                declaration_of(functions[k]),
                batch_annotation(header.is_ffi),
                record_location(kind, place),
            ));
        }
    }
    let batch = ExpandedBatch { generated, functions };
    assert(is_batch_of(batch, batch.functions@, header.is_ffi, kind));
    let r: Result<ExpandedBatch, InputError> = Ok(batch);
    r
}

} // verus!
