//! The code synthesizer: given a parsed marker declaration and the schema's
//! ordered declarations, emits the generated structure definition, its
//! environment loader, one accessor per field, and the dedicated
//! missing-variable error type, as one piece of source text whose exact
//! content is pinned by `generated_source`.

use crate::accepted_rust_type::{return_type_spelling, self_caller_spelling, type_spelling};
use crate::empty_struct::{visibility_view, EmptyStruct, Visibility, VisibilityView};
use crate::raw_token::opt_text_view;
use crate::variable_declarations::{EnvVariableDeclarations, EnvVariableSpec};
use vstd::prelude::*;
use vstd::string::StrSliceExecFns;
use vstd::string::StringExecFns;

verus! {

/// Relies on String::push: appends exactly the given character.
#[verifier::external_body]
fn push_char(s: &mut String, c: char)
    ensures
        final(s)@ == old(s)@ + seq![c],
{
    s.push(c);
}

/// Whether a piece of source text lexes as Rust tokens: acceptance by
/// proc_macro2's built-in lexer, a function of the text alone.
pub uninterp spec fn lexes_as_rust_tokens(s: Seq<char>) -> bool;

/// Relies on proc_macro2::TokenStream's FromStr implementation: lexes Rust
/// source text into a token stream. Which of its two lexers runs depends on
/// process state, so only success lands on accepted text; nothing is promised
/// of when the unlexable report comes.
#[verifier::external_body]
fn lex_token_stream(src: &str) -> (r: Result<proc_macro2::TokenStream, proc_macro2::LexError>)
    ensures
        r is Ok ==> lexes_as_rust_tokens(src@),
{
    <proc_macro2::TokenStream as core::str::FromStr>::from_str(src)
}

#[verifier::external_type_specification]
#[verifier::external_body]
pub struct ExTokenStream(proc_macro2::TokenStream);

#[verifier::external_type_specification]
#[verifier::external_body]
pub struct ExLexError(proc_macro2::LexError);

/// One character as it reads inside an emitted string literal: quotes and
/// backslashes get a backslash prefix; the carriage return, which cannot
/// stand bare in a Rust literal, and its fellow named control characters are
/// emitted as their named escapes; everything else stands as it is.
pub open spec fn escaped_char(c: char) -> Seq<char> {
    if c == '"' || c == '\\' {
        seq!['\\', c]
    } else if c == '\r' {
        seq!['\\', 'r']
    } else if c == '\n' {
        seq!['\\', 'n']
    } else if c == '\t' {
        seq!['\\', 't']
    } else if c == '\0' {
        seq!['\\', '0']
    } else {
        seq![c]
    }
}

/// Text as it reads inside an emitted string literal.
pub open spec fn escaped(s: Seq<char>) -> Seq<char>
    decreases s.len(),
{
    if s.len() == 0 {
        Seq::empty()
    } else {
        escaped(s.drop_last()) + escaped_char(s.last())
    }
}

/// Escapes text for an emitted string-literal position.
pub fn escape_str(s: &str) -> (r: String)
    ensures
        r@ == escaped(s@),
{
    let n = s.unicode_len();
    let mut r = String::new();
    let mut i: usize = 0;
    while i < n
        invariant
            n == s@.len(),
            i <= n,
            r@ == escaped(s@.take(i as int)),
        decreases n - i,
    {
        let c = s.get_char(i);
        if c == '"' || c == '\\' {
            push_char(&mut r, '\\');
            push_char(&mut r, c);
        } else if c == '\r' {
            push_char(&mut r, '\\');
            push_char(&mut r, 'r');
        } else if c == '\n' {
            push_char(&mut r, '\\');
            push_char(&mut r, 'n');
        } else if c == '\t' {
            push_char(&mut r, '\\');
            push_char(&mut r, 't');
        } else if c == '\0' {
            push_char(&mut r, '\\');
            push_char(&mut r, '0');
        } else {
            push_char(&mut r, c);
        }
        proof {
            assert(s@.take(i + 1).drop_last() =~= s@.take(i as int));
            assert(s@.take(i + 1).last() == s@[i as int]);
            assert(r@ =~= escaped(s@.take(i as int)) + escaped_char(s@[i as int]));
        }
        i = i + 1;
    }
    proof {
        assert(s@.take(n as int) =~= s@);
    }
    r
}

/// What one declaration contributes to emission: its name, kind and default.
pub struct VarView {
    pub name: Seq<char>,
    pub kind: crate::accepted_rust_type::AcceptedRustType,
    pub default: Option<Seq<char>>,
}

/// The emission-relevant content of one declaration.
pub open spec fn var_view(s: EnvVariableSpec) -> VarView {
    VarView { name: s.name@, kind: s.rust_type, default: opt_text_view(s.default_value) }
}

/// The emission-relevant content of an ordered declaration list.
pub open spec fn decls_view(decls: Seq<EnvVariableSpec>) -> Seq<VarView> {
    decls.map_values(|s: EnvVariableSpec| var_view(s))
}

/// The source text a visibility qualifier re-emits as, space included.
pub open spec fn vis_source(v: VisibilityView) -> Seq<char> {
    match v {
        VisibilityView::Inherited => Seq::empty(),
        VisibilityView::Public => "pub "@,
        VisibilityView::Restricted(g) => "pub("@ + g + ") "@,
    }
}

/// The generated missing-variable error type's name.
pub open spec fn error_ident(name: Seq<char>) -> Seq<char> {
    name + "RequiredEnvNotFoundError"@
}

/// One emitted field of the generated structure.
pub open spec fn field_source(v: VarView) -> Seq<char> {
    v.name + ": "@ + type_spelling(v.kind) + ", "@
}

/// The emitted fields block, one field per declaration, in schema order.
pub open spec fn fields_source(ds: Seq<VarView>) -> Seq<char>
    decreases ds.len(),
{
    if ds.len() == 0 {
        Seq::empty()
    } else {
        fields_source(ds.drop_last()) + field_source(ds.last())
    }
}

/// The whole emitted structure definition.
pub open spec fn struct_def_source(vis: VisibilityView, name: Seq<char>, ds: Seq<VarView>) -> Seq<
    char,
> {
    "#[derive(Debug, Clone)] "@ + vis_source(vis) + "struct "@ + name + " { "@ + fields_source(ds)
        + "}"@
}

/// What the emitted loader does when a variable is absent: parse the default
/// literal, or return the missing-variable error for this name.
pub open spec fn default_branch_source(err: Seq<char>, v: VarView) -> Seq<char> {
    match v.default {
        Some(d) => "\""@ + escaped(d) + "\".parse::<"@ + type_spelling(v.kind) + ">()?"@,
        None => "return Err("@ + err + "::new(\""@ + escaped(v.name) + "\").into())"@,
    }
}

/// One emitted environment read of the generated loader.
pub open spec fn var_read_source(err: Seq<char>, v: VarView) -> Seq<char> {
    "let "@ + v.name + " = match std::env::var(\""@ + escaped(v.name)
        + "\") { Ok(v) => v.parse::<"@ + type_spelling(v.kind)
        + ">()?, Err(std::env::VarError::NotPresent) => "@ + default_branch_source(err, v)
        + ", Err(e) => return Err(e.into()), }; "@
}

/// The emitted reads block, one read per declaration, in schema order.
pub open spec fn reads_source(err: Seq<char>, ds: Seq<VarView>) -> Seq<char>
    decreases ds.len(),
{
    if ds.len() == 0 {
        Seq::empty()
    } else {
        reads_source(err, ds.drop_last()) + var_read_source(err, ds.last())
    }
}

/// The emitted constructor's field list, comma-separated, in schema order.
pub open spec fn ctor_fields_source(ds: Seq<VarView>) -> Seq<char>
    decreases ds.len(),
{
    if ds.len() == 0 {
        Seq::empty()
    } else if ds.len() == 1 {
        ds[0].name
    } else {
        ctor_fields_source(ds.drop_last()) + ", "@ + ds.last().name
    }
}

/// One emitted accessor, returning its field by value or by reference as the
/// kind decides.
pub open spec fn accessor_source(v: VarView) -> Seq<char> {
    "pub fn "@ + v.name + "(&self) -> "@ + return_type_spelling(v.kind) + " { "@
        + self_caller_spelling(v.kind) + "."@ + v.name + " } "@
}

/// The emitted accessors block, one accessor per declaration, in schema order.
pub open spec fn accessors_source(ds: Seq<VarView>) -> Seq<char>
    decreases ds.len(),
{
    if ds.len() == 0 {
        Seq::empty()
    } else {
        accessors_source(ds.drop_last()) + accessor_source(ds.last())
    }
}

/// The whole emitted implementation block: the loader, then the accessors.
pub open spec fn struct_impl_source(name: Seq<char>, ds: Seq<VarView>) -> Seq<char> {
    "impl "@ + name + " { pub fn from_env() -> Result<Self, Box<dyn std::error::Error>> { "@
        + reads_source(error_ident(name), ds) + "Ok("@ + name + " { "@ + ctor_fields_source(ds)
        + " }) } "@ + accessors_source(ds) + "}"@
}

/// The whole emitted missing-variable error type, with its constructor, its
/// display text and its standard error capability.
pub open spec fn error_code_source(name: Seq<char>) -> Seq<char> {
    "#[derive(Debug)] pub struct "@ + error_ident(name) + " { key: String, } impl "@ + error_ident(
        name,
    ) + " { fn new(key: &str) -> Self { Self { key: key.to_string() } } } impl std::fmt::Display for "@
        + error_ident(name)
        + " { fn fmt(&self, f: &mut std::fmt::Formatter<'_>) -> std::fmt::Result { write!(f, \"failed to load configuration from env: variable {} not found and no default value specified\", self.key) } } impl std::error::Error for "@
        + error_ident(name) + " {}"@
}

/// Everything one expansion emits, in its fixed order: structure definition,
/// implementation block, error type.
pub open spec fn generated_source(vis: VisibilityView, name: Seq<char>, ds: Seq<VarView>) -> Seq<
    char,
> {
    struct_def_source(vis, name, ds) + struct_impl_source(name, ds) + error_code_source(name)
}

/// The generator proper: one marker declaration and one ordered schema.
pub struct DeclarativeEnvGenerator {
    pub empty_struct: EmptyStruct,
    pub variable_declarations: EnvVariableDeclarations,
}

/// What a generator emits, as a function of its marker and schema content.
pub open spec fn generator_output(g: DeclarativeEnvGenerator) -> Seq<char> {
    generated_source(
        visibility_view(g.empty_struct.visibility),
        g.empty_struct.struct_name@,
        decls_view(g.variable_declarations.declarations@),
    )
}

impl DeclarativeEnvGenerator {
    /// Pairs a marker declaration with the schema it will be expanded from.
    pub fn new(empty_struct: EmptyStruct, variable_declarations: EnvVariableDeclarations) -> (r:
        DeclarativeEnvGenerator)
        ensures
            r.empty_struct == empty_struct,
            r.variable_declarations == variable_declarations,
    {
        DeclarativeEnvGenerator { empty_struct, variable_declarations }
    }

    /// The generated missing-variable error type's name.
    fn requiredenvnotfounderror_struct_ident(&self) -> (r: String)
        ensures
            r@ == error_ident(self.empty_struct.struct_name@),
    {
        let mut r: String = self.empty_struct.struct_name.clone();
        r.append("RequiredEnvNotFoundError");
        r
    }

    /// The visibility qualifier's emitted text.
    fn vis_text(&self) -> (r: String)
        ensures
            r@ == vis_source(visibility_view(self.empty_struct.visibility)),
    {
        match &self.empty_struct.visibility {
            Visibility::Inherited => String::new(),
            Visibility::Public => "pub ".to_owned(),
            Visibility::Restricted(g) => {
                let mut r: String = "pub(".to_owned();
                r.append(g.as_str());
                r.append(") ");
                r
            },
        }
    }

    /// The emitted fields block.
    fn fields_text(&self) -> (r: String)
        ensures
            r@ == fields_source(decls_view(self.variable_declarations.declarations@)),
    {
        let ghost dv = decls_view(self.variable_declarations.declarations@);
        let n = self.variable_declarations.declarations.len();
        let mut out = String::new();
        let mut i: usize = 0;
        proof {
            assert(dv.take(0) =~= Seq::<VarView>::empty());
        }
        while i < n
            invariant
                dv == decls_view(self.variable_declarations.declarations@),
                n == dv.len(),
                i <= n,
                out@ == fields_source(dv.take(i as int)),
            decreases n - i,
        {
            let d = &self.variable_declarations.declarations[i];
            let mut chunk: String = d.name.clone();
            chunk.append(": ");
            let ty = d.rust_type.spelling();
            chunk.append(ty.as_str());
            chunk.append(", ");
            proof {
                assert(chunk@ == field_source(dv[i as int]));
            }
            out.append(chunk.as_str());
            proof {
                assert(dv.take(i + 1).drop_last() =~= dv.take(i as int));
                assert(dv.take(i + 1).last() == dv[i as int]);
            }
            i = i + 1;
        }
        proof {
            assert(dv.take(n as int) =~= dv);
        }
        out
    }

    /// The emitted structure definition.
    fn create_struct_def(&self) -> (r: String)
        ensures
            r@ == struct_def_source(
                visibility_view(self.empty_struct.visibility),
                self.empty_struct.struct_name@,
                decls_view(self.variable_declarations.declarations@),
            ),
    {
        let mut out: String = "#[derive(Debug, Clone)] ".to_owned();
        let vis = self.vis_text();
        out.append(vis.as_str());
        out.append("struct ");
        out.append(self.empty_struct.struct_name.as_str());
        out.append(" { ");
        let fields = self.fields_text();
        out.append(fields.as_str());
        out.append("}");
        out
    }

    /// The emitted absent-variable branch of one read: the default literal
    /// parsed as the kind, or the missing-variable error.
    fn default_branch_text(err_ident: &String, d: &EnvVariableSpec) -> (r: String)
        ensures
            r@ == default_branch_source(err_ident@, var_view(*d)),
    {
        match &d.default_value {
            Some(v) => {
                let mut r: String = "\"".to_owned();
                let e = escape_str(v.as_str());
                r.append(e.as_str());
                r.append("\".parse::<");
                let ty = d.rust_type.spelling();
                r.append(ty.as_str());
                r.append(">()?");
                r
            },
            None => {
                let mut r: String = "return Err(".to_owned();
                r.append(err_ident.as_str());
                r.append("::new(\"");
                let e = escape_str(d.name.as_str());
                r.append(e.as_str());
                r.append("\").into())");
                r
            },
        }
    }

    /// The emitted reads block of the generated loader.
    fn reads_text(&self) -> (r: String)
        ensures
            r@ == reads_source(
                error_ident(self.empty_struct.struct_name@),
                decls_view(self.variable_declarations.declarations@),
            ),
    {
        let err_ident = self.requiredenvnotfounderror_struct_ident();
        let ghost err = error_ident(self.empty_struct.struct_name@);
        let ghost dv = decls_view(self.variable_declarations.declarations@);
        let n = self.variable_declarations.declarations.len();
        let mut out = String::new();
        let mut i: usize = 0;
        proof {
            assert(dv.take(0) =~= Seq::<VarView>::empty());
        }
        while i < n
            invariant
                err_ident@ == err,
                err == error_ident(self.empty_struct.struct_name@),
                dv == decls_view(self.variable_declarations.declarations@),
                n == dv.len(),
                i <= n,
                out@ == reads_source(err, dv.take(i as int)),
            decreases n - i,
        {
            let d = &self.variable_declarations.declarations[i];
            let escaped_name = escape_str(d.name.as_str());
            let ty = d.rust_type.spelling();
            let mut chunk: String = "let ".to_owned();
            chunk.append(d.name.as_str());
            chunk.append(" = match std::env::var(\"");
            chunk.append(escaped_name.as_str());
            chunk.append("\") { Ok(v) => v.parse::<");
            chunk.append(ty.as_str());
            chunk.append(">()?, Err(std::env::VarError::NotPresent) => ");
            let dflt = Self::default_branch_text(&err_ident, d);
            chunk.append(dflt.as_str());
            chunk.append(", Err(e) => return Err(e.into()), }; ");
            proof {
                assert(chunk@ == var_read_source(err, dv[i as int]));
            }
            out.append(chunk.as_str());
            proof {
                assert(dv.take(i + 1).drop_last() =~= dv.take(i as int));
                assert(dv.take(i + 1).last() == dv[i as int]);
            }
            i = i + 1;
        }
        proof {
            assert(dv.take(n as int) =~= dv);
        }
        out
    }

    /// The emitted constructor field list.
    fn ctor_fields_text(&self) -> (r: String)
        ensures
            r@ == ctor_fields_source(decls_view(self.variable_declarations.declarations@)),
    {
        let ghost dv = decls_view(self.variable_declarations.declarations@);
        let n = self.variable_declarations.declarations.len();
        let mut out = String::new();
        let mut i: usize = 0;
        proof {
            assert(dv.take(0) =~= Seq::<VarView>::empty());
        }
        while i < n
            invariant
                dv == decls_view(self.variable_declarations.declarations@),
                n == dv.len(),
                i <= n,
                out@ == ctor_fields_source(dv.take(i as int)),
            decreases n - i,
        {
            let d = &self.variable_declarations.declarations[i];
            if i > 0 {
                out.append(", ");
            }
            out.append(d.name.as_str());
            proof {
                assert(dv.take(i + 1).drop_last() =~= dv.take(i as int));
                assert(dv.take(i + 1).last() == dv[i as int]);
                if i == 0 {
                    assert(out@ =~= ctor_fields_source(dv.take(1)));
                }
            }
            i = i + 1;
        }
        proof {
            assert(dv.take(n as int) =~= dv);
        }
        out
    }

    /// The emitted accessors block.
    fn accessors_text(&self) -> (r: String)
        ensures
            r@ == accessors_source(decls_view(self.variable_declarations.declarations@)),
    {
        let ghost dv = decls_view(self.variable_declarations.declarations@);
        let n = self.variable_declarations.declarations.len();
        let mut out = String::new();
        let mut i: usize = 0;
        proof {
            assert(dv.take(0) =~= Seq::<VarView>::empty());
        }
        while i < n
            invariant
                dv == decls_view(self.variable_declarations.declarations@),
                n == dv.len(),
                i <= n,
                out@ == accessors_source(dv.take(i as int)),
            decreases n - i,
        {
            let d = &self.variable_declarations.declarations[i];
            let mut chunk: String = "pub fn ".to_owned();
            chunk.append(d.name.as_str());
            chunk.append("(&self) -> ");
            let rt = d.rust_type.to_struct_return_type();
            chunk.append(rt.as_str());
            chunk.append(" { ");
            let sc = d.rust_type.to_struct_self_caller();
            chunk.append(sc.as_str());
            chunk.append(".");
            chunk.append(d.name.as_str());
            chunk.append(" } ");
            proof {
                assert(chunk@ == accessor_source(dv[i as int]));
            }
            out.append(chunk.as_str());
            proof {
                assert(dv.take(i + 1).drop_last() =~= dv.take(i as int));
                assert(dv.take(i + 1).last() == dv[i as int]);
            }
            i = i + 1;
        }
        proof {
            assert(dv.take(n as int) =~= dv);
        }
        out
    }

    /// The emitted implementation block: the loader, then the accessors.
    fn create_struct_impl(&self) -> (r: String)
        ensures
            r@ == struct_impl_source(
                self.empty_struct.struct_name@,
                decls_view(self.variable_declarations.declarations@),
            ),
    {
        let mut out: String = "impl ".to_owned();
        out.append(self.empty_struct.struct_name.as_str());
        out.append(" { pub fn from_env() -> Result<Self, Box<dyn std::error::Error>> { ");
        let reads = self.reads_text();
        out.append(reads.as_str());
        out.append("Ok(");
        out.append(self.empty_struct.struct_name.as_str());
        out.append(" { ");
        let ctor = self.ctor_fields_text();
        out.append(ctor.as_str());
        out.append(" }) } ");
        let accessors = self.accessors_text();
        out.append(accessors.as_str());
        out.append("}");
        out
    }

    /// The emitted missing-variable error type.
    fn requiredenvnotfounderror_code(&self) -> (r: String)
        ensures
            r@ == error_code_source(self.empty_struct.struct_name@),
    {
        let ident = self.requiredenvnotfounderror_struct_ident();
        let mut out: String = "#[derive(Debug)] pub struct ".to_owned();
        out.append(ident.as_str());
        out.append(" { key: String, } impl ");
        out.append(ident.as_str());
        out.append(
            " { fn new(key: &str) -> Self { Self { key: key.to_string() } } } impl std::fmt::Display for ",
        );
        out.append(ident.as_str());
        out.append(
            " { fn fmt(&self, f: &mut std::fmt::Formatter<'_>) -> std::fmt::Result { write!(f, \"failed to load configuration from env: variable {} not found and no default value specified\", self.key) } } impl std::error::Error for ",
        );
        out.append(ident.as_str());
        out.append(" {}");
        out
    }

    /// The generated source text: the structure definition, the
    /// implementation block and the error type, in that fixed order.
    pub fn generate_source(&self) -> (r: String)
        ensures
            r@ == generator_output(*self),
    {
        let mut out = self.create_struct_def();
        let im = self.create_struct_impl();
        out.append(im.as_str());
        let err = self.requiredenvnotfounderror_code();
        out.append(err.as_str());
        out
    }

    /// The generated units lexed into one token stream for the expansion
    /// site; the emitted text is exactly what `generate_source` yields, and a
    /// successful lex means that text lexes as Rust tokens.
    pub fn generate(&self) -> (r: Result<proc_macro2::TokenStream, proc_macro2::LexError>)
        ensures
            r is Ok ==> lexes_as_rust_tokens(generator_output(*self)),
    {
        let src = self.generate_source();
        lex_token_stream(src.as_str())
    }
}

/// Law: synthesis is deterministic. Two generators over the same marker
/// content and the same schema content emit byte-identical source; nothing of
/// the emission depends on anything but that content.
pub proof fn lemma_generation_deterministic(a: DeclarativeEnvGenerator, b: DeclarativeEnvGenerator)
    requires
        visibility_view(a.empty_struct.visibility) == visibility_view(b.empty_struct.visibility),
        a.empty_struct.struct_name@ == b.empty_struct.struct_name@,
        decls_view(a.variable_declarations.declarations@) == decls_view(
            b.variable_declarations.declarations@,
        ),
    ensures
        generator_output(a) == generator_output(b),
{
}

/// Law: fields are emitted in schema declaration order. The fields block over
/// the first `i + 1` declarations extends the block over the first `i` by
/// exactly the `i`-th declaration's field, so emission can follow no other
/// order.
pub proof fn lemma_fields_follow_declaration_order(ds: Seq<VarView>, i: int)
    requires
        0 <= i < ds.len(),
    ensures
        fields_source(ds.take(i + 1)) == fields_source(ds.take(i)) + field_source(ds[i]),
{
    assert(ds.take(i + 1).drop_last() =~= ds.take(i));
    assert(ds.take(i + 1).last() == ds[i]);
}

/// Law: the loader's reads are emitted in schema declaration order, one read
/// per declaration, by the same extension step as the fields block.
pub proof fn lemma_reads_follow_declaration_order(err: Seq<char>, ds: Seq<VarView>, i: int)
    requires
        0 <= i < ds.len(),
    ensures
        reads_source(err, ds.take(i + 1)) == reads_source(err, ds.take(i)) + var_read_source(
            err,
            ds[i],
        ),
{
    assert(ds.take(i + 1).drop_last() =~= ds.take(i));
    assert(ds.take(i + 1).last() == ds[i]);
}

/// Law: the accessors are emitted in schema declaration order, one accessor
/// per declaration, by the same extension step as the fields block.
pub proof fn lemma_accessors_follow_declaration_order(ds: Seq<VarView>, i: int)
    requires
        0 <= i < ds.len(),
    ensures
        accessors_source(ds.take(i + 1)) == accessors_source(ds.take(i)) + accessor_source(ds[i]),
{
    assert(ds.take(i + 1).drop_last() =~= ds.take(i));
    assert(ds.take(i + 1).last() == ds[i]);
}

/// Law: the emitted constructor lists the fields in schema declaration order,
/// each step appending exactly the next declaration's name.
pub proof fn lemma_ctor_fields_follow_declaration_order(ds: Seq<VarView>, i: int)
    requires
        0 <= i < ds.len(),
    ensures
        ctor_fields_source(ds.take(i + 1)) == if i == 0 {
            ds[0].name
        } else {
            ctor_fields_source(ds.take(i)) + ", "@ + ds[i].name
        },
{
    assert(ds.take(i + 1).drop_last() =~= ds.take(i));
    assert(ds.take(i + 1).last() == ds[i]);
}

} // verus!
