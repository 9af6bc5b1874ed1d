//! Field and type descriptors: the immutable build-time snapshot of a
//! documented record type, assembled once from the raw attribute tokens
//! that the host declaration mechanism hands in, and queried through pure
//! projections afterwards.

use vstd::prelude::*;

use crate::classify::classify_all;
use crate::classify::classify_tokens;
use crate::render::FormatError;
use crate::render::commented_fields_from;
use crate::render::render_spec;

verus! {

/// One field of a documented record type: its name, its type signifier
/// (opaque verbatim text), and its documentation lines in source order.
pub struct FieldDescriptor {
    name: String,
    type_signifier: String,
    doc_lines: Vec<String>,
}

impl FieldDescriptor {
    /// The field's name.
    pub closed spec fn spec_name(&self) -> Seq<char> {
        self.name@
    }

    /// The field's type signifier.
    pub closed spec fn spec_type(&self) -> Seq<char> {
        self.type_signifier@
    }

    /// The field's documentation lines, in source order.
    pub closed spec fn spec_docs(&self) -> Seq<Seq<char>> {
        self.doc_lines.deep_view()
    }

    /// Builds the descriptor of one field. The name and the type
    /// signifier pass through verbatim; the documentation lines are the
    /// tokens that classify as documentation, kept in order, with every
    /// other token dropped.
    pub fn build(name: &str, type_signifier: &str, tokens: &Vec<String>) -> (r: FieldDescriptor)
        ensures
            r.spec_name() == name@,
            r.spec_type() == type_signifier@,
            r.spec_docs() == classify_all(tokens.deep_view()),
    {
        FieldDescriptor {
            name: name.to_owned(),
            type_signifier: type_signifier.to_owned(),
            doc_lines: classify_tokens(tokens),
        }
    }

    /// The field's name, verbatim.
    pub fn name(&self) -> (r: &str)
        ensures
            r@ == self.spec_name(),
    {
        self.name.as_str()
    }

    /// The field's type signifier, verbatim.
    pub fn type_signifier(&self) -> (r: &str)
        ensures
            r@ == self.spec_type(),
    {
        self.type_signifier.as_str()
    }

    /// The field's documentation lines, in source order.
    pub fn doc_lines(&self) -> (r: &Vec<String>)
        ensures
            r.deep_view() == self.spec_docs(),
    {
        &self.doc_lines
    }
}

/// A documented record type: its own documentation lines and its fields,
/// both in source order. Built exactly once; every accessor is a pure
/// projection of this snapshot.
pub struct TypeDescriptor {
    doc_lines: Vec<String>,
    fields: Vec<FieldDescriptor>,
}

/// Whether `d` is the descriptor that the builders produce from the given
/// token sequences: the type's documentation lines are the type-level
/// tokens that classify as documentation, the names and type signifiers
/// pass through verbatim, and each field's documentation lines come from
/// that field's own tokens alone.
pub open spec fn describes(
    d: TypeDescriptor,
    type_tokens: Seq<Seq<char>>,
    names: Seq<Seq<char>>,
    types: Seq<Seq<char>>,
    field_tokens: Seq<Seq<Seq<char>>>,
) -> bool {
    &&& d.spec_struct_docs() == classify_all(type_tokens)
    &&& d.spec_field_names() == names
    &&& d.spec_field_types() == types
    &&& d.spec_field_docs() == field_tokens.map_values(|toks: Seq<Seq<char>>| classify_all(toks))
}

impl TypeDescriptor {
    /// The type's own documentation lines, in source order.
    pub closed spec fn spec_struct_docs(&self) -> Seq<Seq<char>> {
        self.doc_lines.deep_view()
    }

    /// The field names, in declaration order.
    pub closed spec fn spec_field_names(&self) -> Seq<Seq<char>> {
        self.fields@.map_values(|f: FieldDescriptor| f.spec_name())
    }

    /// The field type signifiers, in declaration order.
    pub closed spec fn spec_field_types(&self) -> Seq<Seq<char>> {
        self.fields@.map_values(|f: FieldDescriptor| f.spec_type())
    }

    /// The per-field documentation lines, in declaration order.
    pub closed spec fn spec_field_docs(&self) -> Seq<Seq<Seq<char>>> {
        self.fields@.map_values(|f: FieldDescriptor| f.spec_docs())
    }

    /// Builds the descriptor of a whole type from its type-level tokens
    /// and the parallel per-field sequences of names, type signifiers,
    /// and attribute tokens. The three per-field sequences must be
    /// consistent: handing in sequences of different lengths is an
    /// internal fault of the host declaration mechanism, not a
    /// recoverable condition.
    pub fn build(
        type_tokens: &Vec<String>,
        field_names: &Vec<String>,
        field_types: &Vec<String>,
        field_tokens: &Vec<Vec<String>>,
    ) -> (r: TypeDescriptor)
        requires
            field_names@.len() == field_types@.len(),
            field_names@.len() == field_tokens@.len(),
        ensures
            describes(
                r,
                type_tokens.deep_view(),
                field_names.deep_view(),
                field_types.deep_view(),
                field_tokens.deep_view(),
            ),
    {
        let mut fields: Vec<FieldDescriptor> = Vec::new();
        let n = field_names.len();
        for i in 0..n
            invariant
                n == field_names@.len(),
                field_types@.len() == n,
                field_tokens@.len() == n,
                fields@.len() == i,
                forall|j: int| 0 <= j < i ==> {
                    &&& (#[trigger] fields@[j]).spec_name() == field_names.deep_view()[j]
                    &&& fields@[j].spec_type() == field_types.deep_view()[j]
                    &&& fields@[j].spec_docs() == classify_all(field_tokens.deep_view()[j])
                },
        {
            let fd = FieldDescriptor::build(
                field_names[i].as_str(),
                field_types[i].as_str(),
                &field_tokens[i],
            );
            fields.push(fd);
        }
        let doc_lines = classify_tokens(type_tokens);
        let r = TypeDescriptor { doc_lines, fields };
        proof {
            assert(r.spec_field_names() =~= field_names.deep_view());
            assert(r.spec_field_types() =~= field_types.deep_view());
            assert(r.spec_field_docs() =~= field_tokens.deep_view().map_values(
                |toks: Seq<Seq<char>>| classify_all(toks),
            ));
        }
        r
    }

    /// The type's own documentation lines, in source order.
    pub fn struct_docs(&self) -> (r: &Vec<String>)
        ensures
            r.deep_view() == self.spec_struct_docs(),
    {
        &self.doc_lines
    }

    /// The field names, in declaration order.
    pub fn field_names(&self) -> (r: Vec<&str>)
        ensures
            r.deep_view() == self.spec_field_names(),
    {
        let mut names: Vec<&str> = Vec::new();
        let n = self.fields.len();
        for i in 0..n
            invariant
                n == self.fields@.len(),
                names.deep_view() == self.spec_field_names().take(i as int),
        {
            proof {
                assert(self.spec_field_names().len() == self.fields@.len());
                assert(names.deep_view().len() == names@.len());
            }
            names.push(self.fields[i].name());
            proof {
                assert(names.deep_view() =~= self.spec_field_names().take(i + 1));
            }
        }
        proof {
            assert(self.spec_field_names().take(n as int) =~= self.spec_field_names());
        }
        names
    }

    /// The field type signifiers, in declaration order, parallel to the
    /// field names.
    pub fn field_types(&self) -> (r: Vec<&str>)
        ensures
            r.deep_view() == self.spec_field_types(),
    {
        let mut types: Vec<&str> = Vec::new();
        let n = self.fields.len();
        for i in 0..n
            invariant
                n == self.fields@.len(),
                types.deep_view() == self.spec_field_types().take(i as int),
        {
            proof {
                assert(self.spec_field_types().len() == self.fields@.len());
                assert(types.deep_view().len() == types@.len());
            }
            types.push(self.fields[i].type_signifier());
            proof {
                assert(types.deep_view() =~= self.spec_field_types().take(i + 1));
            }
        }
        proof {
            assert(self.spec_field_types().take(n as int) =~= self.spec_field_types());
        }
        types
    }

    /// The documentation lines of each field, one sequence per field, in
    /// declaration order, parallel to the field names; a field with no
    /// documentation contributes an empty sequence.
    pub fn field_docs(&self) -> (r: Vec<Vec<&str>>)
        ensures
            r.deep_view() == self.spec_field_docs(),
    {
        let mut docs: Vec<Vec<&str>> = Vec::new();
        let n = self.fields.len();
        for i in 0..n
            invariant
                n == self.fields@.len(),
                docs.deep_view() == self.spec_field_docs().take(i as int),
        {
            let lines = self.fields[i].doc_lines();
            let mut row: Vec<&str> = Vec::new();
            let m = lines.len();
            for j in 0..m
                invariant
                    n == self.fields@.len(),
                    i < n,
                    m == lines@.len(),
                    lines.deep_view() == self.fields@[i as int].spec_docs(),
                    row.deep_view() == self.fields@[i as int].spec_docs().take(j as int),
            {
                proof {
                    assert(self.fields@[i as int].spec_docs().len() == lines@.len());
                    assert(row.deep_view().len() == row@.len());
                }
                row.push(lines[j].as_str());
                proof {
                    assert(row.deep_view() =~= self.fields@[i as int].spec_docs().take(j + 1));
                }
            }
            proof {
                assert(row.deep_view() =~= self.fields@[i as int].spec_docs());
            }
            proof {
                assert(self.spec_field_docs().len() == self.fields@.len());
                assert(docs.deep_view().len() == docs@.len());
            }
            docs.push(row);
            proof {
                assert(docs.deep_view() =~= self.spec_field_docs().take(i + 1));
            }
        }
        proof {
            assert(self.spec_field_docs().take(n as int) =~= self.spec_field_docs());
        }
        docs
    }

    /// Renders the documented declaration that this descriptor records.
    /// The parallel per-field sequences of a built descriptor always
    /// agree in length, so rendering a descriptor never fails.
    pub fn render(&self) -> (r: Result<String, FormatError>)
        ensures
            r matches Ok(out) && out@ == render_spec(
                self.spec_field_names(),
                self.spec_field_types(),
                self.spec_field_docs(),
            ),
    {
        let names = self.field_names();
        let types = self.field_types();
        let docs = self.field_docs();
        proof {
            assert(names@.len() == self.spec_field_names().len());
            assert(types@.len() == self.spec_field_types().len());
            assert(docs@.len() == self.spec_field_docs().len());
            assert(self.spec_field_names().len() == self.fields@.len());
            assert(self.spec_field_types().len() == self.fields@.len());
            assert(self.spec_field_docs().len() == self.fields@.len());
        }
        commented_fields_from(&names, &types, &docs)
    }
}

/// The parallel-sequence parity that every built descriptor keeps: the
/// field names, the field type signifiers, and the per-field
/// documentation sequences all have one entry per field.
pub proof fn lemma_parallel_parity(d: &TypeDescriptor)
    ensures
        d.spec_field_names().len() == d.spec_field_types().len(),
        d.spec_field_names().len() == d.spec_field_docs().len(),
{
}

/// Determinism of the build: two descriptors built from identical token
/// sequences agree on every projection and render to identical text.
pub proof fn lemma_build_deterministic(
    d1: TypeDescriptor,
    d2: TypeDescriptor,
    type_tokens: Seq<Seq<char>>,
    names: Seq<Seq<char>>,
    types: Seq<Seq<char>>,
    field_tokens: Seq<Seq<Seq<char>>>,
)
    requires
        describes(d1, type_tokens, names, types, field_tokens),
        describes(d2, type_tokens, names, types, field_tokens),
    ensures
        d1.spec_struct_docs() == d2.spec_struct_docs(),
        d1.spec_field_names() == d2.spec_field_names(),
        d1.spec_field_types() == d2.spec_field_types(),
        d1.spec_field_docs() == d2.spec_field_docs(),
        render_spec(d1.spec_field_names(), d1.spec_field_types(), d1.spec_field_docs())
            == render_spec(d2.spec_field_names(), d2.spec_field_types(), d2.spec_field_docs()),
{
}

} // verus!
