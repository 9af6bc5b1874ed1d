//! The canonical renderer: reconstructs a documented declaration from the
//! parallel per-field sequences of a descriptor, and the query interface
//! that a documented record type exposes.
//!
//! For each field, in declaration order, the rendering holds one line per
//! documentation line — a three-character comment marker followed by the
//! line's verbatim text — and then one `name: type` line; consecutive
//! fields are separated by exactly one blank line, with no blank line
//! before the first field or after the last.

use vstd::prelude::*;

verus! {

/// How a render call can fail.
#[derive(Clone, Copy, Debug, PartialEq, Eq, Structural)]
pub enum FormatError {
    /// The parallel per-field sequences disagree in length: the
    /// descriptor handed in was corrupted or improperly constructed.
    DescriptorLengthMismatch,
    /// The text-assembly sink rejected an append while output was being
    /// built; the partial text is discarded.
    RenderIOError,
}

/// The three-character marker that opens each rendered comment line.
pub open spec fn comment_marker() -> Seq<char> {
    seq!['/', '/', '/']
}

/// The rendering of one field's documentation lines: for each line, the
/// comment marker, the line's verbatim text, and a line terminator.
pub open spec fn render_docs_spec(docs: Seq<Seq<char>>) -> Seq<char>
    decreases docs.len(),
{
    if docs.len() == 0 {
        Seq::empty()
    } else {
        render_docs_spec(docs.drop_last()) + comment_marker() + docs.last() + seq!['\n']
    }
}

/// The rendering of one field: its comment lines, then its name, a colon
/// and a space, its type signifier, and a line terminator.
pub open spec fn render_field_spec(name: Seq<char>, ty: Seq<char>, docs: Seq<Seq<char>>) -> Seq<char> {
    render_docs_spec(docs) + name + seq![':', ' '] + ty + seq!['\n']
}

/// The rendering of a whole descriptor: each field in declaration order,
/// with exactly one blank line between consecutive fields and none at
/// either end; a descriptor with no fields renders to the empty text.
pub open spec fn render_spec(
    names: Seq<Seq<char>>,
    types: Seq<Seq<char>>,
    docs: Seq<Seq<Seq<char>>>,
) -> Seq<char>
    decreases names.len(),
{
    if names.len() == 0 {
        Seq::empty()
    } else {
        let head = render_spec(names.drop_last(), types.drop_last(), docs.drop_last());
        let sep: Seq<char> = if names.len() == 1 {
            Seq::empty()
        } else {
            seq!['\n']
        };
        head + sep + render_field_spec(names.last(), types.last(), docs.last())
    }
}

/// Renders the documented declaration described by three parallel
/// sequences: field names, field type signifiers, and per-field
/// documentation lines. Fails exactly when the three lengths disagree.
pub fn commented_fields_from<'a>(
    names: &Vec<&'a str>,
    types: &Vec<&'a str>,
    docs: &Vec<Vec<&'a str>>,
) -> (r: Result<String, FormatError>)
    ensures
        names@.len() == types@.len() && names@.len() == docs@.len() ==> (r matches Ok(out)
            && out@ == render_spec(names.deep_view(), types.deep_view(), docs.deep_view())),
        !(names@.len() == types@.len() && names@.len() == docs@.len()) ==> r == Err::<
            String,
            FormatError,
        >(FormatError::DescriptorLengthMismatch),
{
    let n = names.len();
    if types.len() != n || docs.len() != n {
        return Err(FormatError::DescriptorLengthMismatch);
    }
    let mut out = String::new();
    for i in 0..n
        invariant
            n == names@.len(),
            types@.len() == n,
            docs@.len() == n,
            out@ == render_spec(
                names.deep_view().take(i as int),
                types.deep_view().take(i as int),
                docs.deep_view().take(i as int),
            ),
    {
        let ghost nv = names.deep_view();
        let ghost tv = types.deep_view();
        let ghost dv = docs.deep_view();
        if i != 0 {
            out.append("\n");
            proof {
                reveal_strlit("\n");
                assert("\n"@ =~= seq!['\n']);
            }
        }
        let ghost base = out@;
        let field_docs: &Vec<&str> = &docs[i];
        let m = field_docs.len();
        for j in 0..m
            invariant
                m == field_docs@.len(),
                out@ == base + render_docs_spec(field_docs.deep_view().take(j as int)),
        {
            let ghost fdv = field_docs.deep_view();
            out.append("///");
            out.append(field_docs[j]);
            out.append("\n");
            proof {
                reveal_strlit("///");
                reveal_strlit("\n");
                assert("///"@ =~= comment_marker());
                assert("\n"@ =~= seq!['\n']);
                assert(fdv.take(j + 1).drop_last() =~= fdv.take(j as int));
                assert(fdv.take(j + 1).last() == fdv[j as int]);
                assert(out@ =~= base + render_docs_spec(fdv.take(j + 1)));
            }
        }
        out.append(names[i]);
        out.append(": ");
        out.append(types[i]);
        out.append("\n");
        proof {
            reveal_strlit(": ");
            reveal_strlit("\n");
            assert(": "@ =~= seq![':', ' ']);
            assert("\n"@ =~= seq!['\n']);
            assert(field_docs.deep_view().take(m as int) =~= dv[i as int]);
            assert(out@ =~= base + render_field_spec(nv[i as int], tv[i as int], dv[i as int]));
            assert(nv.take(i + 1).drop_last() =~= nv.take(i as int));
            assert(tv.take(i + 1).drop_last() =~= tv.take(i as int));
            assert(dv.take(i + 1).drop_last() =~= dv.take(i as int));
            assert(nv.take(i + 1).last() == nv[i as int]);
            assert(tv.take(i + 1).last() == tv[i as int]);
            assert(dv.take(i + 1).last() == dv[i as int]);
            assert(out@ =~= render_spec(nv.take(i + 1), tv.take(i + 1), dv.take(i + 1)));
        }
    }
    proof {
        assert(names.deep_view().take(n as int) =~= names.deep_view());
        assert(types.deep_view().take(n as int) =~= types.deep_view());
        assert(docs.deep_view().take(n as int) =~= docs.deep_view());
    }
    Ok(out)
}

/// The query interface of a documented record type: four projections of
/// its build-time metadata, and a canonical rendering derived from them.
pub trait DocumentedStruct {
    /// All documentation lines of the type itself, in source order.
    fn struct_docs() -> Vec<&'static str>;

    /// All field type signifiers, in declaration order, such as `u8` or
    /// `Option<String>`.
    fn field_types() -> Vec<&'static str>;

    /// All field names, in declaration order.
    fn field_names() -> Vec<&'static str>;

    /// The documentation lines of each field, one sequence per field, in
    /// declaration order; a field with no documentation contributes an
    /// empty sequence.
    fn field_docs() -> Vec<Vec<&'static str>>;

    /// Renders the fields with their comment lines, in a form close to a
    /// raw declaration. Fails exactly when the name, type, and
    /// documentation sequences disagree in length.
    fn commented_fields() -> (r: Result<String, FormatError>)
        ensures
            r matches Err(e) ==> e == FormatError::DescriptorLengthMismatch,
    {
        let names = Self::field_names();
        let docs = Self::field_docs();
        let types = Self::field_types();
        commented_fields_from(&names, &types, &docs)
    }
}

} // verus!
