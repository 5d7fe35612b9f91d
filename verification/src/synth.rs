//! The code synthesizers.
//!
//! Each synthesizer turns a type descriptor into one piece of the generated
//! source text: the builder type declaration (one optional slot per field),
//! the empty-builder constructor on the target type, one fluent setter per
//! field, and the finalizer that checks every slot and assembles the target
//! value. [`synthesize`] concatenates them into the whole code artifact.
//!
//! Every emitter's contract gives the emitted text exactly, character for
//! character, as a function of the descriptor alone: identical descriptors
//! yield identical artifacts.

use vstd::prelude::*;

use crate::builder_suffix;
use crate::descriptor::{field_views, named_views, FieldDescriptor, TypeDescriptor, TypeShape,
    UnsupportedShape};

verus! {

/// One slot declaration inside the builder type: the field, wrapped in
/// `Option`.
pub open spec fn slot_decl_text(f: (Seq<char>, Seq<char>)) -> Seq<char> {
    "    "@ + f.0 + ": Option<"@ + f.1 + ">,\n"@
}

/// The slot declarations of all fields, in declaration order.
pub open spec fn slot_decls_text(fields: Seq<(Seq<char>, Seq<char>)>) -> Seq<char>
    decreases fields.len(),
{
    if fields.len() == 0 {
        Seq::empty()
    } else {
        slot_decls_text(fields.drop_last()) + slot_decl_text(fields.last())
    }
}

/// The builder type declaration.
pub open spec fn struct_decl_text(name: Seq<char>, fields: Seq<(Seq<char>, Seq<char>)>) -> Seq<
    char,
> {
    "pub struct "@ + name + builder_suffix() + " {\n"@ + slot_decls_text(fields) + "}\n"@
}

/// One slot initializer inside the empty-builder constructor.
pub open spec fn slot_init_text(f: (Seq<char>, Seq<char>)) -> Seq<char> {
    "            "@ + f.0 + ": None,\n"@
}

/// The slot initializers of all fields, in declaration order.
pub open spec fn slot_inits_text(fields: Seq<(Seq<char>, Seq<char>)>) -> Seq<char>
    decreases fields.len(),
{
    if fields.len() == 0 {
        Seq::empty()
    } else {
        slot_inits_text(fields.drop_last()) + slot_init_text(fields.last())
    }
}

/// The empty-builder constructor, hung on the target type: takes no
/// arguments, sets every slot to `None`.
pub open spec fn constructor_text(name: Seq<char>, fields: Seq<(Seq<char>, Seq<char>)>) -> Seq<
    char,
> {
    "impl "@ + name + " {\n    pub fn builder() -> "@ + name + builder_suffix() + " {\n        "@
        + name + builder_suffix() + " {\n"@ + slot_inits_text(fields) + "        }\n    }\n}\n"@
}

/// One fluent setter: named after the field, takes one argument of the
/// field's declared type, overwrites the slot, returns the builder.
pub open spec fn setter_text(f: (Seq<char>, Seq<char>)) -> Seq<char> {
    "    pub fn "@ + f.0 + "(&mut self, "@ + f.0 + ": "@ + f.1 + ") -> &mut Self {\n        self."@
        + f.0 + " = Some("@ + f.0 + ");\n        self\n    }\n"@
}

/// The setters of all fields, in declaration order.
pub open spec fn setters_text(fields: Seq<(Seq<char>, Seq<char>)>) -> Seq<char>
    decreases fields.len(),
{
    if fields.len() == 0 {
        Seq::empty()
    } else {
        setters_text(fields.drop_last()) + setter_text(fields.last())
    }
}

/// One slot read inside the finalizer: copy the staged value out, or fail
/// naming the missing field.
pub open spec fn slot_check_text(f: (Seq<char>, Seq<char>)) -> Seq<char> {
    "        let "@ + f.0 + " = match &self."@ + f.0
        + " {\n            Some(value) => value.clone(),\n            None => return Err(\"missing field: "@
        + f.0 + "\".to_string()),\n        };\n"@
}

/// The slot reads of all fields, in declaration order.
pub open spec fn slot_checks_text(fields: Seq<(Seq<char>, Seq<char>)>) -> Seq<char>
    decreases fields.len(),
{
    if fields.len() == 0 {
        Seq::empty()
    } else {
        slot_checks_text(fields.drop_last()) + slot_check_text(fields.last())
    }
}

/// One field assignment inside the constructed value.
pub open spec fn field_assign_text(f: (Seq<char>, Seq<char>)) -> Seq<char> {
    "            "@ + f.0 + ",\n"@
}

/// The field assignments of all fields, in declaration order.
pub open spec fn field_assigns_text(fields: Seq<(Seq<char>, Seq<char>)>) -> Seq<char>
    decreases fields.len(),
{
    if fields.len() == 0 {
        Seq::empty()
    } else {
        field_assigns_text(fields.drop_last()) + field_assign_text(fields.last())
    }
}

/// The finalizer: reads every slot in declaration order, fails on the first
/// empty one naming the missing field, otherwise constructs the target value.
pub open spec fn finalizer_text(name: Seq<char>, fields: Seq<(Seq<char>, Seq<char>)>) -> Seq<
    char,
> {
    "    pub fn build(&self) -> Result<"@ + name + ", String> {\n"@ + slot_checks_text(fields)
        + "        Ok("@ + name + " {\n"@ + field_assigns_text(fields) + "        })\n    }\n"@
}

/// The whole code artifact for one target type.
pub open spec fn artifact_text(name: Seq<char>, fields: Seq<(Seq<char>, Seq<char>)>) -> Seq<
    char,
> {
    struct_decl_text(name, fields) + constructor_text(name, fields) + "impl "@ + name
        + builder_suffix() + " {\n"@ + finalizer_text(name, fields) + setters_text(fields)
        + "}\n"@
}

fn push_slot_decl(out: &mut String, f: &FieldDescriptor)
    ensures
        final(out)@ == old(out)@ + slot_decl_text((f.name@, f.ty@)),
{
    out.append("    ");
    out.append(f.name.as_str());
    out.append(": Option<");
    out.append(f.ty.as_str());
    out.append(">,\n");
    proof {
        assert(out@ =~= old(out)@ + slot_decl_text((f.name@, f.ty@)));
    }
}

fn push_slot_decls(out: &mut String, fields: &Vec<FieldDescriptor>)
    ensures
        final(out)@ == old(out)@ + slot_decls_text(field_views(fields@)),
{
    let ghost fvs = field_views(fields@);
    proof {
        assert(out@ =~= old(out)@ + slot_decls_text(fvs.take(0)));
    }
    let mut i: usize = 0;
    while i < fields.len()
        invariant
            i <= fields.len(),
            fvs == field_views(fields@),
            out@ == old(out)@ + slot_decls_text(fvs.take(i as int)),
        decreases fields.len() - i,
    {
        push_slot_decl(out, &fields[i]);
        proof {
            assert(fvs.take(i + 1).drop_last() =~= fvs.take(i as int));
            assert(fvs.take(i + 1).last() == (fields@[i as int].name@, fields@[i as int].ty@));
            assert(out@ =~= old(out)@ + slot_decls_text(fvs.take(i + 1)));
        }
        i += 1;
    }
    proof {
        assert(fvs.take(fields@.len() as int) =~= fvs);
    }
}

/// Synthesize the builder type declaration: one optional slot per field of
/// the descriptor, in declaration order.
pub fn struct_decl(desc: &TypeDescriptor) -> (r: String)
    ensures
        r@ == struct_decl_text(desc.name@, field_views(desc.fields@)),
{
    let mut out = String::new();
    out.append("pub struct ");
    out.append(desc.name.as_str());
    out.append("Builder");
    out.append(" {\n");
    push_slot_decls(&mut out, &desc.fields);
    out.append("}\n");
    proof {
        assert(out@ =~= struct_decl_text(desc.name@, field_views(desc.fields@)));
    }
    out
}

fn push_slot_init(out: &mut String, f: &FieldDescriptor)
    ensures
        final(out)@ == old(out)@ + slot_init_text((f.name@, f.ty@)),
{
    out.append("            ");
    out.append(f.name.as_str());
    out.append(": None,\n");
    proof {
        assert(out@ =~= old(out)@ + slot_init_text((f.name@, f.ty@)));
    }
}

fn push_slot_inits(out: &mut String, fields: &Vec<FieldDescriptor>)
    ensures
        final(out)@ == old(out)@ + slot_inits_text(field_views(fields@)),
{
    let ghost fvs = field_views(fields@);
    proof {
        assert(out@ =~= old(out)@ + slot_inits_text(fvs.take(0)));
    }
    let mut i: usize = 0;
    while i < fields.len()
        invariant
            i <= fields.len(),
            fvs == field_views(fields@),
            out@ == old(out)@ + slot_inits_text(fvs.take(i as int)),
        decreases fields.len() - i,
    {
        push_slot_init(out, &fields[i]);
        proof {
            assert(fvs.take(i + 1).drop_last() =~= fvs.take(i as int));
            assert(fvs.take(i + 1).last() == (fields@[i as int].name@, fields@[i as int].ty@));
            assert(out@ =~= old(out)@ + slot_inits_text(fvs.take(i + 1)));
        }
        i += 1;
    }
    proof {
        assert(fvs.take(fields@.len() as int) =~= fvs);
    }
}

/// Synthesize the empty-builder constructor: a zero-argument `builder`
/// function on the target type whose result has every slot empty.
pub fn constructor_decl(desc: &TypeDescriptor) -> (r: String)
    ensures
        r@ == constructor_text(desc.name@, field_views(desc.fields@)),
{
    let mut out = String::new();
    out.append("impl ");
    out.append(desc.name.as_str());
    out.append(" {\n    pub fn builder() -> ");
    out.append(desc.name.as_str());
    out.append("Builder");
    out.append(" {\n        ");
    out.append(desc.name.as_str());
    out.append("Builder");
    out.append(" {\n");
    proof {
        assert(out@ =~= "impl "@ + desc.name@ + " {\n    pub fn builder() -> "@ + desc.name@
            + builder_suffix() + " {\n        "@ + desc.name@ + builder_suffix() + " {\n"@);
    }
    push_slot_inits(&mut out, &desc.fields);
    out.append("        }\n    }\n}\n");
    proof {
        assert(out@ =~= constructor_text(desc.name@, field_views(desc.fields@)));
    }
    out
}

fn push_setter(out: &mut String, f: &FieldDescriptor)
    ensures
        final(out)@ == old(out)@ + setter_text((f.name@, f.ty@)),
{
    out.append("    pub fn ");
    out.append(f.name.as_str());
    out.append("(&mut self, ");
    out.append(f.name.as_str());
    out.append(": ");
    out.append(f.ty.as_str());
    out.append(") -> &mut Self {\n        self.");
    out.append(f.name.as_str());
    out.append(" = Some(");
    out.append(f.name.as_str());
    out.append(");\n        self\n    }\n");
    proof {
        assert(out@ =~= old(out)@ + setter_text((f.name@, f.ty@)));
    }
}

/// Synthesize the setters: for each field, in declaration order, a method
/// named after the field that takes one argument of the field's declared type,
/// stores it into the slot — overwriting whatever was there — and returns the
/// builder for chaining.
pub fn setter_decls(desc: &TypeDescriptor) -> (r: String)
    ensures
        r@ == setters_text(field_views(desc.fields@)),
{
    let mut out = String::new();
    let ghost fvs = field_views(desc.fields@);
    proof {
        assert(out@ =~= setters_text(fvs.take(0)));
    }
    let mut i: usize = 0;
    while i < desc.fields.len()
        invariant
            i <= desc.fields.len(),
            fvs == field_views(desc.fields@),
            out@ == setters_text(fvs.take(i as int)),
        decreases desc.fields.len() - i,
    {
        push_setter(&mut out, &desc.fields[i]);
        proof {
            assert(fvs.take(i + 1).drop_last() =~= fvs.take(i as int));
            assert(fvs.take(i + 1).last() == (desc.fields@[i as int].name@, desc.fields@[
                i as int
            ].ty@));
            assert(out@ =~= setters_text(fvs.take(i + 1)));
        }
        i += 1;
    }
    proof {
        assert(fvs.take(desc.fields@.len() as int) =~= fvs);
    }
    out
}

fn push_slot_check(out: &mut String, f: &FieldDescriptor)
    ensures
        final(out)@ == old(out)@ + slot_check_text((f.name@, f.ty@)),
{
    out.append("        let ");
    out.append(f.name.as_str());
    out.append(" = match &self.");
    out.append(f.name.as_str());
    out.append(
        " {\n            Some(value) => value.clone(),\n            None => return Err(\"missing field: ",
    );
    out.append(f.name.as_str());
    out.append("\".to_string()),\n        };\n");
    proof {
        assert(out@ =~= old(out)@ + slot_check_text((f.name@, f.ty@)));
    }
}

fn push_slot_checks(out: &mut String, fields: &Vec<FieldDescriptor>)
    ensures
        final(out)@ == old(out)@ + slot_checks_text(field_views(fields@)),
{
    let ghost fvs = field_views(fields@);
    proof {
        assert(out@ =~= old(out)@ + slot_checks_text(fvs.take(0)));
    }
    let mut i: usize = 0;
    while i < fields.len()
        invariant
            i <= fields.len(),
            fvs == field_views(fields@),
            out@ == old(out)@ + slot_checks_text(fvs.take(i as int)),
        decreases fields.len() - i,
    {
        push_slot_check(out, &fields[i]);
        proof {
            assert(fvs.take(i + 1).drop_last() =~= fvs.take(i as int));
            assert(fvs.take(i + 1).last() == (fields@[i as int].name@, fields@[i as int].ty@));
            assert(out@ =~= old(out)@ + slot_checks_text(fvs.take(i + 1)));
        }
        i += 1;
    }
    proof {
        assert(fvs.take(fields@.len() as int) =~= fvs);
    }
}

fn push_field_assigns(out: &mut String, fields: &Vec<FieldDescriptor>)
    ensures
        final(out)@ == old(out)@ + field_assigns_text(field_views(fields@)),
{
    let ghost fvs = field_views(fields@);
    proof {
        assert(out@ =~= old(out)@ + field_assigns_text(fvs.take(0)));
    }
    let mut i: usize = 0;
    while i < fields.len()
        invariant
            i <= fields.len(),
            fvs == field_views(fields@),
            out@ == old(out)@ + field_assigns_text(fvs.take(i as int)),
        decreases fields.len() - i,
    {
        out.append("            ");
        out.append(fields[i].name.as_str());
        out.append(",\n");
        proof {
            assert(fvs.take(i + 1).drop_last() =~= fvs.take(i as int));
            assert(fvs.take(i + 1).last() == (fields@[i as int].name@, fields@[i as int].ty@));
            assert(out@ =~= old(out)@ + field_assigns_text(fvs.take(i + 1)));
        }
        i += 1;
    }
    proof {
        assert(fvs.take(fields@.len() as int) =~= fvs);
    }
}

/// Synthesize the finalizer: a `build` method that reads every slot in
/// declaration order, fails on the first empty one naming the missing field,
/// and otherwise constructs the target value from the staged values.
pub fn finalizer_decl(desc: &TypeDescriptor) -> (r: String)
    ensures
        r@ == finalizer_text(desc.name@, field_views(desc.fields@)),
{
    let mut out = String::new();
    out.append("    pub fn build(&self) -> Result<");
    out.append(desc.name.as_str());
    out.append(", String> {\n");
    push_slot_checks(&mut out, &desc.fields);
    out.append("        Ok(");
    out.append(desc.name.as_str());
    out.append(" {\n");
    proof {
        assert(out@ =~= "    pub fn build(&self) -> Result<"@ + desc.name@ + ", String> {\n"@
            + slot_checks_text(field_views(desc.fields@)) + "        Ok("@ + desc.name@ + " {\n"@);
    }
    push_field_assigns(&mut out, &desc.fields);
    out.append("        })\n    }\n");
    proof {
        assert(out@ =~= finalizer_text(desc.name@, field_views(desc.fields@)));
    }
    out
}

/// Synthesize the whole code artifact for the descriptor: the builder type,
/// the empty-builder constructor on the target type, and one impl holding the
/// finalizer and the setters. A pure function of the descriptor: identical
/// descriptors yield identical text.
pub fn synthesize(desc: &TypeDescriptor) -> (r: String)
    ensures
        r@ == artifact_text(desc.name@, field_views(desc.fields@)),
{
    let mut out = struct_decl(desc);
    let ctor = constructor_decl(desc);
    out.append(ctor.as_str());
    out.append("impl ");
    out.append(desc.name.as_str());
    out.append("Builder");
    out.append(" {\n");
    let fin = finalizer_decl(desc);
    out.append(fin.as_str());
    let setters = setter_decls(desc);
    out.append(setters.as_str());
    out.append("}\n");
    proof {
        assert(out@ =~= artifact_text(desc.name@, field_views(desc.fields@)));
    }
    out
}

/// The whole pipeline: read a raw type declaration and synthesize its
/// builder. A product shape yields the code artifact over its named fields; a
/// sum or union shape is rejected as unsupported and produces no code.
pub fn synthesize_shape(name: String, shape: TypeShape) -> (r: Result<String, UnsupportedShape>)
    ensures
        match shape {
            TypeShape::Product(raw) => r matches Ok(code) && code@ == artifact_text(
                name@,
                named_views(raw@),
            ),
            TypeShape::Sum => r == Err::<String, UnsupportedShape>(UnsupportedShape::SumType),
            TypeShape::Union => r == Err::<String, UnsupportedShape>(UnsupportedShape::UnionType),
        },
{
    match crate::descriptor::read_descriptor(name, shape) {
        Ok(desc) => Ok(synthesize(&desc)),
        Err(e) => Err(e),
    }
}

} // verus!
