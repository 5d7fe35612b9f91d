//! The type descriptor reader.
//!
//! The host front-end hands over a type declaration as plain data: the type's
//! name and its shape. The reader accepts only product types (records with
//! fields), drops purely positional fields — a builder is synthesized over the
//! named subset only — and rejects sum and union shapes outright rather than
//! silently emitting nothing, so an unsupported input is always visible to the
//! caller.

use vstd::prelude::*;

verus! {

/// One field as the host hands it over: possibly unnamed (positional), with
/// its type rendered as source text.
pub struct RawField {
    pub name: Option<String>,
    pub ty: String,
}

/// The shape of a type declaration as the host hands it over.
pub enum TypeShape {
    /// A record with fields, named or positional.
    Product(Vec<RawField>),
    /// A sum type: variants. No builder is synthesized for it.
    Sum,
    /// A union-like type. No builder is synthesized for it.
    Union,
}

/// The input was not a plain product type, so no builder can be synthesized.
#[derive(Debug, PartialEq, Eq)]
pub enum UnsupportedShape {
    SumType,
    UnionType,
}

/// A named field of the target type: its name and its type, both as source
/// text.
#[derive(Debug)]
pub struct FieldDescriptor {
    pub name: String,
    pub ty: String,
}

/// The synthesizer's input: the target type's name and its ordered named
/// fields. Field order is the source declaration order; it fixes the order of
/// the emitted code, nothing more.
#[derive(Debug)]
pub struct TypeDescriptor {
    pub name: String,
    pub fields: Vec<FieldDescriptor>,
}

/// A field descriptor, abstractly: the field's name and its type text.
pub open spec fn field_views(fields: Seq<FieldDescriptor>) -> Seq<(Seq<char>, Seq<char>)> {
    fields.map(|i: int, f: FieldDescriptor| (f.name@, f.ty@))
}

/// The field names, in declaration order.
pub open spec fn field_names(fields: Seq<FieldDescriptor>) -> Seq<Seq<char>> {
    fields.map(|i: int, f: FieldDescriptor| f.name@)
}

/// The named fields among a raw field list, in order, as (name, type) pairs;
/// positional fields are dropped.
pub open spec fn named_views(raw: Seq<RawField>) -> Seq<(Seq<char>, Seq<char>)>
    decreases raw.len(),
{
    if raw.len() == 0 {
        Seq::empty()
    } else {
        let rest = named_views(raw.drop_last());
        match raw.last().name {
            Some(n) => rest.push((n@, raw.last().ty@)),
            None => rest,
        }
    }
}

/// Read a raw type declaration into a descriptor. A product shape always
/// yields a descriptor holding exactly its named fields in declaration order;
/// a sum or union shape is rejected as unsupported.
pub fn read_descriptor(name: String, shape: TypeShape) -> (r: Result<
    TypeDescriptor,
    UnsupportedShape,
>)
    ensures
        match shape {
            TypeShape::Product(raw) => r matches Ok(d) && d.name@ == name@ && field_views(
                d.fields@,
            ) == named_views(raw@),
            TypeShape::Sum => r == Err::<TypeDescriptor, UnsupportedShape>(
                UnsupportedShape::SumType,
            ),
            TypeShape::Union => r == Err::<TypeDescriptor, UnsupportedShape>(
                UnsupportedShape::UnionType,
            ),
        },
{
    match shape {
        TypeShape::Sum => Err(UnsupportedShape::SumType),
        TypeShape::Union => Err(UnsupportedShape::UnionType),
        TypeShape::Product(raw) => {
            let mut fields: Vec<FieldDescriptor> = Vec::new();
            let mut i: usize = 0;
            while i < raw.len()
                invariant
                    i <= raw.len(),
                    field_views(fields@) == named_views(raw@.take(i as int)),
                decreases raw.len() - i,
            {
                let f = &raw[i];
                match &f.name {
                    Some(n) => {
                        fields.push(
                            FieldDescriptor { name: n.clone(), ty: f.ty.clone() },
                        );
                    },
                    None => {},
                }
                proof {
                    assert(raw@.take(i + 1).drop_last() =~= raw@.take(i as int));
                    assert(raw@.take(i + 1).last() == raw@[i as int]);
                    assert(field_views(fields@) =~= named_views(raw@.take(i + 1)));
                }
                i += 1;
            }
            proof {
                assert(raw@.take(raw@.len() as int) =~= raw@);
            }
            Ok(TypeDescriptor { name, fields })
        },
    }
}

} // verus!
