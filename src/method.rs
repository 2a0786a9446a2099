use vstd::prelude::*;
use crate::error::DecodeError;
use crate::endianness::{BigEndianByteOrder, ByteOrder, spec_read_u16};
use crate::attribute::{
    Attribute, AttributeView, attributes_view, parse_attribute_list, spec_attributes,
};

verus! {

/// One method: flags, name and descriptor indices, and its attributes.
#[derive(Debug, Clone, PartialEq, Eq)]
pub struct Method {
    pub access_flags: u16,
    pub name_index: u16,
    pub descriptor_index: u16,
    pub attributes_count: u16,
    pub attributes: Vec<Attribute>,
}

pub struct MethodView {
    pub access_flags: u16,
    pub name_index: u16,
    pub descriptor_index: u16,
    pub attributes_count: u16,
    pub attributes: Seq<AttributeView>,
}

impl View for Method {
    type V = MethodView;

    open spec fn view(&self) -> MethodView {
        MethodView {
            access_flags: self.access_flags,
            name_index: self.name_index,
            descriptor_index: self.descriptor_index,
            attributes_count: self.attributes_count,
            attributes: attributes_view(self.attributes@),
        }
    }
}

pub open spec fn methods_view(v: Seq<Method>) -> Seq<MethodView> {
    v.map_values(|m: Method| m@)
}

/// One method at `offset`: four 16-bit fields, then the attributes that the last one counts.
pub open spec fn spec_method(b: Seq<u8>, offset: usize) -> Result<(MethodView, usize), DecodeError> {
    match spec_read_u16(b, offset) {
        Err(e) => Err(e),
        Ok(access_flags) => match spec_read_u16(b, (offset + 2) as usize) {
            Err(e) => Err(e),
            Ok(name_index) => match spec_read_u16(b, (offset + 4) as usize) {
                Err(e) => Err(e),
                Ok(descriptor_index) => match spec_read_u16(b, (offset + 6) as usize) {
                    Err(e) => Err(e),
                    Ok(attributes_count) => match spec_attributes(
                        b,
                        (offset + 8) as usize,
                        attributes_count as nat,
                        seq![],
                    ) {
                        Err(e) => Err(e),
                        Ok((attributes, next)) => Ok(
                            (
                                MethodView {
                                    access_flags,
                                    name_index,
                                    descriptor_index,
                                    attributes_count,
                                    attributes,
                                },
                                next,
                            ),
                        ),
                    },
                },
            },
        },
    }
}

pub fn parse_method(bytecode: &Vec<u8>, offset: usize) -> (r: Result<(Method, usize), DecodeError>)
    ensures
        match r {
            Ok((m, next)) => spec_method(bytecode@, offset) == Ok::<(MethodView, usize), DecodeError>(
                (m@, next),
            ) && offset < next <= bytecode.len(),
            Err(e) => spec_method(bytecode@, offset) == Err::<(MethodView, usize), DecodeError>(e),
        },
{
    let access_flags = BigEndianByteOrder::read_u16(bytecode, offset)?;
    let name_index = BigEndianByteOrder::read_u16(bytecode, offset + 2)?;
    let descriptor_index = BigEndianByteOrder::read_u16(bytecode, offset + 4)?;
    let attributes_count = BigEndianByteOrder::read_u16(bytecode, offset + 6)?;
    let (attributes, next) = parse_attribute_list(bytecode, offset + 8, attributes_count)?;
    Ok((Method { access_flags, name_index, descriptor_index, attributes_count, attributes }, next))
}

} // verus!
