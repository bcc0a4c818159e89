use crate::cursor::{be_u16, has_bytes, Data};
use crate::error::{ErrorKindView, ParseErr};
use crate::model::attribute::{
    AttributeCodeException, AttributeInnerClass, AttributeLineNumber, AttributeLocalVariableTable,
    BootstrapMethod, BootstrapMethodView,
};
use crate::model::cp_info::FromPool;
use crate::model::{views, CpInfoInner};
use crate::parse::{parse_vec, spec_parse_seq, Parse, Parsed};
use vstd::prelude::*;

verus! {

impl Parse for AttributeCodeException {
    /// Four 16-bit numbers: start, end, handler, catch type.
    open spec fn spec_parse(s: Seq<u8>, pos: int) -> Parsed<AttributeCodeException> {
        if has_bytes(s, pos, 8) {
            Ok(
                (
                    AttributeCodeException {
                        start_pc: be_u16(s, pos),
                        end_pc: be_u16(s, pos + 2),
                        handler_pc: be_u16(s, pos + 4),
                        catch_type: be_u16(s, pos + 6),
                    },
                    pos + 8,
                ),
            )
        } else {
            Err(ErrorKindView::TruncatedInput)
        }
    }

    fn parse(data: &mut Data) -> (r: Result<AttributeCodeException, ParseErr>) {
        let start_pc = data.u2()?;
        let end_pc = data.u2()?;
        let handler_pc = data.u2()?;
        let catch_type = data.u2()?;
        Ok(AttributeCodeException { start_pc, end_pc, handler_pc, catch_type })
    }
}

impl Parse for AttributeInnerClass {
    /// Three pool references and a mask of access flags.
    open spec fn spec_parse(s: Seq<u8>, pos: int) -> Parsed<AttributeInnerClass> {
        if has_bytes(s, pos, 8) {
            Ok(
                (
                    AttributeInnerClass {
                        inner_class_info_index: FromPool::spec_new(be_u16(s, pos)),
                        outer_class_info_index: FromPool::spec_new(be_u16(s, pos + 2)),
                        inner_class_name_index: FromPool::spec_new(be_u16(s, pos + 4)),
                        inner_class_access_flags: be_u16(s, pos + 6),
                    },
                    pos + 8,
                ),
            )
        } else {
            Err(ErrorKindView::TruncatedInput)
        }
    }

    fn parse(data: &mut Data) -> (r: Result<AttributeInnerClass, ParseErr>) {
        let inner_class_info_index = data.cp()?;
        let outer_class_info_index = data.cp()?;
        let inner_class_name_index = data.cp()?;
        let inner_class_access_flags = data.u2()?;
        Ok(
            AttributeInnerClass {
                inner_class_info_index,
                outer_class_info_index,
                inner_class_name_index,
                inner_class_access_flags,
            },
        )
    }
}

impl Parse for AttributeLineNumber {
    /// Two 16-bit numbers: instruction and line.
    open spec fn spec_parse(s: Seq<u8>, pos: int) -> Parsed<AttributeLineNumber> {
        if has_bytes(s, pos, 4) {
            Ok(
                (
                    AttributeLineNumber {
                        start_pc: be_u16(s, pos),
                        line_number: be_u16(s, pos + 2),
                    },
                    pos + 4,
                ),
            )
        } else {
            Err(ErrorKindView::TruncatedInput)
        }
    }

    fn parse(data: &mut Data) -> (r: Result<AttributeLineNumber, ParseErr>) {
        let start_pc = data.u2()?;
        let line_number = data.u2()?;
        Ok(AttributeLineNumber { start_pc, line_number })
    }
}

impl Parse for AttributeLocalVariableTable {
    /// Start and length, two pool references, and the place among the locals.
    open spec fn spec_parse(s: Seq<u8>, pos: int) -> Parsed<AttributeLocalVariableTable> {
        if has_bytes(s, pos, 10) {
            Ok(
                (
                    AttributeLocalVariableTable {
                        start_pc: be_u16(s, pos),
                        length: be_u16(s, pos + 2),
                        name_index: FromPool::spec_new(be_u16(s, pos + 4)),
                        descriptor_or_signature_index: FromPool::spec_new(be_u16(s, pos + 6)),
                        index: be_u16(s, pos + 8),
                    },
                    pos + 10,
                ),
            )
        } else {
            Err(ErrorKindView::TruncatedInput)
        }
    }

    fn parse(data: &mut Data) -> (r: Result<AttributeLocalVariableTable, ParseErr>) {
        let start_pc = data.u2()?;
        let length = data.u2()?;
        let name_index = data.cp()?;
        let descriptor_or_signature_index = data.cp()?;
        let index = data.u2()?;
        Ok(
            AttributeLocalVariableTable {
                start_pc,
                length,
                name_index,
                descriptor_or_signature_index,
                index,
            },
        )
    }
}

impl Parse for BootstrapMethod {
    /// A method handle reference, a count, and that many open references.
    open spec fn spec_parse(s: Seq<u8>, pos: int) -> Parsed<BootstrapMethodView> {
        if has_bytes(s, pos, 4) {
            match spec_parse_seq::<FromPool<CpInfoInner>>(s, pos + 4, be_u16(s, pos + 2) as nat) {
                Ok((arguments, end)) => Ok(
                    (
                        BootstrapMethodView {
                            bootstrap_method_ref: FromPool::spec_new(be_u16(s, pos)),
                            bootstrap_arguments: arguments,
                        },
                        end,
                    ),
                ),
                Err(e) => Err(e),
            }
        } else {
            Err(ErrorKindView::TruncatedInput)
        }
    }

    fn parse(data: &mut Data) -> (r: Result<BootstrapMethod, ParseErr>) {
        let bootstrap_method_ref = data.cp()?;
        let count = data.u2()?;
        let bootstrap_arguments = parse_vec::<FromPool<CpInfoInner>>(count as usize, data)?;
        assert(views(bootstrap_arguments@) =~= bootstrap_arguments@);
        Ok(BootstrapMethod { bootstrap_method_ref, bootstrap_arguments })
    }
}

} // verus!
