use crate::cursor::{be_u16, has_bytes, Data};
use crate::error::{ErrorKind, ErrorKindView, ParseErr};
use crate::model::attribute::{StackMapFrame, StackMapFrameView, VerificationTypeInfo};
use crate::model::cp_info::FromPool;
use crate::model::views;
use crate::parse::{parse_vec, spec_parse_seq, Parse, Parsed};
use vstd::prelude::*;

verus! {

impl Parse for VerificationTypeInfo {
    /// A tag byte; tags 7 and 8 are followed by a 16-bit number.
    open spec fn spec_parse(s: Seq<u8>, pos: int) -> Parsed<VerificationTypeInfo> {
        if !has_bytes(s, pos, 1) {
            Err(ErrorKindView::TruncatedInput)
        } else {
            let tag = s[pos];
            if tag == 0 {
                Ok((VerificationTypeInfo::Top { tag }, pos + 1))
            } else if tag == 1 {
                Ok((VerificationTypeInfo::Integer { tag }, pos + 1))
            } else if tag == 2 {
                Ok((VerificationTypeInfo::Float { tag }, pos + 1))
            } else if tag == 3 {
                Ok((VerificationTypeInfo::Double { tag }, pos + 1))
            } else if tag == 4 {
                Ok((VerificationTypeInfo::Long { tag }, pos + 1))
            } else if tag == 5 {
                Ok((VerificationTypeInfo::Null { tag }, pos + 1))
            } else if tag == 6 {
                Ok((VerificationTypeInfo::UninitializedThis { tag }, pos + 1))
            } else if tag == 7 {
                if has_bytes(s, pos + 1, 2) {
                    Ok(
                        (
                            VerificationTypeInfo::Object {
                                tag,
                                cpool_index: FromPool::spec_new(be_u16(s, pos + 1)),
                            },
                            pos + 3,
                        ),
                    )
                } else {
                    Err(ErrorKindView::TruncatedInput)
                }
            } else if tag == 8 {
                if has_bytes(s, pos + 1, 2) {
                    Ok((VerificationTypeInfo::Uninitialized { tag, offset: be_u16(s, pos + 1) }, pos + 3))
                } else {
                    Err(ErrorKindView::TruncatedInput)
                }
            } else {
                Err(ErrorKindView::UnknownVerificationTag { tag })
            }
        }
    }

    fn parse(data: &mut Data) -> (r: Result<VerificationTypeInfo, ParseErr>) {
        let tag = data.u1()?;
        match tag {
            0 => Ok(VerificationTypeInfo::Top { tag }),
            1 => Ok(VerificationTypeInfo::Integer { tag }),
            2 => Ok(VerificationTypeInfo::Float { tag }),
            3 => Ok(VerificationTypeInfo::Double { tag }),
            4 => Ok(VerificationTypeInfo::Long { tag }),
            5 => Ok(VerificationTypeInfo::Null { tag }),
            6 => Ok(VerificationTypeInfo::UninitializedThis { tag }),
            7 => {
                let cpool_index = data.cp()?;
                Ok(VerificationTypeInfo::Object { tag, cpool_index })
            },
            8 => {
                let offset = data.u2()?;
                Ok(VerificationTypeInfo::Uninitialized { tag, offset })
            },
            _ => Err(ParseErr::new(ErrorKind::UnknownVerificationTag { tag })),
        }
    }
}

/// The frame of type 255 at `pos`: offset, locals with their count, stack
/// items with theirs.
pub open spec fn spec_parse_full_frame(s: Seq<u8>, pos: int) -> Parsed<StackMapFrameView> {
    if !has_bytes(s, pos + 1, 4) {
        Err(ErrorKindView::TruncatedInput)
    } else {
        match spec_parse_seq::<VerificationTypeInfo>(s, pos + 5, be_u16(s, pos + 3) as nat) {
            Err(e) => Err(e),
            Ok((locals, mid)) => if !has_bytes(s, mid, 2) {
                Err(ErrorKindView::TruncatedInput)
            } else {
                match spec_parse_seq::<VerificationTypeInfo>(s, mid + 2, be_u16(s, mid) as nat) {
                    Err(e) => Err(e),
                    Ok((stack, end)) => Ok(
                        (
                            StackMapFrameView::FullFrame {
                                frame_type: s[pos],
                                offset_delta: be_u16(s, pos + 1),
                                locals,
                                stack,
                            },
                            end,
                        ),
                    ),
                }
            },
        }
    }
}

impl Parse for StackMapFrame {
    /// A type byte that decides the shape of what follows: nothing for
    /// 0 to 63; one verification type for 64 to 127; an offset and one
    /// verification type for 247; an offset for 248 to 251; an offset and
    /// `type - 251` verification types for 252 to 254; a full frame for 255.
    open spec fn spec_parse(s: Seq<u8>, pos: int) -> Parsed<StackMapFrameView> {
        if !has_bytes(s, pos, 1) {
            Err(ErrorKindView::TruncatedInput)
        } else {
            let frame_type = s[pos];
            if frame_type <= 63 {
                Ok((StackMapFrameView::SameFrame { frame_type }, pos + 1))
            } else if frame_type <= 127 {
                match VerificationTypeInfo::spec_parse(s, pos + 1) {
                    Err(e) => Err(e),
                    Ok((stack, end)) => Ok(
                        (StackMapFrameView::SameLocals1StackItemFrame { frame_type, stack }, end),
                    ),
                }
            } else if frame_type < 247 {
                Err(ErrorKindView::UnknownStackFrameType { ty: frame_type })
            } else if !has_bytes(s, pos + 1, 2) {
                Err(ErrorKindView::TruncatedInput)
            } else {
                let offset_delta = be_u16(s, pos + 1);
                if frame_type == 247 {
                    match VerificationTypeInfo::spec_parse(s, pos + 3) {
                        Err(e) => Err(e),
                        Ok((stack, end)) => Ok(
                            (
                                StackMapFrameView::SameLocals1StackItemFrameExtended {
                                    frame_type,
                                    offset_delta,
                                    stack,
                                },
                                end,
                            ),
                        ),
                    }
                } else if frame_type <= 250 {
                    Ok((StackMapFrameView::ChopFrame { frame_type, offset_delta }, pos + 3))
                } else if frame_type == 251 {
                    Ok((StackMapFrameView::SameFrameExtended { frame_type, offset_delta }, pos + 3))
                } else if frame_type <= 254 {
                    match spec_parse_seq::<VerificationTypeInfo>(
                        s,
                        pos + 3,
                        (frame_type - 251) as nat,
                    ) {
                        Err(e) => Err(e),
                        Ok((locals, end)) => Ok(
                            (StackMapFrameView::AppendFrame { frame_type, offset_delta, locals }, end),
                        ),
                    }
                } else {
                    spec_parse_full_frame(s, pos)
                }
            }
        }
    }

    fn parse(data: &mut Data) -> (r: Result<StackMapFrame, ParseErr>) {
        let frame_type = data.u1()?;
        if frame_type <= 63 {
            Ok(StackMapFrame::SameFrame { frame_type })
        } else if frame_type <= 127 {
            let stack = VerificationTypeInfo::parse(data)?;
            Ok(StackMapFrame::SameLocals1StackItemFrame { frame_type, stack })
        } else if frame_type < 247 {
            Err(ParseErr::new(ErrorKind::UnknownStackFrameType { ty: frame_type }))
        } else {
            let offset_delta = data.u2()?;
            if frame_type == 247 {
                let stack = VerificationTypeInfo::parse(data)?;
                Ok(
                    StackMapFrame::SameLocals1StackItemFrameExtended {
                        frame_type,
                        offset_delta,
                        stack,
                    },
                )
            } else if frame_type <= 250 {
                Ok(StackMapFrame::ChopFrame { frame_type, offset_delta })
            } else if frame_type == 251 {
                Ok(StackMapFrame::SameFrameExtended { frame_type, offset_delta })
            } else if frame_type <= 254 {
                let count = (frame_type - 251) as usize;
                let locals = parse_vec::<VerificationTypeInfo>(count, data)?;
                assert(views(locals@) =~= locals@);
                Ok(StackMapFrame::AppendFrame { frame_type, offset_delta, locals })
            } else {
                let number_of_locals = data.u2()?;
                let locals = parse_vec::<VerificationTypeInfo>(number_of_locals as usize, data)?;
                let number_of_stack_items = data.u2()?;
                let stack = parse_vec::<VerificationTypeInfo>(
                    number_of_stack_items as usize,
                    data,
                )?;
                assert(views(locals@) =~= locals@);
                assert(views(stack@) =~= stack@);
                Ok(StackMapFrame::FullFrame { frame_type, offset_delta, locals, stack })
            }
        }
    }
}

} // verus!
