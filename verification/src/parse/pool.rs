use crate::cursor::{be_u16, be_u32, has_bytes, Data};
use crate::error::{ErrorKind, ErrorKindView, ParseErr};
use crate::model::cp_info;
use crate::model::cp_info::FromPool;
use crate::model::{views, CpInfo, CpInfoInner, CpInfoInnerView, CpInfoView};
use crate::parse::{prepend, Parse, Parsed};
use vstd::prelude::*;
use vstd::slice::slice_to_vec;
use vstd::utf8::{decode_utf8, valid_utf8};

verus! {

/// `String::from_utf8` of std, taken on trust: where `bytes` are valid
/// UTF-8, the result is the text that they encode, character by character;
/// where they are not, there is none.
#[verifier::external_body]
fn string_from_utf8(bytes: Vec<u8>) -> (r: Option<String>)
    ensures
        match r {
            Some(text) => valid_utf8(bytes@) && text@ == decode_utf8(bytes@),
            None => !valid_utf8(bytes@),
        },
{
    match String::from_utf8(bytes) {
        Ok(text) => Some(text),
        Err(_) => None,
    }
}

/// The entry with one pool reference behind the tag byte at `pos`.
pub open spec fn spec_parse_one_ref(
    s: Seq<u8>,
    pos: int,
    make: spec_fn(u16) -> CpInfoInnerView,
) -> Parsed<CpInfoInnerView> {
    if has_bytes(s, pos + 1, 2) {
        Ok((make(be_u16(s, pos + 1)), pos + 3))
    } else {
        Err(ErrorKindView::TruncatedInput)
    }
}

/// The entry with two 16-bit numbers behind the tag byte at `pos`.
pub open spec fn spec_parse_two_refs(
    s: Seq<u8>,
    pos: int,
    make: spec_fn(u16, u16) -> CpInfoInnerView,
) -> Parsed<CpInfoInnerView> {
    if has_bytes(s, pos + 1, 4) {
        Ok((make(be_u16(s, pos + 1), be_u16(s, pos + 3)), pos + 5))
    } else {
        Err(ErrorKindView::TruncatedInput)
    }
}

/// The `Utf8` entry behind the tag byte at `pos`: a 16-bit length and that
/// many bytes, which must be valid UTF-8.
pub open spec fn spec_parse_utf8(s: Seq<u8>, pos: int) -> Parsed<CpInfoInnerView> {
    if !has_bytes(s, pos + 1, 2) {
        Err(ErrorKindView::TruncatedInput)
    } else {
        let length = be_u16(s, pos + 1) as int;
        if !has_bytes(s, pos + 3, length) {
            Err(ErrorKindView::TruncatedInput)
        } else {
            let payload = s.subrange(pos + 3, pos + 3 + length);
            if valid_utf8(payload) {
                Ok((CpInfoInnerView::Utf8(decode_utf8(payload)), pos + 3 + length))
            } else {
                Err(ErrorKindView::InvalidUtf8)
            }
        }
    }
}

/// What a method handle of the given kind refers to, for the index given.
pub open spec fn spec_method_handle_index(kind: u8, index: u16) -> cp_info::MethodHandleIndex {
    if kind <= 4 {
        cp_info::MethodHandleIndex::Field(FromPool::spec_new(index))
    } else if kind <= 8 {
        cp_info::MethodHandleIndex::Method(FromPool::spec_new(index))
    } else {
        cp_info::MethodHandleIndex::Interface(FromPool::spec_new(index))
    }
}

/// The `MethodHandle` entry behind the tag byte at `pos`: a kind byte,
/// which must be one of 1 to 9, and a pool reference.
pub open spec fn spec_parse_method_handle(s: Seq<u8>, pos: int) -> Parsed<CpInfoInnerView> {
    if !has_bytes(s, pos + 1, 1) {
        Err(ErrorKindView::TruncatedInput)
    } else {
        let kind = s[pos + 1];
        if kind < 1 || kind > 9 {
            Err(ErrorKindView::BadMethodHandleKind { kind })
        } else if !has_bytes(s, pos + 2, 2) {
            Err(ErrorKindView::TruncatedInput)
        } else {
            Ok(
                (
                    CpInfoInnerView::MethodHandle(
                        cp_info::MethodHandle {
                            reference_kind: kind,
                            reference_index: spec_method_handle_index(kind, be_u16(s, pos + 2)),
                        },
                    ),
                    pos + 4,
                ),
            )
        }
    }
}

/// The entry whose tag byte stands at `pos`, without the tag.
pub open spec fn spec_parse_entry(s: Seq<u8>, pos: int) -> Parsed<CpInfoInnerView> {
    if !has_bytes(s, pos, 1) {
        Err(ErrorKindView::TruncatedInput)
    } else {
        let tag = s[pos];
        if tag == 1 {
            spec_parse_utf8(s, pos)
        } else if tag == 3 {
            if has_bytes(s, pos + 1, 4) {
                Ok(
                    (
                        CpInfoInnerView::Integer(cp_info::Integer { bytes: be_u32(s, pos + 1) }),
                        pos + 5,
                    ),
                )
            } else {
                Err(ErrorKindView::TruncatedInput)
            }
        } else if tag == 4 {
            if has_bytes(s, pos + 1, 4) {
                Ok(
                    (
                        CpInfoInnerView::Float(cp_info::Float { bytes: be_u32(s, pos + 1) }),
                        pos + 5,
                    ),
                )
            } else {
                Err(ErrorKindView::TruncatedInput)
            }
        } else if tag == 5 {
            if has_bytes(s, pos + 1, 8) {
                Ok(
                    (
                        CpInfoInnerView::Long(
                            cp_info::Long {
                                high_bytes: be_u32(s, pos + 1),
                                low_bytes: be_u32(s, pos + 5),
                            },
                        ),
                        pos + 9,
                    ),
                )
            } else {
                Err(ErrorKindView::TruncatedInput)
            }
        } else if tag == 6 {
            if has_bytes(s, pos + 1, 8) {
                Ok(
                    (
                        CpInfoInnerView::Double(
                            cp_info::Double {
                                high_bytes: be_u32(s, pos + 1),
                                low_bytes: be_u32(s, pos + 5),
                            },
                        ),
                        pos + 9,
                    ),
                )
            } else {
                Err(ErrorKindView::TruncatedInput)
            }
        } else if tag == 7 {
            spec_parse_one_ref(
                s,
                pos,
                |n: u16| CpInfoInnerView::Class(cp_info::Class { name_index: FromPool::spec_new(n) }),
            )
        } else if tag == 8 {
            spec_parse_one_ref(
                s,
                pos,
                |n: u16|
                    CpInfoInnerView::String(cp_info::String { string_index: FromPool::spec_new(n) }),
            )
        } else if tag == 9 {
            spec_parse_two_refs(
                s,
                pos,
                |c: u16, n: u16|
                    CpInfoInnerView::Fieldref(
                        cp_info::Fieldref {
                            class_index: FromPool::spec_new(c),
                            name_and_type_index: FromPool::spec_new(n),
                        },
                    ),
            )
        } else if tag == 10 {
            spec_parse_two_refs(
                s,
                pos,
                |c: u16, n: u16|
                    CpInfoInnerView::MethodRef(
                        cp_info::MethodRef {
                            class_index: FromPool::spec_new(c),
                            name_and_type_index: FromPool::spec_new(n),
                        },
                    ),
            )
        } else if tag == 11 {
            spec_parse_two_refs(
                s,
                pos,
                |c: u16, n: u16|
                    CpInfoInnerView::InterfaceMethodref(
                        cp_info::InterfaceMethodref {
                            class_index: FromPool::spec_new(c),
                            name_and_type_index: FromPool::spec_new(n),
                        },
                    ),
            )
        } else if tag == 12 {
            spec_parse_two_refs(
                s,
                pos,
                |n: u16, d: u16|
                    CpInfoInnerView::NameAndType(
                        cp_info::NameAndType {
                            name_index: FromPool::spec_new(n),
                            descriptor_index: FromPool::spec_new(d),
                        },
                    ),
            )
        } else if tag == 15 {
            spec_parse_method_handle(s, pos)
        } else if tag == 16 {
            spec_parse_one_ref(
                s,
                pos,
                |n: u16|
                    CpInfoInnerView::MethodType(
                        cp_info::MethodType { descriptor_index: FromPool::spec_new(n) },
                    ),
            )
        } else if tag == 17 {
            spec_parse_two_refs(
                s,
                pos,
                |b: u16, n: u16|
                    CpInfoInnerView::Dynamic(
                        cp_info::Dynamic {
                            bootstrap_method_attr_index: b,
                            name_and_type_index: FromPool::spec_new(n),
                        },
                    ),
            )
        } else if tag == 18 {
            spec_parse_two_refs(
                s,
                pos,
                |b: u16, n: u16|
                    CpInfoInnerView::InvokeDynamic(
                        cp_info::InvokeDynamic {
                            bootstrap_method_attr_index: b,
                            name_and_type_index: FromPool::spec_new(n),
                        },
                    ),
            )
        } else if tag == 19 {
            spec_parse_one_ref(
                s,
                pos,
                |n: u16|
                    CpInfoInnerView::Module(cp_info::Module { name_index: FromPool::spec_new(n) }),
            )
        } else if tag == 20 {
            spec_parse_one_ref(
                s,
                pos,
                |n: u16|
                    CpInfoInnerView::Package(cp_info::Package { name_index: FromPool::spec_new(n) }),
            )
        } else {
            Err(ErrorKindView::UnknownPoolTag { tag })
        }
    }
}

impl Parse for CpInfo {
    /// A tag byte and the entry that the tag selects.
    open spec fn spec_parse(s: Seq<u8>, pos: int) -> Parsed<CpInfoView> {
        match spec_parse_entry(s, pos) {
            Ok((inner, end)) => Ok((CpInfoView { tag: s[pos], inner }, end)),
            Err(e) => Err(e),
        }
    }

    fn parse(data: &mut Data) -> (r: Result<CpInfo, ParseErr>) {
        let tag = data.u1()?;
        let inner = match tag {
            1 => {
                let length = data.u2()?;
                let payload = data.take(length as usize)?;
                match string_from_utf8(slice_to_vec(payload)) {
                    Some(bytes) => CpInfoInner::Utf8(cp_info::Utf8 { bytes }),
                    None => {
                        return Err(ParseErr::new(ErrorKind::InvalidUtf8));
                    },
                }
            },
            3 => CpInfoInner::Integer(cp_info::Integer { bytes: data.u4()? }),
            4 => CpInfoInner::Float(cp_info::Float { bytes: data.u4()? }),
            5 => {
                let high_bytes = data.u4()?;
                let low_bytes = data.u4()?;
                CpInfoInner::Long(cp_info::Long { high_bytes, low_bytes })
            },
            6 => {
                let high_bytes = data.u4()?;
                let low_bytes = data.u4()?;
                CpInfoInner::Double(cp_info::Double { high_bytes, low_bytes })
            },
            7 => CpInfoInner::Class(cp_info::Class { name_index: data.cp()? }),
            8 => CpInfoInner::String(cp_info::String { string_index: data.cp()? }),
            9 => {
                let class_index = data.cp()?;
                let name_and_type_index = data.cp()?;
                CpInfoInner::Fieldref(cp_info::Fieldref { class_index, name_and_type_index })
            },
            10 => {
                let class_index = data.cp()?;
                let name_and_type_index = data.cp()?;
                CpInfoInner::MethodRef(cp_info::MethodRef { class_index, name_and_type_index })
            },
            11 => {
                let class_index = data.cp()?;
                let name_and_type_index = data.cp()?;
                CpInfoInner::InterfaceMethodref(
                    cp_info::InterfaceMethodref { class_index, name_and_type_index },
                )
            },
            12 => {
                let name_index = data.cp()?;
                let descriptor_index = data.cp()?;
                CpInfoInner::NameAndType(cp_info::NameAndType { name_index, descriptor_index })
            },
            15 => {
                let reference_kind = data.u1()?;
                if reference_kind < 1 || reference_kind > 9 {
                    return Err(
                        ParseErr::new(ErrorKind::BadMethodHandleKind { kind: reference_kind }),
                    );
                }
                let reference_index = if reference_kind <= 4 {
                    cp_info::MethodHandleIndex::Field(data.cp()?)
                } else if reference_kind <= 8 {
                    cp_info::MethodHandleIndex::Method(data.cp()?)
                } else {
                    cp_info::MethodHandleIndex::Interface(data.cp()?)
                };
                CpInfoInner::MethodHandle(cp_info::MethodHandle { reference_kind, reference_index })
            },
            16 => CpInfoInner::MethodType(cp_info::MethodType { descriptor_index: data.cp()? }),
            17 => {
                let bootstrap_method_attr_index = data.u2()?;
                let name_and_type_index = data.cp()?;
                CpInfoInner::Dynamic(
                    cp_info::Dynamic { bootstrap_method_attr_index, name_and_type_index },
                )
            },
            18 => {
                let bootstrap_method_attr_index = data.u2()?;
                let name_and_type_index = data.cp()?;
                CpInfoInner::InvokeDynamic(
                    cp_info::InvokeDynamic { bootstrap_method_attr_index, name_and_type_index },
                )
            },
            19 => CpInfoInner::Module(cp_info::Module { name_index: data.cp()? }),
            20 => CpInfoInner::Package(cp_info::Package { name_index: data.cp()? }),
            _ => {
                return Err(ParseErr::new(ErrorKind::UnknownPoolTag { tag }));
            },
        };
        Ok(CpInfo { tag, inner })
    }
}

/// The reserved slot behind an eight-byte constant.
pub open spec fn reserved_slot() -> CpInfoView {
    CpInfoView { tag: 0, inner: CpInfoInnerView::Reserved }
}

/// The constant pool at `pos`, for `slots` slots that are still to fill.
///
/// An entry fills one slot; a `Long` or a `Double` fills two, the second by
/// a reserved slot that is not read from the input. An eight-byte constant
/// in the last slot has no room for its second half: `OutOfBoundsIndex`.
pub open spec fn spec_parse_pool(s: Seq<u8>, pos: int, slots: nat) -> Parsed<Seq<CpInfoView>>
    decreases slots,
{
    if slots == 0 {
        Ok((Seq::empty(), pos))
    } else {
        match CpInfo::spec_parse(s, pos) {
            Err(e) => Err(e),
            Ok((entry, next)) => if entry.inner.is_wide() {
                if slots < 2 {
                    Err(ErrorKindView::OutOfBoundsIndex)
                } else {
                    prepend(seq![entry, reserved_slot()], spec_parse_pool(s, next, (slots - 2) as nat))
                }
            } else {
                prepend(seq![entry], spec_parse_pool(s, next, (slots - 1) as nat))
            },
        }
    }
}

/// The number of slots of a pool whose count is `count` in the file: one
/// less, since slots count from one.
pub open spec fn pool_slots(count: u16) -> nat {
    if count == 0 {
        0
    } else {
        (count - 1) as nat
    }
}

/// Reads the constant pool of a class file whose count field is `count`.
pub fn parse_constant_pool(count: u16, data: &mut Data) -> (r: Result<Vec<CpInfo>, ParseErr>)
    ensures
        final(data).bytes() == old(data).bytes(),
        crate::parse::yields_seq(
            r,
            final(data).pos(),
            spec_parse_pool(old(data).bytes(), old(data).pos(), pool_slots(count)),
        ),
        r matches Ok(pool) ==> pool@.len() == pool_slots(count) && slots_are_paired(views(pool@)),
{
    proof {
        lemma_pool_slots(data.bytes(), data.pos(), pool_slots(count));
    }
    let slots: usize = if count == 0 {
        0
    } else {
        (count - 1) as usize
    };
    let mut pool: Vec<CpInfo> = Vec::new();
    let ghost s = data.bytes();
    let ghost start = data.pos();
    while pool.len() < slots
        invariant
            s == old(data).bytes(),
            start == old(data).pos(),
            data.bytes() == s,
            slots == pool_slots(count),
            pool@.len() <= slots,
            spec_parse_pool(s, start, slots as nat) == prepend(
                views(pool@),
                spec_parse_pool(s, data.pos(), (slots - pool@.len()) as nat),
            ),
        decreases slots - pool@.len(),
    {
        let ghost before = pool@;
        let ghost left = (slots - pool@.len()) as nat;
        let ghost rest = spec_parse_pool(s, data.pos(), left);
        let entry = CpInfo::parse(data)?;
        if entry.inner.is_wide() {
            if slots - pool.len() < 2 {
                return Err(ParseErr::new(ErrorKind::OutOfBoundsIndex));
            }
            pool.push(entry);
            pool.push(CpInfo { tag: 0, inner: CpInfoInner::Reserved });
            proof {
                let tail = spec_parse_pool(s, data.pos(), (left - 2) as nat);
                assert(views(pool@) =~= views(before) + seq![entry@, reserved_slot()]);
                if tail is Ok {
                    assert(views(before) + (seq![entry@, reserved_slot()] + tail->Ok_0.0) =~= views(
                        pool@,
                    ) + tail->Ok_0.0);
                }
            }
        } else {
            pool.push(entry);
            proof {
                let tail = spec_parse_pool(s, data.pos(), (left - 1) as nat);
                assert(views(pool@) =~= views(before) + seq![entry@]);
                if tail is Ok {
                    assert(views(before) + (seq![entry@] + tail->Ok_0.0) =~= views(pool@)
                        + tail->Ok_0.0);
                }
            }
        }
    }
    assert(views(pool@) + Seq::<CpInfoView>::empty() =~= views(pool@));
    Ok(pool)
}

/// Whether the slots of a pool are laid out as the format asks: each `Long`
/// and each `Double` is followed by a reserved slot, and a reserved slot
/// stands nowhere else.
pub open spec fn slots_are_paired(pool: Seq<CpInfoView>) -> bool {
    &&& forall|i: int|
        0 <= i < pool.len() && (#[trigger] pool[i]).inner.is_wide() ==> i + 1 < pool.len() && pool[i
            + 1].inner is Reserved
    &&& forall|i: int|
        0 <= i < pool.len() && (#[trigger] pool[i]).inner is Reserved ==> i > 0 && pool[i
            - 1].inner.is_wide()
}

/// An entry that is read from the input is never a reserved slot.
pub proof fn lemma_entry_is_not_reserved(s: Seq<u8>, pos: int)
    ensures
        CpInfo::spec_parse(s, pos) matches Ok((entry, _)) ==> !(entry.inner is Reserved),
{
}

/// A pool that parses has as many slots as its count asks for, and every
/// eight-byte constant in it has its reserved slot behind it.
pub proof fn lemma_pool_slots(s: Seq<u8>, pos: int, slots: nat)
    ensures
        spec_parse_pool(s, pos, slots) matches Ok((pool, _)) ==> {
            &&& pool.len() == slots
            &&& slots_are_paired(pool)
        },
    decreases slots,
{
    if slots > 0 {
        lemma_entry_is_not_reserved(s, pos);
        match CpInfo::spec_parse(s, pos) {
            Ok((entry, next)) => {
                if entry.inner.is_wide() {
                    if slots >= 2 {
                        lemma_pool_slots(s, next, (slots - 2) as nat);
                        match spec_parse_pool(s, next, (slots - 2) as nat) {
                            Ok((rest, _)) => {
                                let pool = seq![entry, reserved_slot()] + rest;
                                assert forall|i: int|
                                    0 <= i < pool.len() && (#[trigger] pool[i]).inner.is_wide() implies i
                                    + 1 < pool.len() && pool[i + 1].inner is Reserved by {
                                    if i >= 2 {
                                        assert(pool[i] == rest[i - 2]);
                                        assert(pool[i + 1] == rest[i - 1]);
                                    }
                                }
                                assert forall|i: int|
                                    0 <= i < pool.len() && (#[trigger] pool[i]).inner is Reserved implies i
                                    > 0 && pool[i - 1].inner.is_wide() by {
                                    if i >= 2 {
                                        assert(pool[i] == rest[i - 2]);
                                        if i >= 3 {
                                            assert(pool[i - 1] == rest[i - 3]);
                                        }
                                    }
                                }
                            },
                            Err(_) => {},
                        }
                    }
                } else {
                    lemma_pool_slots(s, next, (slots - 1) as nat);
                    match spec_parse_pool(s, next, (slots - 1) as nat) {
                        Ok((rest, _)) => {
                            let pool = seq![entry] + rest;
                            assert forall|i: int|
                                0 <= i < pool.len() && (#[trigger] pool[i]).inner.is_wide() implies i
                                + 1 < pool.len() && pool[i + 1].inner is Reserved by {
                                if i >= 1 {
                                    assert(pool[i] == rest[i - 1]);
                                    assert(pool[i + 1] == rest[i]);
                                }
                            }
                            assert forall|i: int|
                                0 <= i < pool.len() && (#[trigger] pool[i]).inner is Reserved implies i
                                > 0 && pool[i - 1].inner.is_wide() by {
                                if i >= 1 {
                                    assert(pool[i] == rest[i - 1]);
                                    if i >= 2 {
                                        assert(pool[i - 1] == rest[i - 2]);
                                    }
                                }
                            }
                        },
                        Err(_) => {},
                    }
                }
            },
            Err(_) => {},
        }
    }
}

} // verus!
