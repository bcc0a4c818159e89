use crate::cursor::{be_u16, be_u32, has_bytes, Data};
use crate::error::{ErrorKindView, ParseErr};
use crate::model::cp_info::FromPool;
use crate::model::views;
use vstd::prelude::*;

pub mod annotation;
pub mod attribute;
pub mod class;
pub mod pool;
pub mod records;
pub mod stack_map;

verus! {

/// What a parser yields at a position of the input: the value and the
/// position behind it, or the failure.
pub type Parsed<V> = Result<(V, int), ErrorKindView>;

/// Whether the outcome `r` of a parser that stopped at `end` is what
/// `expected` asks for: the same value and position, or the same failure.
pub open spec fn yields<T: View>(
    r: Result<T, ParseErr>,
    end: int,
    expected: Parsed<T::V>,
) -> bool {
    match r {
        Ok(v) => expected == Ok::<(T::V, int), ErrorKindView>((v@, end)),
        Err(e) => expected == Err::<(T::V, int), ErrorKindView>(e@),
    }
}

/// As [`yields`], for a parser of several values.
pub open spec fn yields_seq<T: View>(
    r: Result<Vec<T>, ParseErr>,
    end: int,
    expected: Parsed<Seq<T::V>>,
) -> bool {
    match r {
        Ok(v) => expected == Ok::<(Seq<T::V>, int), ErrorKindView>((views(v@), end)),
        Err(e) => expected == Err::<(Seq<T::V>, int), ErrorKindView>(e@),
    }
}

/// Whether the outcome `r` is what `expected` asks for: the same value, or
/// the same failure.
pub open spec fn gives<T: View>(
    r: Result<T, ParseErr>,
    expected: Result<T::V, ErrorKindView>,
) -> bool {
    match r {
        Ok(v) => expected == Ok::<T::V, ErrorKindView>(v@),
        Err(e) => expected == Err::<T::V, ErrorKindView>(e@),
    }
}

/// As [`gives`], for several values.
pub open spec fn gives_seq<T: View>(
    r: Result<Vec<T>, ParseErr>,
    expected: Result<Seq<T::V>, ErrorKindView>,
) -> bool {
    match r {
        Ok(v) => expected == Ok::<Seq<T::V>, ErrorKindView>(views(v@)),
        Err(e) => expected == Err::<Seq<T::V>, ErrorKindView>(e@),
    }
}

/// The result of `outcome` without the position.
pub open spec fn value_of<V>(outcome: Parsed<V>) -> Result<V, ErrorKindView> {
    match outcome {
        Ok((v, _)) => Ok(v),
        Err(e) => Err(e),
    }
}

/// The result `r` with `front` put before the values it yields.
pub open spec fn join<V>(front: Seq<V>, r: Result<Seq<V>, ErrorKindView>) -> Result<
    Seq<V>,
    ErrorKindView,
> {
    match r {
        Ok(rest) => Ok(front + rest),
        Err(e) => Err(e),
    }
}

/// The result of a parse with `front` put before the values it yields.
pub open spec fn prepend<V>(front: Seq<V>, r: Parsed<Seq<V>>) -> Parsed<Seq<V>> {
    match r {
        Ok((rest, end)) => Ok((front + rest, end)),
        Err(e) => Err(e),
    }
}

/// A value with a wire format that does not depend on anything but the bytes.
pub trait Parse: Sized + View {
    /// The value that the bytes of `s` at `pos` encode.
    spec fn spec_parse(s: Seq<u8>, pos: int) -> Parsed<Self::V>;

    /// Reads one value at the cursor.
    fn parse(data: &mut Data) -> (r: Result<Self, ParseErr>)
        ensures
            final(data).bytes() == old(data).bytes(),
            yields(r, final(data).pos(), Self::spec_parse(old(data).bytes(), old(data).pos())),
    ;
}

/// `n` values in a row, starting at `pos`.
pub open spec fn spec_parse_seq<T: Parse>(s: Seq<u8>, pos: int, n: nat) -> Parsed<Seq<T::V>>
    decreases n,
{
    if n == 0 {
        Ok((Seq::empty(), pos))
    } else {
        match T::spec_parse(s, pos) {
            Err(e) => Err(e),
            Ok((first, next)) => prepend(
                seq![first],
                spec_parse_seq::<T>(s, next, (n - 1) as nat),
            ),
        }
    }
}

/// Putting `front` before a result that starts with `first` is putting
/// `front` and `first` before the rest.
pub proof fn lemma_prepend_push<V>(front: Seq<V>, first: V, r: Parsed<Seq<V>>)
    ensures
        prepend(front, prepend(seq![first], r)) == prepend(front.push(first), r),
{
    match r {
        Ok((rest, end)) => {
            assert(front + (seq![first] + rest) =~= front.push(first) + rest);
        },
        Err(e) => {},
    }
}

/// Reads `len` values in a row.
pub fn parse_vec<T: Parse>(len: usize, data: &mut Data) -> (r: Result<Vec<T>, ParseErr>)
    ensures
        final(data).bytes() == old(data).bytes(),
        yields_seq(
            r,
            final(data).pos(),
            spec_parse_seq::<T>(old(data).bytes(), old(data).pos(), len as nat),
        ),
{
    let mut vec: Vec<T> = Vec::new();
    let ghost s = data.bytes();
    let ghost start = data.pos();
    let mut i: usize = 0;
    while i < len
        invariant
            i <= len,
            vec@.len() == i,
            s == old(data).bytes(),
            start == old(data).pos(),
            data.bytes() == s,
            spec_parse_seq::<T>(s, start, len as nat) == prepend(
                views(vec@),
                spec_parse_seq::<T>(s, data.pos(), (len - i) as nat),
            ),
        decreases len - i,
    {
        let ghost before = vec@;
        let item = T::parse(data)?;
        vec.push(item);
        proof {
            assert(views(vec@) =~= views(before).push(item@));
            lemma_prepend_push(
                views(before),
                item@,
                spec_parse_seq::<T>(s, data.pos(), (len - i - 1) as nat),
            );
        }
        i = i + 1;
    }
    assert(views(vec@) + Seq::<T::V>::empty() =~= views(vec@));
    Ok(vec)
}

impl Parse for u8 {
    open spec fn spec_parse(s: Seq<u8>, pos: int) -> Parsed<u8> {
        if has_bytes(s, pos, 1) {
            Ok((s[pos], pos + 1))
        } else {
            Err(ErrorKindView::TruncatedInput)
        }
    }

    fn parse(data: &mut Data) -> (r: Result<u8, ParseErr>) {
        data.u1()
    }
}

impl Parse for u16 {
    open spec fn spec_parse(s: Seq<u8>, pos: int) -> Parsed<u16> {
        if has_bytes(s, pos, 2) {
            Ok((be_u16(s, pos), pos + 2))
        } else {
            Err(ErrorKindView::TruncatedInput)
        }
    }

    fn parse(data: &mut Data) -> (r: Result<u16, ParseErr>) {
        data.u2()
    }
}

impl Parse for u32 {
    open spec fn spec_parse(s: Seq<u8>, pos: int) -> Parsed<u32> {
        if has_bytes(s, pos, 4) {
            Ok((be_u32(s, pos), pos + 4))
        } else {
            Err(ErrorKindView::TruncatedInput)
        }
    }

    fn parse(data: &mut Data) -> (r: Result<u32, ParseErr>) {
        data.u4()
    }
}

impl<T> Parse for FromPool<T> {
    open spec fn spec_parse(s: Seq<u8>, pos: int) -> Parsed<FromPool<T>> {
        if has_bytes(s, pos, 2) {
            Ok((FromPool::spec_new(be_u16(s, pos)), pos + 2))
        } else {
            Err(ErrorKindView::TruncatedInput)
        }
    }

    fn parse(data: &mut Data) -> (r: Result<FromPool<T>, ParseErr>) {
        data.cp()
    }
}

} // verus!
