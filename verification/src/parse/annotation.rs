use crate::cursor::{be_u16, has_bytes, Data};
use crate::error::{ErrorKind, ErrorKindView, ParseErr};
use crate::model::attribute::{
    Annotation, AnnotationElementValue, AnnotationElementValuePair,
    AnnotationElementValuePairView, AnnotationElementValueValue, AnnotationElementValueValueView,
    AnnotationElementValueView, AnnotationView, ParameterAnnotation, ParameterAnnotationView,
};
use crate::model::cp_info::FromPool;
use crate::model::views;
use crate::parse::{lemma_prepend_push, prepend, yields, yields_seq, Parsed};
use vstd::prelude::*;

verus! {

/// Whether `tag` marks an element value that is a constant of the pool:
/// one of `B C D F I J S Z s`.
pub open spec fn spec_is_const_tag(tag: u8) -> bool {
    tag == 66 || tag == 67 || tag == 68 || tag == 70 || tag == 73 || tag == 74 || tag == 83 || tag
        == 90 || tag == 115
}

/// Whether `tag` marks an element value that is a constant of the pool.
pub fn is_const_tag(tag: u8) -> (b: bool)
    ensures
        b == spec_is_const_tag(tag),
{
    tag == 66 || tag == 67 || tag == 68 || tag == 70 || tag == 73 || tag == 74 || tag == 83 || tag
        == 90 || tag == 115
}

/// The annotation at `pos`: a type, a count, and that many element-value
/// pairs. `depth` is how many more levels of nesting are followed.
pub open spec fn spec_parse_annotation(s: Seq<u8>, pos: int, depth: nat) -> Parsed<AnnotationView>
    decreases depth, 3nat, 0nat,
{
    if !has_bytes(s, pos, 4) {
        Err(ErrorKindView::TruncatedInput)
    } else {
        match spec_parse_pairs(s, pos + 4, be_u16(s, pos + 2) as nat, depth) {
            Err(e) => Err(e),
            Ok((pairs, end)) => Ok(
                (
                    AnnotationView {
                        type_index: FromPool::spec_new(be_u16(s, pos)),
                        num_element_value_pairs: be_u16(s, pos + 2),
                        element_value_pairs: pairs,
                    },
                    end,
                ),
            ),
        }
    }
}

/// `n` element-value pairs in a row.
pub open spec fn spec_parse_pairs(s: Seq<u8>, pos: int, n: nat, depth: nat) -> Parsed<
    Seq<AnnotationElementValuePairView>,
>
    decreases depth, 2nat, n,
{
    if n == 0 {
        Ok((Seq::empty(), pos))
    } else {
        match spec_parse_pair(s, pos, depth) {
            Err(e) => Err(e),
            Ok((first, next)) => prepend(
                seq![first],
                spec_parse_pairs(s, next, (n - 1) as nat, depth),
            ),
        }
    }
}

/// The element-value pair at `pos`: the name of the element and its value.
pub open spec fn spec_parse_pair(s: Seq<u8>, pos: int, depth: nat) -> Parsed<
    AnnotationElementValuePairView,
>
    decreases depth, 1nat, 0nat,
{
    if !has_bytes(s, pos, 2) {
        Err(ErrorKindView::TruncatedInput)
    } else {
        match spec_parse_element_value(s, pos + 2, depth) {
            Err(e) => Err(e),
            Ok((value, end)) => Ok(
                (
                    AnnotationElementValuePairView {
                        element_name_index: FromPool::spec_new(be_u16(s, pos)),
                        element_name_name: value,
                    },
                    end,
                ),
            ),
        }
    }
}

/// The element value at `pos`: a tag byte and what the tag selects.
pub open spec fn spec_parse_element_value(s: Seq<u8>, pos: int, depth: nat) -> Parsed<
    AnnotationElementValueView,
>
    decreases depth, 0nat, 1nat,
{
    if !has_bytes(s, pos, 1) {
        Err(ErrorKindView::TruncatedInput)
    } else {
        match spec_parse_value(s, pos + 1, depth) {
            Err(e) => Err(e),
            Ok((value, end)) => Ok((AnnotationElementValueView { tag: s[pos], value }, end)),
        }
    }
}

/// What follows the tag byte of an element value, for the tag that stands
/// just before `pos`: a pool reference for the constant tags; two for `e`;
/// one for `c`; an annotation for `@`; a count and that many element values
/// for `[`. The last two go one level down, and fail with `NestingTooDeep`
/// where `depth` is zero.
pub open spec fn spec_parse_value(s: Seq<u8>, pos: int, depth: nat) -> Parsed<
    AnnotationElementValueValueView,
>
    decreases depth, 0nat, 0nat,
{
    if pos < 1 {
        Err(ErrorKindView::TruncatedInput)
    } else {
        let tag = s[pos - 1];
        if spec_is_const_tag(tag) {
            if has_bytes(s, pos, 2) {
                Ok(
                    (
                        AnnotationElementValueValueView::ConstValueIndex {
                            index: FromPool::spec_new(be_u16(s, pos)),
                        },
                        pos + 2,
                    ),
                )
            } else {
                Err(ErrorKindView::TruncatedInput)
            }
        } else if tag == 101 {
            if has_bytes(s, pos, 4) {
                Ok(
                    (
                        AnnotationElementValueValueView::EnumConstValue {
                            type_name_index: FromPool::spec_new(be_u16(s, pos)),
                            const_name_index: FromPool::spec_new(be_u16(s, pos + 2)),
                        },
                        pos + 4,
                    ),
                )
            } else {
                Err(ErrorKindView::TruncatedInput)
            }
        } else if tag == 99 {
            if has_bytes(s, pos, 2) {
                Ok(
                    (
                        AnnotationElementValueValueView::ClassInfoIndex {
                            index: FromPool::spec_new(be_u16(s, pos)),
                        },
                        pos + 2,
                    ),
                )
            } else {
                Err(ErrorKindView::TruncatedInput)
            }
        } else if tag == 64 {
            if depth == 0 {
                Err(ErrorKindView::NestingTooDeep)
            } else {
                match spec_parse_annotation(s, pos, (depth - 1) as nat) {
                    Err(e) => Err(e),
                    Ok((annotation, end)) => Ok(
                        (
                            AnnotationElementValueValueView::AnnotationValue {
                                annotation: Box::new(annotation),
                            },
                            end,
                        ),
                    ),
                }
            }
        } else if tag == 91 {
            if depth == 0 {
                Err(ErrorKindView::NestingTooDeep)
            } else if !has_bytes(s, pos, 2) {
                Err(ErrorKindView::TruncatedInput)
            } else {
                match spec_parse_element_values(
                    s,
                    pos + 2,
                    be_u16(s, pos) as nat,
                    (depth - 1) as nat,
                ) {
                    Err(e) => Err(e),
                    Ok((values, end)) => Ok(
                        (AnnotationElementValueValueView::ArrayValue { values }, end),
                    ),
                }
            }
        } else {
            Err(ErrorKindView::UnknownAnnotationValueTag { ch: tag })
        }
    }
}

/// `n` element values in a row.
pub open spec fn spec_parse_element_values(s: Seq<u8>, pos: int, n: nat, depth: nat) -> Parsed<
    Seq<AnnotationElementValueView>,
>
    decreases depth, 1nat, n,
{
    if n == 0 {
        Ok((Seq::empty(), pos))
    } else {
        match spec_parse_element_value(s, pos, depth) {
            Err(e) => Err(e),
            Ok((first, next)) => prepend(
                seq![first],
                spec_parse_element_values(s, next, (n - 1) as nat, depth),
            ),
        }
    }
}

/// `n` annotations in a row.
pub open spec fn spec_parse_annotations(s: Seq<u8>, pos: int, n: nat, depth: nat) -> Parsed<
    Seq<AnnotationView>,
>
    decreases n,
{
    if n == 0 {
        Ok((Seq::empty(), pos))
    } else {
        match spec_parse_annotation(s, pos, depth) {
            Err(e) => Err(e),
            Ok((first, next)) => prepend(
                seq![first],
                spec_parse_annotations(s, next, (n - 1) as nat, depth),
            ),
        }
    }
}

/// The annotations of one parameter at `pos`: a count and that many annotations.
pub open spec fn spec_parse_parameter_annotation(s: Seq<u8>, pos: int, depth: nat) -> Parsed<
    ParameterAnnotationView,
> {
    if !has_bytes(s, pos, 2) {
        Err(ErrorKindView::TruncatedInput)
    } else {
        match spec_parse_annotations(s, pos + 2, be_u16(s, pos) as nat, depth) {
            Err(e) => Err(e),
            Ok((annotations, end)) => Ok((ParameterAnnotationView { annotations }, end)),
        }
    }
}

/// The annotations of `n` parameters in a row.
pub open spec fn spec_parse_parameter_annotations(
    s: Seq<u8>,
    pos: int,
    n: nat,
    depth: nat,
) -> Parsed<Seq<ParameterAnnotationView>>
    decreases n,
{
    if n == 0 {
        Ok((Seq::empty(), pos))
    } else {
        match spec_parse_parameter_annotation(s, pos, depth) {
            Err(e) => Err(e),
            Ok((first, next)) => prepend(
                seq![first],
                spec_parse_parameter_annotations(s, next, (n - 1) as nat, depth),
            ),
        }
    }
}

impl Annotation {
    /// Reads one annotation, following at most `depth` levels of nesting below it.
    pub fn parse(data: &mut Data, depth: usize) -> (r: Result<Annotation, ParseErr>)
        ensures
            final(data).bytes() == old(data).bytes(),
            yields(
                r,
                final(data).pos(),
                spec_parse_annotation(old(data).bytes(), old(data).pos(), depth as nat),
            ),
        decreases depth, 3nat, 0nat,
    {
        let type_index = data.cp()?;
        let num_element_value_pairs = data.u2()?;
        let element_value_pairs = parse_pairs(data, num_element_value_pairs as usize, depth)?;
        let annotation = Annotation { type_index, num_element_value_pairs, element_value_pairs };
        assert(annotation@.element_value_pairs =~= views(annotation.element_value_pairs@));
        Ok(annotation)
    }
}

/// Reads `n` element-value pairs in a row.
pub fn parse_pairs(data: &mut Data, n: usize, depth: usize) -> (r: Result<
    Vec<AnnotationElementValuePair>,
    ParseErr,
>)
    ensures
        final(data).bytes() == old(data).bytes(),
        yields_seq(
            r,
            final(data).pos(),
            spec_parse_pairs(old(data).bytes(), old(data).pos(), n as nat, depth as nat),
        ),
    decreases depth, 2nat, n,
{
    let mut pairs: Vec<AnnotationElementValuePair> = Vec::new();
    let ghost s = data.bytes();
    let ghost start = data.pos();
    let mut i: usize = 0;
    while i < n
        invariant
            i <= n,
            s == old(data).bytes(),
            start == old(data).pos(),
            data.bytes() == s,
            spec_parse_pairs(s, start, n as nat, depth as nat) == prepend(
                views(pairs@),
                spec_parse_pairs(s, data.pos(), (n - i) as nat, depth as nat),
            ),
        decreases n - i,
    {
        let ghost before = pairs@;
        let pair = AnnotationElementValuePair::parse(data, depth)?;
        pairs.push(pair);
        proof {
            assert(views(pairs@) =~= views(before).push(pair@));
            lemma_prepend_push(
                views(before),
                pair@,
                spec_parse_pairs(s, data.pos(), (n - i - 1) as nat, depth as nat),
            );
        }
        i = i + 1;
    }
    assert(views(pairs@) + Seq::<AnnotationElementValuePairView>::empty() =~= views(pairs@));
    Ok(pairs)
}

impl AnnotationElementValuePair {
    /// Reads one element-value pair.
    pub fn parse(data: &mut Data, depth: usize) -> (r: Result<AnnotationElementValuePair, ParseErr>)
        ensures
            final(data).bytes() == old(data).bytes(),
            yields(
                r,
                final(data).pos(),
                spec_parse_pair(old(data).bytes(), old(data).pos(), depth as nat),
            ),
        decreases depth, 1nat, 0nat,
    {
        let element_name_index = data.cp()?;
        let element_name_name = AnnotationElementValue::parse(data, depth)?;
        Ok(AnnotationElementValuePair { element_name_index, element_name_name })
    }
}

impl AnnotationElementValue {
    /// Reads one element value.
    pub fn parse(data: &mut Data, depth: usize) -> (r: Result<AnnotationElementValue, ParseErr>)
        ensures
            final(data).bytes() == old(data).bytes(),
            yields(
                r,
                final(data).pos(),
                spec_parse_element_value(old(data).bytes(), old(data).pos(), depth as nat),
            ),
        decreases depth, 0nat, 1nat,
    {
        let tag = data.u1()?;
        let value = AnnotationElementValueValue::parse(data, depth)?;
        Ok(AnnotationElementValue { tag, value })
    }
}

impl AnnotationElementValueValue {
    /// Reads what follows the tag byte of an element value. The tag is the
    /// byte that the cursor read last.
    pub fn parse(data: &mut Data, depth: usize) -> (r: Result<
        AnnotationElementValueValue,
        ParseErr,
    >)
        ensures
            final(data).bytes() == old(data).bytes(),
            yields(
                r,
                final(data).pos(),
                spec_parse_value(old(data).bytes(), old(data).pos(), depth as nat),
            ),
        decreases depth, 0nat, 0nat,
    {
        let tag = data.last_u1()?;
        if is_const_tag(tag) {
            Ok(AnnotationElementValueValue::ConstValueIndex { index: data.cp()? })
        } else if tag == 101 {
            let type_name_index = data.cp()?;
            let const_name_index = data.cp()?;
            Ok(AnnotationElementValueValue::EnumConstValue { type_name_index, const_name_index })
        } else if tag == 99 {
            Ok(AnnotationElementValueValue::ClassInfoIndex { index: data.cp()? })
        } else if tag == 64 {
            if depth == 0 {
                return Err(ParseErr::new(ErrorKind::NestingTooDeep));
            }
            let annotation = Annotation::parse(data, depth - 1)?;
            Ok(AnnotationElementValueValue::AnnotationValue { annotation: Box::new(annotation) })
        } else if tag == 91 {
            if depth == 0 {
                return Err(ParseErr::new(ErrorKind::NestingTooDeep));
            }
            let count = data.u2()?;
            let values = parse_element_values(data, count as usize, depth - 1)?;
            let value = AnnotationElementValueValue::ArrayValue { values };
            assert(value@->ArrayValue_values =~= views(value->ArrayValue_values@));
            Ok(value)
        } else {
            Err(ParseErr::new(ErrorKind::UnknownAnnotationValueTag { ch: tag }))
        }
    }
}

/// Reads `n` element values in a row.
pub fn parse_element_values(data: &mut Data, n: usize, depth: usize) -> (r: Result<
    Vec<AnnotationElementValue>,
    ParseErr,
>)
    ensures
        final(data).bytes() == old(data).bytes(),
        yields_seq(
            r,
            final(data).pos(),
            spec_parse_element_values(old(data).bytes(), old(data).pos(), n as nat, depth as nat),
        ),
    decreases depth, 1nat, n,
{
    let mut values: Vec<AnnotationElementValue> = Vec::new();
    let ghost s = data.bytes();
    let ghost start = data.pos();
    let mut i: usize = 0;
    while i < n
        invariant
            i <= n,
            s == old(data).bytes(),
            start == old(data).pos(),
            data.bytes() == s,
            spec_parse_element_values(s, start, n as nat, depth as nat) == prepend(
                views(values@),
                spec_parse_element_values(s, data.pos(), (n - i) as nat, depth as nat),
            ),
        decreases n - i,
    {
        let ghost before = values@;
        let value = AnnotationElementValue::parse(data, depth)?;
        values.push(value);
        proof {
            assert(views(values@) =~= views(before).push(value@));
            lemma_prepend_push(
                views(before),
                value@,
                spec_parse_element_values(s, data.pos(), (n - i - 1) as nat, depth as nat),
            );
        }
        i = i + 1;
    }
    assert(views(values@) + Seq::<AnnotationElementValueView>::empty() =~= views(values@));
    Ok(values)
}

/// Reads `n` annotations in a row.
pub fn parse_annotations(data: &mut Data, n: usize, depth: usize) -> (r: Result<
    Vec<Annotation>,
    ParseErr,
>)
    ensures
        final(data).bytes() == old(data).bytes(),
        yields_seq(
            r,
            final(data).pos(),
            spec_parse_annotations(old(data).bytes(), old(data).pos(), n as nat, depth as nat),
        ),
{
    let mut annotations: Vec<Annotation> = Vec::new();
    let ghost s = data.bytes();
    let ghost start = data.pos();
    let mut i: usize = 0;
    while i < n
        invariant
            i <= n,
            s == old(data).bytes(),
            start == old(data).pos(),
            data.bytes() == s,
            spec_parse_annotations(s, start, n as nat, depth as nat) == prepend(
                views(annotations@),
                spec_parse_annotations(s, data.pos(), (n - i) as nat, depth as nat),
            ),
        decreases n - i,
    {
        let ghost before = annotations@;
        let annotation = Annotation::parse(data, depth)?;
        annotations.push(annotation);
        proof {
            assert(views(annotations@) =~= views(before).push(annotation@));
            lemma_prepend_push(
                views(before),
                annotation@,
                spec_parse_annotations(s, data.pos(), (n - i - 1) as nat, depth as nat),
            );
        }
        i = i + 1;
    }
    assert(views(annotations@) + Seq::<AnnotationView>::empty() =~= views(annotations@));
    Ok(annotations)
}

impl ParameterAnnotation {
    /// Reads the annotations of one parameter.
    pub fn parse(data: &mut Data, depth: usize) -> (r: Result<ParameterAnnotation, ParseErr>)
        ensures
            final(data).bytes() == old(data).bytes(),
            yields(
                r,
                final(data).pos(),
                spec_parse_parameter_annotation(old(data).bytes(), old(data).pos(), depth as nat),
            ),
    {
        let count = data.u2()?;
        let annotations = parse_annotations(data, count as usize, depth)?;
        let parameter = ParameterAnnotation { annotations };
        assert(parameter@.annotations =~= views(parameter.annotations@));
        Ok(parameter)
    }
}

/// Reads the annotations of `n` parameters in a row.
pub fn parse_parameter_annotations(data: &mut Data, n: usize, depth: usize) -> (r: Result<
    Vec<ParameterAnnotation>,
    ParseErr,
>)
    ensures
        final(data).bytes() == old(data).bytes(),
        yields_seq(
            r,
            final(data).pos(),
            spec_parse_parameter_annotations(
                old(data).bytes(),
                old(data).pos(),
                n as nat,
                depth as nat,
            ),
        ),
{
    let mut parameters: Vec<ParameterAnnotation> = Vec::new();
    let ghost s = data.bytes();
    let ghost start = data.pos();
    let mut i: usize = 0;
    while i < n
        invariant
            i <= n,
            s == old(data).bytes(),
            start == old(data).pos(),
            data.bytes() == s,
            spec_parse_parameter_annotations(s, start, n as nat, depth as nat) == prepend(
                views(parameters@),
                spec_parse_parameter_annotations(s, data.pos(), (n - i) as nat, depth as nat),
            ),
        decreases n - i,
    {
        let ghost before = parameters@;
        let parameter = ParameterAnnotation::parse(data, depth)?;
        parameters.push(parameter);
        proof {
            assert(views(parameters@) =~= views(before).push(parameter@));
            lemma_prepend_push(
                views(before),
                parameter@,
                spec_parse_parameter_annotations(s, data.pos(), (n - i - 1) as nat, depth as nat),
            );
        }
        i = i + 1;
    }
    assert(views(parameters@) + Seq::<ParameterAnnotationView>::empty() =~= views(parameters@));
    Ok(parameters)
}

} // verus!
