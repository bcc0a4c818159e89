use crate::error::{ErrorKind, ErrorKindView, ParseErr};
use vstd::prelude::*;
use vstd::std_specs::iter::IteratorSpec;
use vstd::string::StringExecFns;

verus! {

/// How many dimensions an array type may have.
pub const MAX_ARRAY_DIMENSIONS: usize = 255;

/// The type of a field, a parameter or a result.
#[derive(Debug, Eq, PartialEq, Hash)]
pub enum FieldType {
    /// `B`
    Byte,
    /// `C`
    Char,
    /// `D`
    Double,
    /// `F`
    Float,
    /// `I`
    Int,
    /// `J`
    Long,
    /// `L`, the name of a class, `;`
    Object(String),
    /// `S`
    Short,
    /// `Z`
    Boolean,
    /// `[`, the type of the elements
    Array(Box<FieldType>),
}

/// The mathematical value of a [`FieldType`].
pub enum FieldTypeView {
    Byte,
    Char,
    Double,
    Float,
    Int,
    Long,
    Object(Seq<char>),
    Short,
    Boolean,
    Array(Box<FieldTypeView>),
}

impl View for FieldType {
    type V = FieldTypeView;

    open spec fn view(&self) -> FieldTypeView
        decreases self,
    {
        match self {
            FieldType::Byte => FieldTypeView::Byte,
            FieldType::Char => FieldTypeView::Char,
            FieldType::Double => FieldTypeView::Double,
            FieldType::Float => FieldTypeView::Float,
            FieldType::Int => FieldTypeView::Int,
            FieldType::Long => FieldTypeView::Long,
            FieldType::Object(name) => FieldTypeView::Object(name@),
            FieldType::Short => FieldTypeView::Short,
            FieldType::Boolean => FieldTypeView::Boolean,
            FieldType::Array(element) => FieldTypeView::Array(Box::new((**element).view())),
        }
    }
}

impl Clone for FieldType {
    fn clone(&self) -> (copy: FieldType)
        ensures
            copy@ == self@,
        decreases self,
    {
        match self {
            FieldType::Byte => FieldType::Byte,
            FieldType::Char => FieldType::Char,
            FieldType::Double => FieldType::Double,
            FieldType::Float => FieldType::Float,
            FieldType::Int => FieldType::Int,
            FieldType::Long => FieldType::Long,
            FieldType::Object(name) => FieldType::Object(name.clone()),
            FieldType::Short => FieldType::Short,
            FieldType::Boolean => FieldType::Boolean,
            FieldType::Array(element) => FieldType::Array(Box::new((**element).clone())),
        }
    }
}

/// The descriptor of a field: its type.
#[derive(Debug, Eq, PartialEq, Hash)]
pub struct FieldDescriptor(pub FieldType);

impl View for FieldDescriptor {
    type V = FieldTypeView;

    open spec fn view(&self) -> FieldTypeView {
        self.0@
    }
}

impl Clone for FieldDescriptor {
    fn clone(&self) -> (copy: FieldDescriptor)
        ensures
            copy@ == self@,
    {
        FieldDescriptor(self.0.clone())
    }
}

/// The result of a method.
#[derive(Debug, Eq, PartialEq, Hash)]
pub enum MethodType {
    /// A value of the type given.
    Value(FieldType),
    /// `V`: no value.
    Void,
}

/// The mathematical value of a [`MethodType`].
pub enum MethodTypeView {
    Value(FieldTypeView),
    Void,
}

impl View for MethodType {
    type V = MethodTypeView;

    open spec fn view(&self) -> MethodTypeView {
        match self {
            MethodType::Value(t) => MethodTypeView::Value(t@),
            MethodType::Void => MethodTypeView::Void,
        }
    }
}

impl Clone for MethodType {
    fn clone(&self) -> (copy: MethodType)
        ensures
            copy@ == self@,
    {
        match self {
            MethodType::Value(t) => MethodType::Value(t.clone()),
            MethodType::Void => MethodType::Void,
        }
    }
}

/// The descriptor of a method: the types of its parameters and of its result.
#[derive(Debug, Eq, PartialEq, Hash)]
pub struct MethodDescriptor {
    pub parameters: Vec<FieldType>,
    pub return_: MethodType,
}

/// The mathematical value of a [`MethodDescriptor`].
pub struct MethodDescriptorView {
    pub parameters: Seq<FieldTypeView>,
    pub return_: MethodTypeView,
}

impl View for MethodDescriptor {
    type V = MethodDescriptorView;

    open spec fn view(&self) -> MethodDescriptorView {
        MethodDescriptorView {
            parameters: Seq::new(self.parameters@.len(), |i: int| self.parameters@[i]@),
            return_: self.return_@,
        }
    }
}

impl Clone for MethodDescriptor {
    fn clone(&self) -> (copy: MethodDescriptor)
        ensures
            copy@ == self@,
    {
        let mut parameters: Vec<FieldType> = Vec::new();
        let mut i: usize = 0;
        while i < self.parameters.len()
            invariant
                i <= self.parameters@.len(),
                parameters@.len() == i,
                forall|j: int| 0 <= j < i ==> parameters@[j]@ == self.parameters@[j]@,
            decreases self.parameters@.len() - i,
        {
            parameters.push(self.parameters[i].clone());
            i = i + 1;
        }
        let copy = MethodDescriptor { parameters, return_: self.return_.clone() };
        assert(copy@.parameters =~= self@.parameters);
        copy
    }
}

/// What a descriptor parser yields at a position of the text: the value and
/// the position behind it, or the detail of the rejection.
pub type Described<V> = Result<(V, int), Seq<char>>;

/// The detail where the text ends before a type.
pub open spec fn detail_empty() -> Seq<char> {
    "Empty string"@
}

/// The detail where the name of a class is not closed by `;`.
pub open spec fn detail_unterminated() -> Seq<char> {
    "Expected ; before end of string"@
}

/// The detail where `c` stands in the place of a type.
pub open spec fn detail_invalid(c: char) -> Seq<char> {
    "Invalid char in field descriptor "@.push(c)
}

/// The detail where an array type has too many dimensions.
pub open spec fn detail_dimensions() -> Seq<char> {
    "Too many array dimensions"@
}

/// The detail where a method descriptor does not start with `(`.
pub open spec fn detail_paren() -> Seq<char> {
    "Needs to start with '('"@
}

/// The detail where text stands behind a descriptor.
pub open spec fn detail_trailing() -> Seq<char> {
    "Unexpected char after descriptor"@
}

/// The place of the first `;` in `s` at or behind `pos`; the length of `s`
/// where there is none.
pub open spec fn first_semicolon(s: Seq<char>, pos: int) -> int
    decreases s.len() - pos,
{
    if pos < 0 || pos >= s.len() {
        s.len() as int
    } else if s[pos] == ';' {
        pos
    } else {
        first_semicolon(s, pos + 1)
    }
}

/// The field type that the text `s` holds at `pos`: one of the letters
/// `B C D F I J S Z`; or `L`, a name, `;`; or `[` and a field type. `dims`
/// is how many more `[` may come.
pub open spec fn spec_field_type(s: Seq<char>, pos: int, dims: nat) -> Described<FieldTypeView>
    decreases s.len() - pos,
{
    if pos < 0 || pos >= s.len() {
        Err(detail_empty())
    } else {
        let c = s[pos];
        if c == 'B' {
            Ok((FieldTypeView::Byte, pos + 1))
        } else if c == 'C' {
            Ok((FieldTypeView::Char, pos + 1))
        } else if c == 'D' {
            Ok((FieldTypeView::Double, pos + 1))
        } else if c == 'F' {
            Ok((FieldTypeView::Float, pos + 1))
        } else if c == 'I' {
            Ok((FieldTypeView::Int, pos + 1))
        } else if c == 'J' {
            Ok((FieldTypeView::Long, pos + 1))
        } else if c == 'S' {
            Ok((FieldTypeView::Short, pos + 1))
        } else if c == 'Z' {
            Ok((FieldTypeView::Boolean, pos + 1))
        } else if c == 'L' {
            let end = first_semicolon(s, pos + 1);
            if end >= s.len() {
                Err(detail_unterminated())
            } else {
                Ok((FieldTypeView::Object(s.subrange(pos + 1, end)), end + 1))
            }
        } else if c == '[' {
            if dims == 0 {
                Err(detail_dimensions())
            } else {
                match spec_field_type(s, pos + 1, (dims - 1) as nat) {
                    Ok((element, end)) => Ok((FieldTypeView::Array(Box::new(element)), end)),
                    Err(detail) => Err(detail),
                }
            }
        } else {
            Err(detail_invalid(c))
        }
    }
}

/// The field descriptor that is the whole text `s`.
pub open spec fn spec_field_descriptor(s: Seq<char>) -> Result<FieldTypeView, Seq<char>> {
    match spec_field_type(s, 0, MAX_ARRAY_DIMENSIONS as nat) {
        Ok((t, end)) => if end == s.len() {
            Ok(t)
        } else {
            Err(detail_trailing())
        },
        Err(detail) => Err(detail),
    }
}

/// The parameter types that the text `s` holds from `pos` on, up to the
/// closing `)`, and the position behind it.
///
/// A field type always ends behind the place where it starts and inside the
/// text ([`lemma_field_type_end`]); the test for it makes the definition
/// well-founded and never decides.
pub open spec fn spec_parameters(s: Seq<char>, pos: int) -> Described<Seq<FieldTypeView>>
    decreases s.len() - pos,
{
    if pos < 0 || pos >= s.len() {
        Err(detail_empty())
    } else if s[pos] == ')' {
        Ok((Seq::empty(), pos + 1))
    } else {
        let first = spec_field_type(s, pos, MAX_ARRAY_DIMENSIONS as nat);
        if first is Err {
            Err(first->Err_0)
        } else if first->Ok_0.1 <= pos || first->Ok_0.1 > s.len() {
            Err(detail_empty())
        } else {
            match spec_parameters(s, first->Ok_0.1) {
                Err(detail) => Err(detail),
                Ok((rest, end)) => Ok((seq![first->Ok_0.0] + rest, end)),
            }
        }
    }
}

/// The result type that the text `s` holds at `pos`: `V` or a field type.
pub open spec fn spec_return_type(s: Seq<char>, pos: int) -> Described<MethodTypeView> {
    if 0 <= pos < s.len() && s[pos] == 'V' {
        Ok((MethodTypeView::Void, pos + 1))
    } else {
        match spec_field_type(s, pos, MAX_ARRAY_DIMENSIONS as nat) {
            Ok((t, end)) => Ok((MethodTypeView::Value(t), end)),
            Err(detail) => Err(detail),
        }
    }
}

/// The method descriptor that is the whole text `s`: `(`, the parameter
/// types, `)`, and the result type.
pub open spec fn spec_method_descriptor(s: Seq<char>) -> Result<MethodDescriptorView, Seq<char>> {
    if s.len() == 0 {
        Err(detail_empty())
    } else if s[0] != '(' {
        Err(detail_paren())
    } else {
        match spec_parameters(s, 1) {
            Err(detail) => Err(detail),
            Ok((parameters, mid)) => match spec_return_type(s, mid) {
                Err(detail) => Err(detail),
                Ok((return_, end)) => if end == s.len() {
                    Ok(MethodDescriptorView { parameters, return_ })
                } else {
                    Err(detail_trailing())
                },
            },
        }
    }
}

/// `t` inside `k` array types.
pub open spec fn wrap(k: nat, t: FieldTypeView) -> FieldTypeView
    decreases k,
{
    if k == 0 {
        t
    } else {
        wrap((k - 1) as nat, FieldTypeView::Array(Box::new(t)))
    }
}

/// The outcome `r` of a parser for an element with `k` array types put around the value.
pub open spec fn lift(k: nat, r: Described<FieldTypeView>) -> Described<FieldTypeView> {
    match r {
        Ok((t, end)) => Ok((wrap(k, t), end)),
        Err(detail) => Err(detail),
    }
}

/// A field type ends behind the place where it starts, and inside the text.
pub proof fn lemma_field_type_end(s: Seq<char>, pos: int, dims: nat)
    ensures
        spec_field_type(s, pos, dims) matches Ok((_, end)) ==> pos < end <= s.len(),
    decreases s.len() - pos,
{
    if 0 <= pos < s.len() {
        if s[pos] == 'L' {
            lemma_first_semicolon(s, pos + 1);
        } else if s[pos] == '[' && dims > 0 {
            lemma_field_type_end(s, pos + 1, (dims - 1) as nat);
        }
    }
}

/// Where `first_semicolon` points: at the first `;` from `pos` on, or at
/// the end of the text.
pub proof fn lemma_first_semicolon(s: Seq<char>, pos: int)
    requires
        0 <= pos <= s.len(),
    ensures
        pos <= first_semicolon(s, pos) <= s.len(),
        first_semicolon(s, pos) < s.len() ==> s[first_semicolon(s, pos)] == ';',
        forall|i: int| pos <= i < first_semicolon(s, pos) ==> s[i] != ';',
    decreases s.len() - pos,
{
    if pos < s.len() && s[pos] != ';' {
        lemma_first_semicolon(s, pos + 1);
    }
}

/// The rejection whose detail is the message for a character that starts no type.
fn invalid_char(c: char) -> (e: ParseErr)
    ensures
        e@ == (ErrorKindView::BadDescriptor { detail: detail_invalid(c) }),
{
    let mut message = "Invalid char in field descriptor ".to_owned();
    message.push(c);
    ParseErr::string(message)
}

/// Looking for `;` in what is left of a text behind `by` characters is
/// looking for it in the text from `by` on.
pub proof fn lemma_first_semicolon_skip(s: Seq<char>, by: int, pos: int)
    requires
        0 <= by <= s.len(),
        0 <= pos,
    ensures
        first_semicolon(s.skip(by), pos) + by == first_semicolon(s, by + pos),
    decreases s.len() - by - pos,
{
    if pos < s.skip(by).len() && s.skip(by)[pos] != ';' {
        lemma_first_semicolon_skip(s, by, pos + 1);
    }
}

/// The outcome `r` with the position moved on by `by`.
pub open spec fn moved<V>(by: int, r: Described<V>) -> Described<V> {
    match r {
        Ok((v, end)) => Ok((v, end + by)),
        Err(detail) => Err(detail),
    }
}

/// Reading a field type in what is left of a text behind `by` characters is
/// reading it in the text from `by` on.
pub proof fn lemma_field_type_skip(s: Seq<char>, by: int, pos: int, dims: nat)
    requires
        0 <= by <= s.len(),
        0 <= pos,
    ensures
        moved(by, spec_field_type(s.skip(by), pos, dims)) == spec_field_type(s, by + pos, dims),
    decreases s.len() - by - pos,
{
    let rest = s.skip(by);
    if pos < rest.len() {
        if rest[pos] == 'L' {
            lemma_first_semicolon_skip(s, by, pos + 1);
            lemma_first_semicolon(rest, pos + 1);
            let end = first_semicolon(rest, pos + 1);
            assert(rest.subrange(pos + 1, end) =~= s.subrange(by + pos + 1, by + end));
        } else if rest[pos] == '[' && dims > 0 {
            lemma_field_type_skip(s, by, pos + 1, (dims - 1) as nat);
        }
    }
}

/// Reads the name of a class up to the closing `;`, which is read too.
fn read_name<I: Iterator<Item = char>>(chars: &mut I) -> (r: Result<String, ParseErr>)
    requires
        (*old(chars)).obeys_prophetic_iter_laws(),
        (*old(chars)).decrease() is Some,
    ensures
        (*final(chars)).obeys_prophetic_iter_laws(),
        (*final(chars)).decrease() is Some,
        match r {
            Ok(name) => {
                &&& first_semicolon((*old(chars)).remaining(), 0) < (*old(chars)).remaining().len()
                &&& name@ == (*old(chars)).remaining().subrange(
                    0,
                    first_semicolon((*old(chars)).remaining(), 0),
                )
                &&& (*final(chars)).remaining() == (*old(chars)).remaining().skip(
                    first_semicolon((*old(chars)).remaining(), 0) + 1,
                )
            },
            Err(e) => {
                &&& first_semicolon((*old(chars)).remaining(), 0) >= (*old(chars)).remaining().len()
                &&& e@ == (ErrorKindView::BadDescriptor { detail: detail_unterminated() })
            },
        },
{
    let mut name = String::new();
    let ghost s = (*chars).remaining();
    let ghost mut at: int = 0;
    assert(s.skip(0) =~= s);
    loop
        invariant
            (*chars).obeys_prophetic_iter_laws(),
            (*chars).decrease() is Some,
            s == (*old(chars)).remaining(),
            0 <= at <= s.len(),
            (*chars).remaining() == s.skip(at),
            name@ == s.subrange(0, at),
            first_semicolon(s, 0) == first_semicolon(s, at),
        decreases (*chars).decrease()->0,
    {
        match chars.next() {
            None => {
                return Err(ParseErr::str("Expected ; before end of string"));
            },
            Some(c) => {
                assert(c == s[at]);
                assert(s.skip(at).drop_first() =~= s.skip(at + 1));
                if c == ';' {
                    return Ok(name);
                }
                name.push(c);
                proof {
                    assert(name@ =~= s.subrange(0, at + 1));
                    at = at + 1;
                }
            },
        }
    }
}

/// Reads a field type whose first character, `first`, has been read already.
fn field_type_after<I: Iterator<Item = char>>(first: char, chars: &mut I) -> (r: Result<
    FieldType,
    ParseErr,
>)
    requires
        (*old(chars)).obeys_prophetic_iter_laws(),
        (*old(chars)).decrease() is Some,
    ensures
        (*final(chars)).obeys_prophetic_iter_laws(),
        (*final(chars)).decrease() is Some,
        match r {
            Ok(t) => {
                &&& spec_field_type(
                    seq![first] + (*old(chars)).remaining(),
                    0,
                    MAX_ARRAY_DIMENSIONS as nat,
                ) matches Ok((v, end))
                &&& v == t@
                &&& 0 < end <= (*old(chars)).remaining().len() + 1
                &&& (*final(chars)).remaining() == (*old(chars)).remaining().skip(end - 1)
            },
            Err(e) => {
                &&& spec_field_type(
                    seq![first] + (*old(chars)).remaining(),
                    0,
                    MAX_ARRAY_DIMENSIONS as nat,
                ) matches Err(detail)
                &&& e@ == (ErrorKindView::BadDescriptor { detail })
            },
        },
{
    let mut dims: usize = 0;
    let mut c = first;
    let ghost s = seq![first] + (*chars).remaining();
    assert(s.skip(1) =~= (*chars).remaining());
    while c == '['
        invariant
            (*chars).obeys_prophetic_iter_laws(),
            (*chars).decrease() is Some,
            s == seq![first] + (*old(chars)).remaining(),
            dims < s.len(),
            s[dims as int] == c,
            dims <= MAX_ARRAY_DIMENSIONS,
            (*chars).remaining() == s.skip(dims + 1),
            spec_field_type(s, 0, MAX_ARRAY_DIMENSIONS as nat) == lift(
                dims as nat,
                spec_field_type(s, dims as int, (MAX_ARRAY_DIMENSIONS - dims) as nat),
            ),
        decreases (*chars).decrease()->0,
    {
        if dims == MAX_ARRAY_DIMENSIONS {
            return Err(ParseErr::str("Too many array dimensions"));
        }
        match chars.next() {
            None => {
                assert(s.skip(dims + 1).len() == 0);
                assert(spec_field_type(
                    s,
                    dims + 1,
                    (MAX_ARRAY_DIMENSIONS - dims - 1) as nat,
                ) is Err);
                return Err(ParseErr::str("Empty string"));
            },
            Some(next) => {
                proof {
                    assert(next == s[dims + 1]);
                    assert(s.skip(dims + 1).drop_first() =~= s.skip(dims + 2));
                }
                c = next;
                dims = dims + 1;
            },
        }
    }
    let ghost before = (*chars).remaining();
    let base = if c == 'B' {
        FieldType::Byte
    } else if c == 'C' {
        FieldType::Char
    } else if c == 'D' {
        FieldType::Double
    } else if c == 'F' {
        FieldType::Float
    } else if c == 'I' {
        FieldType::Int
    } else if c == 'J' {
        FieldType::Long
    } else if c == 'S' {
        FieldType::Short
    } else if c == 'Z' {
        FieldType::Boolean
    } else if c == 'L' {
        proof {
            lemma_first_semicolon_skip(s, dims + 1, 0);
            lemma_first_semicolon(s, dims + 1);
        }
        let name = read_name(chars)?;
        proof {
            let end = first_semicolon(s, dims + 1);
            assert(name@ =~= s.subrange(dims + 1, end));
            assert(before.skip(end - dims - 1 + 1) =~= s.skip(end + 1));
        }
        FieldType::Object(name)
    } else {
        return Err(invalid_char(c));
    };
    proof {
        lemma_field_type_end(s, dims as int, (MAX_ARRAY_DIMENSIONS - dims) as nat);
        let end = spec_field_type(s, dims as int, (MAX_ARRAY_DIMENSIONS - dims) as nat)->Ok_0.1;
        assert(s.skip(end) =~= (*old(chars)).remaining().skip(end - 1));
    }
    let mut t = base;
    let mut k: usize = 0;
    while k < dims
        invariant
            k <= dims,
            wrap((dims - k) as nat, t@) == wrap(dims as nat, base@),
        decreases dims - k,
    {
        t = FieldType::Array(Box::new(t));
        k = k + 1;
    }
    Ok(t)
}

impl FieldType {
    /// Reads one field type from a stream of characters and leaves the
    /// stream behind it.
    pub fn from_char_iter<I: Iterator<Item = char>>(chars: &mut I) -> (r: Result<Self, ParseErr>)
        requires
            (*old(chars)).obeys_prophetic_iter_laws(),
            (*old(chars)).decrease() is Some,
        ensures
            (*final(chars)).obeys_prophetic_iter_laws(),
            (*final(chars)).decrease() is Some,
            match r {
                Ok(t) => {
                    &&& spec_field_type(
                        (*old(chars)).remaining(),
                        0,
                        MAX_ARRAY_DIMENSIONS as nat,
                    ) matches Ok((v, end))
                    &&& v == t@
                    &&& (*final(chars)).remaining() == (*old(chars)).remaining().skip(end)
                },
                Err(e) => {
                    &&& spec_field_type(
                        (*old(chars)).remaining(),
                        0,
                        MAX_ARRAY_DIMENSIONS as nat,
                    ) matches Err(detail)
                    &&& e@ == (ErrorKindView::BadDescriptor { detail })
                },
            },
    {
        let ghost s = (*chars).remaining();
        match chars.next() {
            None => Err(ParseErr::str("Empty string")),
            Some(first) => {
                assert(seq![first] + s.drop_first() =~= s);
                let r = field_type_after(first, chars);
                proof {
                    if r is Ok {
                        let end = spec_field_type(s, 0, MAX_ARRAY_DIMENSIONS as nat)->Ok_0.1;
                        assert(s.drop_first().skip(end - 1) =~= s.skip(end));
                    }
                }
                r
            },
        }
    }
}

/// The outcome `r` with `front` put before the values it yields.
pub open spec fn prefixed<V>(front: Seq<V>, r: Described<Seq<V>>) -> Described<Seq<V>> {
    match r {
        Ok((rest, end)) => Ok((front + rest, end)),
        Err(detail) => Err(detail),
    }
}

/// Whether the outcome `r` of reading a whole text is what `expected` asks for.
pub open spec fn reads_as<T: View>(r: Result<T, ParseErr>, expected: Result<T::V, Seq<char>>) -> bool {
    match r {
        Ok(v) => expected == Ok::<T::V, Seq<char>>(v@),
        Err(e) => expected is Err && e@ == (ErrorKindView::BadDescriptor {
            detail: expected->Err_0,
        }),
    }
}

impl FieldDescriptor {
    /// Reads a field descriptor: the whole text must be one field type.
    pub fn from_str(s: &str) -> (r: Result<Self, ParseErr>)
        ensures
            reads_as(r, spec_field_descriptor(s@)),
    {
        broadcast use vstd::string::axiom_spec_iter;

        let mut chars = s.chars();
        proof {
            lemma_field_type_end(s@, 0, MAX_ARRAY_DIMENSIONS as nat);
        }
        let t = FieldType::from_char_iter(&mut chars)?;
        match chars.next() {
            None => Ok(FieldDescriptor(t)),
            Some(_) => Err(ParseErr::str("Unexpected char after descriptor")),
        }
    }
}

impl MethodDescriptor {
    /// Reads a method descriptor: the whole text must be `(`, the types of
    /// the parameters, `)`, and the type of the result or `V`.
    pub fn from_str(s: &str) -> (r: Result<Self, ParseErr>)
        ensures
            reads_as(r, spec_method_descriptor(s@)),
    {
        broadcast use vstd::string::axiom_spec_iter;

        let mut chars = s.chars();
        match chars.next() {
            None => {
                return Err(ParseErr::str("Empty string"));
            },
            Some(c) => {
                if c != '(' {
                    return Err(ParseErr::str("Needs to start with '('"));
                }
            },
        }
        assert(s@.drop_first() =~= s@.skip(1));
        let mut parameters: Vec<FieldType> = Vec::new();
        let ghost mut at: int = 1;
        loop
            invariant_except_break
                spec_parameters(s@, 1) == prefixed(
                    Seq::new(parameters@.len(), |i: int| parameters@[i]@),
                    spec_parameters(s@, at),
                ),
            invariant
                chars.obeys_prophetic_iter_laws(),
                chars.decrease() is Some,
                s@.len() > 0,
                s@[0] == '(',
                1 <= at <= s@.len(),
                chars.remaining() == s@.skip(at),
            ensures
                spec_parameters(s@, 1) == Ok::<(Seq<FieldTypeView>, int), Seq<char>>(
                    (Seq::new(parameters@.len(), |i: int| parameters@[i]@), at),
                ),
            decreases s@.len() - at,
        {
            let ghost before = Seq::new(parameters@.len(), |i: int| parameters@[i]@);
            match chars.next() {
                None => {
                    return Err(ParseErr::str("Empty string"));
                },
                Some(c) => {
                    assert(c == s@[at]);
                    assert(s@.skip(at).drop_first() =~= s@.skip(at + 1));
                    if c == ')' {
                        proof {
                            assert(before + Seq::<FieldTypeView>::empty() =~= before);
                            at = at + 1;
                        }
                        break ;
                    }
                    proof {
                        assert(seq![c] + s@.skip(at + 1) =~= s@.skip(at));
                        lemma_field_type_skip(s@, at, 0, MAX_ARRAY_DIMENSIONS as nat);
                        lemma_field_type_end(s@, at, MAX_ARRAY_DIMENSIONS as nat);
                    }
                    let t = field_type_after(c, &mut chars)?;
                    parameters.push(t);
                    proof {
                        let end = spec_field_type(s@, at, MAX_ARRAY_DIMENSIONS as nat)->Ok_0.1;
                        assert(s@.skip(at + 1).skip(end - at - 1) =~= s@.skip(end));
                        let now = Seq::new(parameters@.len(), |i: int| parameters@[i]@);
                        assert(now =~= before.push(t@));
                        let rest = spec_parameters(s@, end);
                        if rest is Ok {
                            assert(before + (seq![t@] + rest->Ok_0.0) =~= now + rest->Ok_0.0);
                        }
                        at = end;
                    }
                },
            }
        }
        let ghost mid = at;
        let return_ = match chars.next() {
            None => {
                return Err(ParseErr::str("Empty string"));
            },
            Some(c) => {
                assert(c == s@[mid]);
                assert(s@.skip(mid).drop_first() =~= s@.skip(mid + 1));
                if c == 'V' {
                    proof {
                        at = mid + 1;
                    }
                    MethodType::Void
                } else {
                    proof {
                        assert(seq![c] + s@.skip(mid + 1) =~= s@.skip(mid));
                        lemma_field_type_skip(s@, mid, 0, MAX_ARRAY_DIMENSIONS as nat);
                        lemma_field_type_end(s@, mid, MAX_ARRAY_DIMENSIONS as nat);
                    }
                    let t = field_type_after(c, &mut chars)?;
                    proof {
                        let end = spec_field_type(s@, mid, MAX_ARRAY_DIMENSIONS as nat)->Ok_0.1;
                        assert(s@.skip(mid + 1).skip(end - mid - 1) =~= s@.skip(end));
                        at = end;
                    }
                    MethodType::Value(t)
                }
            },
        };
        match chars.next() {
            None => Ok(MethodDescriptor { parameters, return_ }),
            Some(_) => Err(ParseErr::str("Unexpected char after descriptor")),
        }
    }
}

/// The text of a field type: the descriptor that denotes it.
pub open spec fn spec_print(t: FieldTypeView) -> Seq<char>
    decreases t,
{
    match t {
        FieldTypeView::Byte => seq!['B'],
        FieldTypeView::Char => seq!['C'],
        FieldTypeView::Double => seq!['D'],
        FieldTypeView::Float => seq!['F'],
        FieldTypeView::Int => seq!['I'],
        FieldTypeView::Long => seq!['J'],
        FieldTypeView::Short => seq!['S'],
        FieldTypeView::Boolean => seq!['Z'],
        FieldTypeView::Object(name) => seq!['L'] + name + seq![';'],
        FieldTypeView::Array(element) => seq!['['] + spec_print(*element),
    }
}

/// The texts of several field types, one behind the other.
pub open spec fn spec_print_all(types: Seq<FieldTypeView>) -> Seq<char>
    decreases types.len(),
{
    if types.len() == 0 {
        Seq::empty()
    } else {
        spec_print(types[0]) + spec_print_all(types.drop_first())
    }
}

/// The text of the result of a method.
pub open spec fn spec_print_return(t: MethodTypeView) -> Seq<char> {
    match t {
        MethodTypeView::Void => seq!['V'],
        MethodTypeView::Value(t) => spec_print(t),
    }
}

/// The text of a method descriptor.
pub open spec fn spec_print_method(m: MethodDescriptorView) -> Seq<char> {
    seq!['('] + spec_print_all(m.parameters) + seq![')'] + spec_print_return(m.return_)
}

/// The number of dimensions of a type: how many array types stand around
/// its element type.
pub open spec fn dimensions(t: FieldTypeView) -> nat
    decreases t,
{
    match t {
        FieldTypeView::Array(element) => 1 + dimensions(*element),
        _ => 0,
    }
}

/// Whether a type can be denoted by a descriptor: the name of a class holds
/// no `;`, and an array has no more than `dims` dimensions.
pub open spec fn denotable(t: FieldTypeView, dims: nat) -> bool
    decreases t,
{
    match t {
        FieldTypeView::Object(name) => !name.contains(';'),
        FieldTypeView::Array(element) => dims > 0 && denotable(*element, (dims - 1) as nat),
        _ => true,
    }
}

/// Whether each type of a method descriptor can be denoted.
pub open spec fn denotable_method(m: MethodDescriptorView) -> bool {
    &&& forall|i: int|
        0 <= i < m.parameters.len() ==> denotable(
            #[trigger] m.parameters[i],
            MAX_ARRAY_DIMENSIONS as nat,
        )
    &&& m.return_ matches MethodTypeView::Value(t) ==> denotable(t, MAX_ARRAY_DIMENSIONS as nat)
}

/// Where no `;` stands between `from` and `end` and one stands at `end`,
/// `end` is the place of the first `;` from `from` on.
pub proof fn lemma_first_semicolon_at(s: Seq<char>, from: int, end: int)
    requires
        0 <= from <= end < s.len(),
        s[end] == ';',
        forall|i: int| from <= i < end ==> s[i] != ';',
    ensures
        first_semicolon(s, from) == end,
    decreases end - from,
{
    if from < end {
        lemma_first_semicolon_at(s, from + 1, end);
    }
}

/// The text of a type is not empty, and its first character is none of `)` and `V`.
pub proof fn lemma_print_starts(t: FieldTypeView)
    ensures
        spec_print(t).len() > 0,
        spec_print(t)[0] != ')',
        spec_print(t)[0] != 'V',
{
}

/// Reading what was printed yields what was printed: where the text of a
/// denotable type stands in `s` at `pos`, the type is read there, and the
/// reader stops behind the text.
pub proof fn lemma_read_printed(t: FieldTypeView, s: Seq<char>, pos: int, dims: nat)
    requires
        denotable(t, dims),
        0 <= pos,
        pos + spec_print(t).len() <= s.len(),
        s.subrange(pos, pos + spec_print(t).len()) == spec_print(t),
    ensures
        spec_field_type(s, pos, dims) == Ok::<(FieldTypeView, int), Seq<char>>(
            (t, pos + spec_print(t).len()),
        ),
    decreases t,
{
    let text = spec_print(t);
    lemma_print_starts(t);
    assert(s[pos] == s.subrange(pos, pos + text.len())[0]);
    match t {
        FieldTypeView::Object(name) => {
            let end = pos + 1 + name.len();
            assert(s[end] == s.subrange(pos, pos + text.len())[1 + name.len() as int]);
            assert forall|i: int| pos + 1 <= i < end implies s[i] != ';' by {
                assert(s[i] == s.subrange(pos, pos + text.len())[i - pos]);
                assert(text[i - pos] == name[i - pos - 1]);
            }
            lemma_first_semicolon_at(s, pos + 1, end);
            assert(s.subrange(pos + 1, end) =~= name) by {
                assert forall|i: int| 0 <= i < name.len() implies s.subrange(pos + 1, end)[i]
                    == name[i] by {
                    assert(s[pos + 1 + i] == s.subrange(pos, pos + text.len())[i + 1]);
                }
            }
        },
        FieldTypeView::Array(element) => {
            let inner = spec_print(*element);
            assert(s.subrange(pos + 1, pos + 1 + inner.len()) =~= inner) by {
                assert forall|i: int| 0 <= i < inner.len() implies s.subrange(
                    pos + 1,
                    pos + 1 + inner.len(),
                )[i] == inner[i] by {
                    assert(s[pos + 1 + i] == s.subrange(pos, pos + text.len())[i + 1]);
                }
            }
            lemma_read_printed(*element, s, pos + 1, (dims - 1) as nat);
        },
        _ => {},
    }
}

/// Printing what was read yields the text that was read: where a type is
/// read in `s` at `pos`, the type is denotable and its text is what stands
/// in `s` from `pos` to where the reader stopped.
pub proof fn lemma_print_read(s: Seq<char>, pos: int, dims: nat)
    ensures
        spec_field_type(s, pos, dims) matches Ok((t, end)) ==> {
            &&& pos < end <= s.len()
            &&& denotable(t, dims)
            &&& spec_print(t) == s.subrange(pos, end)
        },
    decreases s.len() - pos,
{
    if 0 <= pos < s.len() {
        lemma_field_type_end(s, pos, dims);
        match spec_field_type(s, pos, dims) {
            Ok((t, end)) => {
                if s[pos] == 'L' {
                    lemma_first_semicolon(s, pos + 1);
                    let name = s.subrange(pos + 1, end - 1);
                    assert(!name.contains(';'));
                    assert(seq!['L'] + name + seq![';'] =~= s.subrange(pos, end));
                } else if s[pos] == '[' {
                    lemma_print_read(s, pos + 1, (dims - 1) as nat);
                    let element = spec_field_type(s, pos + 1, (dims - 1) as nat)->Ok_0.0;
                    assert(seq!['['] + s.subrange(pos + 1, end) =~= s.subrange(pos, end));
                } else {
                    assert(spec_print(t) =~= s.subrange(pos, end));
                }
            },
            Err(_) => {},
        }
    }
}

/// A field descriptor and its text determine each other: the text of a
/// denotable type reads as that type, and a text that reads as a type is
/// the text of that type.
pub proof fn lemma_field_descriptor_round_trip(t: FieldTypeView, s: Seq<char>)
    ensures
        denotable(t, MAX_ARRAY_DIMENSIONS as nat) ==> spec_field_descriptor(spec_print(t)) == Ok::<
            FieldTypeView,
            Seq<char>,
        >(t),
        spec_field_descriptor(s) == Ok::<FieldTypeView, Seq<char>>(t) ==> spec_print(t) == s,
{
    if denotable(t, MAX_ARRAY_DIMENSIONS as nat) {
        let text = spec_print(t);
        assert(text.subrange(0, text.len() as int) =~= text);
        lemma_read_printed(t, text, 0, MAX_ARRAY_DIMENSIONS as nat);
    }
    if spec_field_descriptor(s) == Ok::<FieldTypeView, Seq<char>>(t) {
        lemma_print_read(s, 0, MAX_ARRAY_DIMENSIONS as nat);
        assert(s.subrange(0, s.len() as int) =~= s);
    }
}

/// Reading the parameters that were printed yields them: where the texts
/// of denotable types stand in `s` at `pos`, with `)` behind them, those
/// types are read there, and the reader stops behind the `)`.
pub proof fn lemma_read_printed_parameters(types: Seq<FieldTypeView>, s: Seq<char>, pos: int)
    requires
        forall|i: int|
            0 <= i < types.len() ==> denotable(#[trigger] types[i], MAX_ARRAY_DIMENSIONS as nat),
        0 <= pos,
        pos + spec_print_all(types).len() < s.len(),
        s.subrange(pos, pos + spec_print_all(types).len()) == spec_print_all(types),
        s[pos + spec_print_all(types).len()] == ')',
    ensures
        spec_parameters(s, pos) == Ok::<(Seq<FieldTypeView>, int), Seq<char>>(
            (types, pos + spec_print_all(types).len() + 1),
        ),
    decreases types.len(),
{
    let all = spec_print_all(types);
    if types.len() == 0 {
        assert(types =~= Seq::empty());
    } else {
        let first = spec_print(types[0]);
        let rest = spec_print_all(types.drop_first());
        lemma_print_starts(types[0]);
        assert(s[pos] == s.subrange(pos, pos + all.len())[0]);
        assert(s.subrange(pos, pos + first.len()) =~= first) by {
            assert forall|i: int| 0 <= i < first.len() implies s.subrange(pos, pos + first.len())[i]
                == first[i] by {
                assert(s[pos + i] == s.subrange(pos, pos + all.len())[i]);
            }
        }
        lemma_read_printed(types[0], s, pos, MAX_ARRAY_DIMENSIONS as nat);
        let next = pos + first.len();
        assert(s.subrange(next, next + rest.len()) =~= rest) by {
            assert forall|i: int| 0 <= i < rest.len() implies s.subrange(next, next + rest.len())[i]
                == rest[i] by {
                assert(s[next + i] == s.subrange(pos, pos + all.len())[first.len() + i]);
            }
        }
        assert forall|i: int| 0 <= i < types.drop_first().len() implies denotable(
            #[trigger] types.drop_first()[i],
            MAX_ARRAY_DIMENSIONS as nat,
        ) by {
            assert(types.drop_first()[i] == types[i + 1]);
        }
        lemma_read_printed_parameters(types.drop_first(), s, next);
        assert(seq![types[0]] + types.drop_first() =~= types);
    }
}

/// Printing the parameters that were read yields the text that was read.
pub proof fn lemma_print_read_parameters(s: Seq<char>, pos: int)
    ensures
        spec_parameters(s, pos) matches Ok((types, end)) ==> {
            &&& pos < end <= s.len()
            &&& forall|i: int|
                0 <= i < types.len() ==> denotable(
                    #[trigger] types[i],
                    MAX_ARRAY_DIMENSIONS as nat,
                )
            &&& spec_print_all(types) + seq![')'] == s.subrange(pos, end)
        },
    decreases s.len() - pos,
{
    if 0 <= pos < s.len() {
        match spec_parameters(s, pos) {
            Ok((types, end)) => {
                if s[pos] == ')' {
                    assert(spec_print_all(types) + seq![')'] =~= s.subrange(pos, end));
                } else {
                    lemma_print_read(s, pos, MAX_ARRAY_DIMENSIONS as nat);
                    let (first, next) = spec_field_type(s, pos, MAX_ARRAY_DIMENSIONS as nat)->Ok_0;
                    lemma_print_read_parameters(s, next);
                    let rest = spec_parameters(s, next)->Ok_0.0;
                    assert(types.drop_first() =~= rest);
                    assert(spec_print(first) + (spec_print_all(rest) + seq![')']) =~= s.subrange(
                        pos,
                        end,
                    )) by {
                        assert(s.subrange(pos, next) + s.subrange(next, end) =~= s.subrange(
                            pos,
                            end,
                        ));
                    }
                    assert(spec_print_all(types) + seq![')'] =~= spec_print(first) + (
                    spec_print_all(rest) + seq![')']));
                }
            },
            Err(_) => {},
        }
    }
}

/// A method descriptor and its text determine each other: the text of a
/// descriptor of denotable types reads as that descriptor, and a text that
/// reads as a descriptor is the text of that descriptor.
pub proof fn lemma_method_descriptor_round_trip(m: MethodDescriptorView, s: Seq<char>)
    ensures
        denotable_method(m) ==> spec_method_descriptor(spec_print_method(m)) == Ok::<
            MethodDescriptorView,
            Seq<char>,
        >(m),
        spec_method_descriptor(s) == Ok::<MethodDescriptorView, Seq<char>>(m) ==> spec_print_method(
            m,
        ) == s,
{
    if denotable_method(m) {
        let text = spec_print_method(m);
        let parameters = spec_print_all(m.parameters);
        let result = spec_print_return(m.return_);
        let mid: int = parameters.len() as int + 2;
        assert(text.subrange(1, 1 + parameters.len() as int) =~= parameters);
        lemma_read_printed_parameters(m.parameters, text, 1);
        match m.return_ {
            MethodTypeView::Void => {},
            MethodTypeView::Value(t) => {
                lemma_print_starts(t);
                assert(text[mid] == result[0]);
                assert(text.subrange(mid, mid + result.len()) =~= result);
                lemma_read_printed(t, text, mid, MAX_ARRAY_DIMENSIONS as nat);
            },
        }
    }
    if spec_method_descriptor(s) == Ok::<MethodDescriptorView, Seq<char>>(m) {
        lemma_print_read_parameters(s, 1);
        let mid = spec_parameters(s, 1)->Ok_0.1;
        if !(mid < s.len() && s[mid] == 'V') {
            lemma_print_read(s, mid, MAX_ARRAY_DIMENSIONS as nat);
        }
        assert(seq!['('] + s.subrange(1, mid) + s.subrange(mid, s.len() as int) =~= s);
        assert(seq!['('] + spec_print_all(m.parameters) + seq![')'] =~= seq!['('] + (
        spec_print_all(m.parameters) + seq![')']));
        assert(spec_print_return(m.return_) =~= s.subrange(mid, s.len() as int));
    }
}

impl FieldType {
    /// The descriptor that denotes the type.
    pub fn to_descriptor(&self) -> (text: String)
        ensures
            text@ == spec_print(self@),
    {
        let mut text = String::new();
        let mut t: &FieldType = self;
        loop
            invariant_except_break
                spec_print(self@) == text@ + spec_print(t@),
            ensures
                spec_print(self@) == text@,
            decreases t,
        {
            match t {
                FieldType::Byte => {
                    text.push('B');
                    break ;
                },
                FieldType::Char => {
                    text.push('C');
                    break ;
                },
                FieldType::Double => {
                    text.push('D');
                    break ;
                },
                FieldType::Float => {
                    text.push('F');
                    break ;
                },
                FieldType::Int => {
                    text.push('I');
                    break ;
                },
                FieldType::Long => {
                    text.push('J');
                    break ;
                },
                FieldType::Short => {
                    text.push('S');
                    break ;
                },
                FieldType::Boolean => {
                    text.push('Z');
                    break ;
                },
                FieldType::Object(name) => {
                    let ghost before = text@;
                    text.push('L');
                    text.append(name.as_str());
                    text.push(';');
                    assert(text@ =~= before + (seq!['L'] + name@ + seq![';']));
                    break ;
                },
                FieldType::Array(element) => {
                    let ghost before = text@;
                    text.push('[');
                    assert(text@ + spec_print((**element)@) =~= before + (seq!['['] + spec_print(
                        (**element)@,
                    )));
                    t = &**element;
                },
            }
        }
        text
    }
}

impl FieldDescriptor {
    /// The text of the descriptor.
    pub fn to_descriptor(&self) -> (text: String)
        ensures
            text@ == spec_print(self@),
    {
        self.0.to_descriptor()
    }
}

impl MethodDescriptor {
    /// The text of the descriptor.
    pub fn to_descriptor(&self) -> (text: String)
        ensures
            text@ == spec_print_method(self@),
    {
        let mut text = String::new();
        text.push('(');
        let ghost types = self@.parameters;
        let mut i: usize = 0;
        assert(types.skip(0) =~= types);
        while i < self.parameters.len()
            invariant
                i <= self.parameters@.len(),
                types == self@.parameters,
                types.len() == self.parameters@.len(),
                seq!['('] + spec_print_all(types) == text@ + spec_print_all(types.skip(i as int)),
            decreases self.parameters@.len() - i,
        {
            let ghost before = text@;
            let one = self.parameters[i].to_descriptor();
            text.append(one.as_str());
            proof {
                let rest = types.skip(i as int);
                assert(rest[0] == self.parameters@[i as int]@);
                assert(rest.drop_first() =~= types.skip(i + 1));
                assert(before + (spec_print(rest[0]) + spec_print_all(rest.drop_first())) =~= text@
                    + spec_print_all(types.skip(i + 1)));
            }
            i = i + 1;
        }
        let ghost before = text@;
        text.push(')');
        match &self.return_ {
            MethodType::Void => {
                text.push('V');
            },
            MethodType::Value(t) => {
                let one = t.to_descriptor();
                text.append(one.as_str());
            },
        }
        assert(text@ =~= seq!['('] + spec_print_all(types) + seq![')'] + spec_print_return(
            self@.return_,
        )) by {
            assert(before + Seq::<char>::empty() =~= before);
        }
        text
    }
}

impl std::str::FromStr for FieldDescriptor {
    type Err = ParseErr;

    /// Reads a field descriptor: the whole text must be one field type.
    fn from_str(s: &str) -> (r: Result<Self, ParseErr>)
        ensures
            reads_as(r, spec_field_descriptor(s@)),
    {
        FieldDescriptor::from_str(s)
    }
}

impl std::str::FromStr for MethodDescriptor {
    type Err = ParseErr;

    /// Reads a method descriptor: the whole text must be `(`, the types of
    /// the parameters, `)`, and the type of the result or `V`.
    fn from_str(s: &str) -> (r: Result<Self, ParseErr>)
        ensures
            reads_as(r, spec_method_descriptor(s@)),
    {
        MethodDescriptor::from_str(s)
    }
}

} // verus!
