use vstd::prelude::*;
use vstd::std_specs::convert::{FromSpec, TryFromSpec};
use vstd::utf8::encode_utf8;

use std::cmp::Ordering;

verus! {

/// Mathematical model of a [`Value`]: the same variants over spec types.
pub enum ValueModel {
    Bool(bool),
    Bytes(Seq<u8>),
    /// IEEE-754 bit pattern of a 32-bit float.
    F32(u32),
    ISize(isize),
    String(Seq<char>),
    USize(usize),
    Vec(Seq<ValueModel>),
}

/// Data flowing through a graph.
///
/// A 32-bit float is held as its IEEE-754 bit pattern; comparisons treat it as
/// the float that the bits encode. Values compare within a variant only.
#[derive(Debug)]
pub enum Value {
    Bool(bool),
    Bytes(Vec<u8>),
    F32(u32),
    ISize(isize),
    String(String),
    USize(usize),
    Vec(Vec<Value>),
}

impl Value {
    /// The model of this value.
    pub open spec fn model(&self) -> ValueModel
        decreases self,
    {
        match self {
            Value::Bool(b) => ValueModel::Bool(*b),
            Value::Bytes(b) => ValueModel::Bytes(b@),
            Value::F32(f) => ValueModel::F32(*f),
            Value::ISize(i) => ValueModel::ISize(*i),
            Value::String(s) => ValueModel::String(s@),
            Value::USize(u) => ValueModel::USize(*u),
            Value::Vec(items) => ValueModel::Vec(
                Seq::new(
                    items.len() as nat,
                    |i: int|
                        if 0 <= i < items.len() {
                            items[i].model()
                        } else {
                            ValueModel::Bool(false)
                        },
                ),
            ),
        }
    }
}

impl View for Value {
    type V = ValueModel;

    open spec fn view(&self) -> ValueModel {
        self.model()
    }
}

impl Value {
    /// The model of a sequence of values, element by element.
    pub open spec fn seq_view(s: Seq<Value>) -> Seq<ValueModel> {
        s.map_values(|v: Value| v@)
    }
}

impl Clone for Value {
    fn clone(&self) -> (r: Value)
        ensures
            r@ == self@,
        decreases self,
    {
        match self {
            Value::Bool(b) => Value::Bool(*b),
            Value::Bytes(b) => Value::Bytes(b.clone()),
            Value::F32(f) => Value::F32(*f),
            Value::ISize(i) => Value::ISize(*i),
            Value::String(s) => Value::String(s.clone()),
            Value::USize(u) => Value::USize(*u),
            Value::Vec(items) => clone_vec(items),
        }
    }
}

/// A copy of a vector of values, as a list value.
fn clone_vec(items: &Vec<Value>) -> (r: Value)
    ensures
        r@ == Value::Vec(*items)@,
    decreases items,
{
    let mut out: Vec<Value> = Vec::new();
    let mut i: usize = 0;
    while i < items.len()
        invariant
            i <= items.len(),
            out@.len() == i,
            forall|k: int| 0 <= k < i ==> (#[trigger] out@[k])@ == items@[k]@,
        decreases items.len() - i,
    {
        proof {
            broadcast use vstd::std_specs::vec::axiom_vec_index_decreases;
            assert(decreases_to!(*items => items[i as int]));
        }
        let item = items[i].clone();
        out.push(item);
        i = i + 1;
    }
    let r = Value::Vec(out);
    assert(r@->Vec_0 =~= Value::Vec(*items)@->Vec_0);
    r
}

/// `a` compared with `b` as integers.
pub open spec fn int_cmp(a: int, b: int) -> Ordering {
    if a < b {
        Ordering::Less
    } else if a == b {
        Ordering::Equal
    } else {
        Ordering::Greater
    }
}

/// `a` compared with `b` lexicographically, a proper prefix first.
pub open spec fn byte_cmp(a: Seq<u8>, b: Seq<u8>) -> Ordering
    decreases a.len(),
{
    if a.len() == 0 {
        if b.len() == 0 {
            Ordering::Equal
        } else {
            Ordering::Less
        }
    } else if b.len() == 0 {
        Ordering::Greater
    } else if a[0] != b[0] {
        int_cmp(a[0] as int, b[0] as int)
    } else {
        byte_cmp(a.drop_first(), b.drop_first())
    }
}

/// Whether the bits are those of a 32-bit float that is not a number.
pub open spec fn is_nan(bits: u32) -> bool {
    bits % 0x8000_0000 > 0x7f80_0000
}

/// A key that orders the bits of 32-bit floats as the floats are ordered:
/// the magnitude, negated when the sign bit is set, so both zeros are equal.
pub open spec fn float_key(bits: u32) -> int {
    if bits >= 0x8000_0000 {
        -((bits % 0x8000_0000) as int)
    } else {
        bits as int
    }
}

/// The 32-bit floats with bits `a` and `b` compared; none when either is not a
/// number.
pub open spec fn float_cmp(a: u32, b: u32) -> Option<Ordering> {
    if is_nan(a) || is_nan(b) {
        None
    } else {
        Some(int_cmp(float_key(a), float_key(b)))
    }
}

/// Values compared: within a variant by its payload (strings by their UTF-8
/// bytes, lists lexicographically); values of two variants are unordered.
pub open spec fn model_cmp(a: ValueModel, b: ValueModel) -> Option<Ordering>
    decreases a,
{
    match (a, b) {
        (ValueModel::Bool(x), ValueModel::Bool(y)) => Some(
            int_cmp(
                if x {
                    1
                } else {
                    0
                },
                if y {
                    1
                } else {
                    0
                },
            ),
        ),
        (ValueModel::Bytes(x), ValueModel::Bytes(y)) => Some(byte_cmp(x, y)),
        (ValueModel::F32(x), ValueModel::F32(y)) => float_cmp(x, y),
        (ValueModel::ISize(x), ValueModel::ISize(y)) => Some(int_cmp(x as int, y as int)),
        (ValueModel::String(x), ValueModel::String(y)) => Some(
            byte_cmp(encode_utf8(x), encode_utf8(y)),
        ),
        (ValueModel::USize(x), ValueModel::USize(y)) => Some(int_cmp(x as int, y as int)),
        (ValueModel::Vec(x), ValueModel::Vec(y)) => list_cmp(x, y),
        _ => None,
    }
}

/// Lists compared element by element, the first element that does not compare
/// equal deciding; a proper prefix comes first.
pub open spec fn list_cmp(a: Seq<ValueModel>, b: Seq<ValueModel>) -> Option<Ordering>
    decreases a,
{
    if a.len() == 0 {
        if b.len() == 0 {
            Some(Ordering::Equal)
        } else {
            Some(Ordering::Less)
        }
    } else if b.len() == 0 {
        Some(Ordering::Greater)
    } else {
        proof {
            broadcast use vstd::seq::axiom_seq_subrange_decreases;
        }
        match model_cmp(a[0], b[0]) {
            Some(Ordering::Equal) => list_cmp(a.drop_first(), b.drop_first()),
            other => other,
        }
    }
}

/// Lexicographic comparison of two byte slices.
fn compare_bytes(a: &[u8], b: &[u8]) -> (r: Ordering)
    ensures
        r == byte_cmp(a@, b@),
{
    let mut i: usize = 0;
    assert(a@.subrange(0, a@.len() as int) =~= a@);
    assert(b@.subrange(0, b@.len() as int) =~= b@);
    while i < a.len() && i < b.len() && a[i] == b[i]
        invariant
            i <= a@.len(),
            i <= b@.len(),
            byte_cmp(a@, b@) == byte_cmp(a@.subrange(i as int, a@.len() as int), b@.subrange(
                i as int,
                b@.len() as int,
            )),
        decreases a@.len() - i,
    {
        proof {
            let sa = a@.subrange(i as int, a@.len() as int);
            let sb = b@.subrange(i as int, b@.len() as int);
            assert(sa.drop_first() =~= a@.subrange(i + 1, a@.len() as int));
            assert(sb.drop_first() =~= b@.subrange(i + 1, b@.len() as int));
        }
        i = i + 1;
    }
    proof {
        assert(a@.subrange(0, a@.len() as int) =~= a@);
        assert(b@.subrange(0, b@.len() as int) =~= b@);
    }
    let sa = Ghost(a@.subrange(i as int, a@.len() as int));
    let sb = Ghost(b@.subrange(i as int, b@.len() as int));
    if i == a.len() {
        assert(sa@.len() == 0);
        if i == b.len() {
            Ordering::Equal
        } else {
            Ordering::Less
        }
    } else if i == b.len() {
        assert(sb@.len() == 0);
        Ordering::Greater
    } else {
        assert(sa@[0] == a@[i as int] && sb@[0] == b@[i as int]);
        if a[i] < b[i] {
            Ordering::Less
        } else {
            Ordering::Greater
        }
    }
}

/// Integers compared.
fn compare_usize(a: usize, b: usize) -> (r: Ordering)
    ensures
        r == int_cmp(a as int, b as int),
{
    if a < b {
        Ordering::Less
    } else if a == b {
        Ordering::Equal
    } else {
        Ordering::Greater
    }
}

/// Integers compared.
fn compare_isize(a: isize, b: isize) -> (r: Ordering)
    ensures
        r == int_cmp(a as int, b as int),
{
    if a < b {
        Ordering::Less
    } else if a == b {
        Ordering::Equal
    } else {
        Ordering::Greater
    }
}

/// 32-bit floats, given by their bits, compared.
fn compare_floats(a: u32, b: u32) -> (r: Option<Ordering>)
    ensures
        r == float_cmp(a, b),
{
    let ma = a % 0x8000_0000;
    let mb = b % 0x8000_0000;
    if ma > 0x7f80_0000 || mb > 0x7f80_0000 {
        return None;
    }
    let na = a >= 0x8000_0000;
    let nb = b >= 0x8000_0000;
    let r = if ma == 0 && mb == 0 {
        Ordering::Equal
    } else if na && !nb {
        Ordering::Less
    } else if !na && nb {
        Ordering::Greater
    } else if na {
        compare_usize(mb as usize, ma as usize)
    } else {
        compare_usize(ma as usize, mb as usize)
    };
    Some(r)
}

/// Two values compared, as `model_cmp` orders them.
fn compare_values(a: &Value, b: &Value) -> (r: Option<Ordering>)
    ensures
        r == model_cmp(a@, b@),
    decreases a,
{
    match (a, b) {
        (Value::Bool(x), Value::Bool(y)) => Some(
            compare_usize(
                if *x {
                    1
                } else {
                    0
                },
                if *y {
                    1
                } else {
                    0
                },
            ),
        ),
        (Value::Bytes(x), Value::Bytes(y)) => Some(compare_bytes(x.as_slice(), y.as_slice())),
        (Value::F32(x), Value::F32(y)) => compare_floats(*x, *y),
        (Value::ISize(x), Value::ISize(y)) => Some(compare_isize(*x, *y)),
        (Value::String(x), Value::String(y)) => Some(
            compare_bytes(x.as_str().as_bytes(), y.as_str().as_bytes()),
        ),
        (Value::USize(x), Value::USize(y)) => Some(compare_usize(*x, *y)),
        (Value::Vec(x), Value::Vec(y)) => compare_lists(x, y),
        _ => None,
    }
}

/// Two lists of values compared, as `list_cmp` orders them.
fn compare_lists(a: &Vec<Value>, b: &Vec<Value>) -> (r: Option<Ordering>)
    ensures
        r == list_cmp(Value::Vec(*a)@->Vec_0, Value::Vec(*b)@->Vec_0),
    decreases a,
{
    let ghost va = Value::Vec(*a)@->Vec_0;
    let ghost vb = Value::Vec(*b)@->Vec_0;
    let mut i: usize = 0;
    assert(va.subrange(0, va.len() as int) =~= va);
    assert(vb.subrange(0, vb.len() as int) =~= vb);
    while i < a.len() && i < b.len()
        invariant
            i <= a@.len(),
            i <= b@.len(),
            va == Value::Vec(*a)@->Vec_0,
            vb == Value::Vec(*b)@->Vec_0,
            va.len() == a@.len(),
            vb.len() == b@.len(),
            forall|k: int| 0 <= k < a@.len() ==> va[k] == (#[trigger] a@[k])@,
            forall|k: int| 0 <= k < b@.len() ==> vb[k] == (#[trigger] b@[k])@,
            list_cmp(va, vb) == list_cmp(va.subrange(i as int, va.len() as int), vb.subrange(
                i as int,
                vb.len() as int,
            )),
        decreases a@.len() - i,
    {
        proof {
            broadcast use vstd::std_specs::vec::axiom_vec_index_decreases;
            assert(decreases_to!(*a => a[i as int]));
        }
        let c = compare_values(&a[i], &b[i]);
        let ghost sa = va.subrange(i as int, va.len() as int);
        let ghost sb = vb.subrange(i as int, vb.len() as int);
        assert(sa[0] == a@[i as int]@ && sb[0] == b@[i as int]@);
        match c {
            Some(Ordering::Equal) => {},
            _ => {
                assert(sa.len() > 0 && sb.len() > 0);
                assert(list_cmp(sa, sb) == c);
                return c;
            },
        }
        proof {
            assert(sa.drop_first() =~= va.subrange(i + 1, va.len() as int));
            assert(sb.drop_first() =~= vb.subrange(i + 1, vb.len() as int));
        }
        i = i + 1;
    }
    proof {
        assert(va.subrange(0, va.len() as int) =~= va);
        assert(vb.subrange(0, vb.len() as int) =~= vb);
        assert(va.subrange(i as int, va.len() as int).len() == va.len() - i);
        assert(vb.subrange(i as int, vb.len() as int).len() == vb.len() - i);
    }
    if i == a.len() {
        if i == b.len() {
            Some(Ordering::Equal)
        } else {
            Some(Ordering::Less)
        }
    } else {
        Some(Ordering::Greater)
    }
}

impl PartialEq for Value {
    /// Values are equal when they compare equal: floats by value, so both
    /// zeros are equal and a value that is not a number equals nothing.
    fn eq(&self, other: &Value) -> (r: bool) {
        matches!(compare_values(self, other), Some(Ordering::Equal))
    }
}

impl vstd::std_specs::cmp::PartialEqSpecImpl for Value {
    open spec fn obeys_eq_spec() -> bool {
        true
    }

    open spec fn eq_spec(&self, other: &Value) -> bool {
        model_cmp(self@, other@) == Some(Ordering::Equal)
    }
}

impl PartialOrd for Value {
    fn partial_cmp(&self, other: &Value) -> (r: Option<Ordering>) {
        compare_values(self, other)
    }
}

impl vstd::std_specs::cmp::PartialOrdSpecImpl for Value {
    open spec fn obeys_partial_cmp_spec() -> bool {
        true
    }

    open spec fn partial_cmp_spec(&self, other: &Value) -> Option<Ordering> {
        model_cmp(self@, other@)
    }
}

impl From<bool> for Value {
    fn from(value: bool) -> (r: Value) {
        Value::Bool(value)
    }
}

impl vstd::std_specs::convert::FromSpecImpl<bool> for Value {
    open spec fn obeys_from_spec() -> bool {
        true
    }

    open spec fn from_spec(value: bool) -> Value {
        Value::Bool(value)
    }
}

impl TryFrom<Value> for bool {
    type Error = ();

    fn try_from(value: Value) -> (r: Result<bool, ()>) {
        match value {
            Value::Bool(inner) => Ok(inner),
            _ => Err(()),
        }
    }
}

impl vstd::std_specs::convert::TryFromSpecImpl<Value> for bool {
    open spec fn obeys_try_from_spec() -> bool {
        true
    }

    open spec fn try_from_spec(value: Value) -> Result<bool, ()> {
        match value {
            Value::Bool(inner) => Ok(inner),
            _ => Err(()),
        }
    }
}

impl From<Vec<u8>> for Value {
    fn from(value: Vec<u8>) -> (r: Value) {
        Value::Bytes(value)
    }
}

impl vstd::std_specs::convert::FromSpecImpl<Vec<u8>> for Value {
    open spec fn obeys_from_spec() -> bool {
        true
    }

    open spec fn from_spec(value: Vec<u8>) -> Value {
        Value::Bytes(value)
    }
}

impl TryFrom<Value> for Vec<u8> {
    type Error = ();

    fn try_from(value: Value) -> (r: Result<Vec<u8>, ()>) {
        match value {
            Value::Bytes(inner) => Ok(inner),
            _ => Err(()),
        }
    }
}

impl vstd::std_specs::convert::TryFromSpecImpl<Value> for Vec<u8> {
    open spec fn obeys_try_from_spec() -> bool {
        true
    }

    open spec fn try_from_spec(value: Value) -> Result<Vec<u8>, ()> {
        match value {
            Value::Bytes(inner) => Ok(inner),
            _ => Err(()),
        }
    }
}

impl From<isize> for Value {
    fn from(value: isize) -> (r: Value) {
        Value::ISize(value)
    }
}

impl vstd::std_specs::convert::FromSpecImpl<isize> for Value {
    open spec fn obeys_from_spec() -> bool {
        true
    }

    open spec fn from_spec(value: isize) -> Value {
        Value::ISize(value)
    }
}

impl TryFrom<Value> for isize {
    type Error = ();

    fn try_from(value: Value) -> (r: Result<isize, ()>) {
        match value {
            Value::ISize(inner) => Ok(inner),
            _ => Err(()),
        }
    }
}

impl vstd::std_specs::convert::TryFromSpecImpl<Value> for isize {
    open spec fn obeys_try_from_spec() -> bool {
        true
    }

    open spec fn try_from_spec(value: Value) -> Result<isize, ()> {
        match value {
            Value::ISize(inner) => Ok(inner),
            _ => Err(()),
        }
    }
}

impl From<String> for Value {
    fn from(value: String) -> (r: Value) {
        Value::String(value)
    }
}

impl vstd::std_specs::convert::FromSpecImpl<String> for Value {
    open spec fn obeys_from_spec() -> bool {
        true
    }

    open spec fn from_spec(value: String) -> Value {
        Value::String(value)
    }
}

impl TryFrom<Value> for String {
    type Error = ();

    fn try_from(value: Value) -> (r: Result<String, ()>) {
        match value {
            Value::String(inner) => Ok(inner),
            _ => Err(()),
        }
    }
}

impl vstd::std_specs::convert::TryFromSpecImpl<Value> for String {
    open spec fn obeys_try_from_spec() -> bool {
        true
    }

    open spec fn try_from_spec(value: Value) -> Result<String, ()> {
        match value {
            Value::String(inner) => Ok(inner),
            _ => Err(()),
        }
    }
}

impl From<usize> for Value {
    fn from(value: usize) -> (r: Value) {
        Value::USize(value)
    }
}

impl vstd::std_specs::convert::FromSpecImpl<usize> for Value {
    open spec fn obeys_from_spec() -> bool {
        true
    }

    open spec fn from_spec(value: usize) -> Value {
        Value::USize(value)
    }
}

impl TryFrom<Value> for usize {
    type Error = ();

    fn try_from(value: Value) -> (r: Result<usize, ()>) {
        match value {
            Value::USize(inner) => Ok(inner),
            _ => Err(()),
        }
    }
}

impl vstd::std_specs::convert::TryFromSpecImpl<Value> for usize {
    open spec fn obeys_try_from_spec() -> bool {
        true
    }

    open spec fn try_from_spec(value: Value) -> Result<usize, ()> {
        match value {
            Value::USize(inner) => Ok(inner),
            _ => Err(()),
        }
    }
}

impl From<Vec<Value>> for Value {
    fn from(value: Vec<Value>) -> (r: Value) {
        Value::Vec(value)
    }
}

impl vstd::std_specs::convert::FromSpecImpl<Vec<Value>> for Value {
    open spec fn obeys_from_spec() -> bool {
        true
    }

    open spec fn from_spec(value: Vec<Value>) -> Value {
        Value::Vec(value)
    }
}

impl TryFrom<Value> for Vec<Value> {
    type Error = ();

    fn try_from(value: Value) -> (r: Result<Vec<Value>, ()>) {
        match value {
            Value::Vec(inner) => Ok(inner),
            _ => Err(()),
        }
    }
}

impl vstd::std_specs::convert::TryFromSpecImpl<Value> for Vec<Value> {
    open spec fn obeys_try_from_spec() -> bool {
        true
    }

    open spec fn try_from_spec(value: Value) -> Result<Vec<Value>, ()> {
        match value {
            Value::Vec(inner) => Ok(inner),
            _ => Err(()),
        }
    }
}

/// Conversions are lossless: a payload turned into a value and narrowed back to
/// its own type comes back unchanged, a value narrows exactly when it holds
/// that type, and the narrowed payload turns back into the same value.
pub proof fn lemma_conversion_round_trip(v: Value)
    ensures
        forall|x: bool| #[trigger] <bool as TryFromSpec<Value>>::try_from_spec(Value::from_spec(x)) == Ok::<bool, ()>(x),
        (<bool as TryFromSpec<Value>>::try_from_spec(v) is Ok) == (v is Bool),
        <bool as TryFromSpec<Value>>::try_from_spec(v) is Ok ==> Value::from_spec(<bool as TryFromSpec<Value>>::try_from_spec(v)->Ok_0) == v,
        forall|x: Vec<u8>| #[trigger] <Vec<u8> as TryFromSpec<Value>>::try_from_spec(Value::from_spec(x)) == Ok::<Vec<u8>, ()>(x),
        (<Vec<u8> as TryFromSpec<Value>>::try_from_spec(v) is Ok) == (v is Bytes),
        <Vec<u8> as TryFromSpec<Value>>::try_from_spec(v) is Ok ==> Value::from_spec(<Vec<u8> as TryFromSpec<Value>>::try_from_spec(v)->Ok_0) == v,
        forall|x: isize| #[trigger] <isize as TryFromSpec<Value>>::try_from_spec(Value::from_spec(x)) == Ok::<isize, ()>(x),
        (<isize as TryFromSpec<Value>>::try_from_spec(v) is Ok) == (v is ISize),
        <isize as TryFromSpec<Value>>::try_from_spec(v) is Ok ==> Value::from_spec(<isize as TryFromSpec<Value>>::try_from_spec(v)->Ok_0) == v,
        forall|x: String| #[trigger] <String as TryFromSpec<Value>>::try_from_spec(Value::from_spec(x)) == Ok::<String, ()>(x),
        (<String as TryFromSpec<Value>>::try_from_spec(v) is Ok) == (v is String),
        <String as TryFromSpec<Value>>::try_from_spec(v) is Ok ==> Value::from_spec(<String as TryFromSpec<Value>>::try_from_spec(v)->Ok_0) == v,
        forall|x: usize| #[trigger] <usize as TryFromSpec<Value>>::try_from_spec(Value::from_spec(x)) == Ok::<usize, ()>(x),
        (<usize as TryFromSpec<Value>>::try_from_spec(v) is Ok) == (v is USize),
        <usize as TryFromSpec<Value>>::try_from_spec(v) is Ok ==> Value::from_spec(<usize as TryFromSpec<Value>>::try_from_spec(v)->Ok_0) == v,
        forall|x: Vec<Value>| #[trigger] <Vec<Value> as TryFromSpec<Value>>::try_from_spec(Value::from_spec(x)) == Ok::<Vec<Value>, ()>(x),
        (<Vec<Value> as TryFromSpec<Value>>::try_from_spec(v) is Ok) == (v is Vec),
        <Vec<Value> as TryFromSpec<Value>>::try_from_spec(v) is Ok ==> Value::from_spec(<Vec<Value> as TryFromSpec<Value>>::try_from_spec(v)->Ok_0) == v,
{
}

} // verus!
