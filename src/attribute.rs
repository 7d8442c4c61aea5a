use vstd::prelude::*;

use crate::error::{BindingError, ErrorKind};

verus! {

/// A value handed over by the host, as the binding sees it.
/// A floating-point number travels as its IEEE-754 bit pattern.
#[derive(Debug)]
pub enum HostValue {
    Nil,
    Bool(bool),
    Integer(i64),
    Float(u64),
    Text(String),
    Sequence(Vec<HostValue>),
    Symbol(String),
    /// Any other host object, by the name of its class.
    Object(String),
}

/// One typed tracing attribute value. `F64` holds the bit pattern of the number.
#[derive(Debug)]
pub enum AttributeValue {
    Bool(bool),
    I64(i64),
    F64(u64),
    Str(String),
}

impl AttributeValue {
    /// A copy of the value.
    pub fn duplicate(&self) -> (r: AttributeValue)
        ensures
            r == *self,
    {
        match self {
            AttributeValue::Bool(b) => AttributeValue::Bool(*b),
            AttributeValue::I64(i) => AttributeValue::I64(*i),
            AttributeValue::F64(bits) => AttributeValue::F64(*bits),
            AttributeValue::Str(s) => AttributeValue::Str(s.clone()),
        }
    }
}

/// The host values that have an attribute variant.
pub open spec fn is_scalar(v: HostValue) -> bool {
    match v {
        HostValue::Bool(_) | HostValue::Integer(_) | HostValue::Float(_) | HostValue::Text(_) => true,
        _ => false,
    }
}

/// The attribute variant of a host value, first match wins; `None` where no variant fits.
pub open spec fn convert(v: HostValue) -> Option<AttributeValue> {
    match v {
        HostValue::Bool(b) => Some(AttributeValue::Bool(b)),
        HostValue::Integer(i) => Some(AttributeValue::I64(i)),
        HostValue::Float(bits) => Some(AttributeValue::F64(bits)),
        HostValue::Text(s) => Some(AttributeValue::Str(s)),
        _ => None,
    }
}

/// The host value that an attribute value reads back as.
pub open spec fn host_value_of(a: AttributeValue) -> HostValue {
    match a {
        AttributeValue::Bool(b) => HostValue::Bool(b),
        AttributeValue::I64(i) => HostValue::Integer(i),
        AttributeValue::F64(bits) => HostValue::Float(bits),
        AttributeValue::Str(s) => HostValue::Text(s),
    }
}

/// Every value of a key/value batch has an attribute variant.
pub open spec fn all_scalar(pairs: Seq<(String, HostValue)>) -> bool {
    forall|i: int| 0 <= i < pairs.len() ==> is_scalar(#[trigger] pairs[i].1)
}

/// The converted batch: keys kept in order, duplicates included.
pub open spec fn converted_pairs(pairs: Seq<(String, HostValue)>) -> Seq<(String, AttributeValue)> {
    pairs.map_values(|p: (String, HostValue)| (p.0, convert(p.1)->Some_0))
}

/// Converts one host value into its attribute variant.
pub fn to_attribute_value(value: &HostValue) -> (r: Result<AttributeValue, BindingError>)
    ensures
        r.is_ok() == is_scalar(*value),
        r matches Ok(a) ==> convert(*value) == Some(a),
        r matches Err(e) ==> e.kind == ErrorKind::TypeConversion,
{
    match value {
        HostValue::Bool(b) => Ok(AttributeValue::Bool(*b)),
        HostValue::Integer(i) => Ok(AttributeValue::I64(*i)),
        HostValue::Float(bits) => Ok(AttributeValue::F64(*bits)),
        HostValue::Text(s) => Ok(AttributeValue::Str(s.clone())),
        HostValue::Sequence(_) => Err(
            BindingError::with_text(ErrorKind::TypeConversion, "sequences are not supported as attribute values"),
        ),
        _ => Err(BindingError::with_text(ErrorKind::TypeConversion, "unsupported attribute value type")),
    }
}

/// Reads an attribute value back as a host value.
pub fn to_host_value(a: &AttributeValue) -> (r: HostValue)
    ensures
        r == host_value_of(*a),
{
    match a {
        AttributeValue::Bool(b) => HostValue::Bool(*b),
        AttributeValue::I64(i) => HostValue::Integer(*i),
        AttributeValue::F64(bits) => HostValue::Float(*bits),
        AttributeValue::Str(s) => HostValue::Text(s.clone()),
    }
}

/// Converts a key/value batch, all or nothing: keys keep their order and duplicates stay.
pub fn to_attribute_list(pairs: &Vec<(String, HostValue)>) -> (r: Result<Vec<(String, AttributeValue)>, BindingError>)
    ensures
        r.is_ok() == all_scalar(pairs@),
        r matches Ok(l) ==> l@ == converted_pairs(pairs@),
        r matches Err(e) ==> e.kind == ErrorKind::TypeConversion,
{
    let mut out: Vec<(String, AttributeValue)> = Vec::new();
    let mut i: usize = 0;
    while i < pairs.len()
        invariant
            i <= pairs@.len(),
            all_scalar(pairs@.take(i as int)),
            out@ == converted_pairs(pairs@.take(i as int)),
        decreases pairs@.len() - i,
    {
        let (key, value) = &pairs[i];
        match to_attribute_value(value) {
            Ok(a) => {
                out.push((key.clone(), a));
                proof {
                    assert(pairs@.take(i as int + 1) =~= pairs@.take(i as int).push(pairs@[i as int]));
                    assert(converted_pairs(pairs@.take(i as int + 1)) =~= converted_pairs(pairs@.take(i as int)).push(
                        (pairs@[i as int].0, a),
                    ));
                }
                i = i + 1;
            },
            Err(e) => {
                assert(!is_scalar(pairs@[i as int].1));
                return Err(e);
            },
        }
    }
    assert(pairs@.take(i as int) =~= pairs@);
    Ok(out)
}

/// Converting a boolean, integer, float or text value and reading it back gives the value unchanged.
pub proof fn lemma_scalar_round_trip(v: HostValue)
    requires
        is_scalar(v),
    ensures
        convert(v) is Some,
        host_value_of(convert(v)->Some_0) == v,
{
}

/// Values of any other shape, sequences included, have no attribute variant,
/// and a batch that holds one converts to nothing.
pub proof fn lemma_unsupported_rejected(pairs: Seq<(String, HostValue)>, i: int)
    requires
        0 <= i < pairs.len(),
        !is_scalar(pairs[i].1),
    ensures
        convert(pairs[i].1) is None,
        !all_scalar(pairs),
{
}

} // verus!
