use vstd::prelude::*;

use crate::attribute::{
    all_scalar, convert, converted_pairs, is_scalar, to_attribute_list, to_attribute_value, AttributeValue,
    HostValue,
};
use crate::error::{BindingError, ErrorKind};
use crate::registry::{Entry, Registry};

verus! {

/// The attribute set that a list of pairs stands for: a later pair overrides an earlier one.
pub open spec fn attr_map(s: Seq<(String, AttributeValue)>) -> Map<Seq<char>, AttributeValue>
    decreases s.len(),
{
    if s.len() == 0 {
        Map::empty()
    } else {
        attr_map(s.drop_last()).insert(s.last().0@, s.last().1)
    }
}

/// No key occurs twice.
pub open spec fn keys_unique(s: Seq<(String, AttributeValue)>) -> bool {
    forall|i: int, j: int| 0 <= i < j < s.len() ==> (#[trigger] s[i]).0@ != (#[trigger] s[j]).0@
}

/// An attribute set after applying a converted batch in its order.
pub open spec fn apply_pairs(m: Map<Seq<char>, AttributeValue>, pairs: Seq<(String, AttributeValue)>) -> Map<
    Seq<char>,
    AttributeValue,
>
    decreases pairs.len(),
{
    if pairs.len() == 0 {
        m
    } else {
        apply_pairs(m, pairs.drop_last()).insert(pairs.last().0@, pairs.last().1)
    }
}

proof fn lemma_update_existing(s: Seq<(String, AttributeValue)>, i: int, k: String, v: AttributeValue)
    requires
        keys_unique(s),
        0 <= i < s.len(),
        s[i].0@ == k@,
    ensures
        attr_map(s.update(i, (k, v))) == attr_map(s).insert(k@, v),
        keys_unique(s.update(i, (k, v))),
    decreases s.len(),
{
    let t = s.update(i, (k, v));
    if i == s.len() - 1 {
        assert(t.drop_last() =~= s.drop_last());
        assert(attr_map(t) =~= attr_map(s).insert(k@, v));
    } else {
        assert(t.drop_last() =~= s.drop_last().update(i, (k, v)));
        lemma_update_existing(s.drop_last(), i, k, v);
        assert(s.last().0@ != k@);
        assert(attr_map(t) =~= attr_map(s).insert(k@, v));
    }
}

/// One in-flight trace span: its name, the scope of the tracer that started it,
/// its attribute set, and whether it has ended.
#[derive(Debug)]
pub struct Span {
    pub name: String,
    pub tracer_name: String,
    pub tracer_version: Option<String>,
    pub attributes: Vec<(String, AttributeValue)>,
    pub ended: bool,
}

impl Span {
    /// The attribute set of the span, by key.
    pub open spec fn attrs(&self) -> Map<Seq<char>, AttributeValue> {
        attr_map(self.attributes@)
    }

    pub open spec fn wf(&self) -> bool {
        keys_unique(self.attributes@)
    }

    /// A freshly started span with no attributes, from the tracer of the given scope.
    pub fn new(name: String, tracer_name: String, tracer_version: Option<String>) -> (r: Span)
        ensures
            r.wf(),
            r.name == name,
            r.tracer_name == tracer_name,
            r.tracer_version == tracer_version,
            r.attrs() == Map::<Seq<char>, AttributeValue>::empty(),
            !r.ended,
    {
        Span { name, tracer_name, tracer_version, attributes: Vec::new(), ended: false }
    }

    /// Whether the span still records; false once it has ended.
    pub fn is_recording(&self) -> (r: bool)
        ensures
            r == !self.ended,
    {
        !self.ended
    }

    fn upsert(&mut self, key: String, value: AttributeValue)
        requires
            old(self).wf(),
        ensures
            final(self).wf(),
            final(self).attrs() == old(self).attrs().insert(key@, value),
            final(self).name == old(self).name,
            final(self).tracer_name == old(self).tracer_name,
            final(self).tracer_version == old(self).tracer_version,
            final(self).ended == old(self).ended,
    {
        let mut i: usize = 0;
        while i < self.attributes.len()
            invariant
                i <= self.attributes@.len(),
                *self == *old(self),
                self.wf(),
                forall|j: int| 0 <= j < i ==> (#[trigger] self.attributes@[j]).0@ != key@,
            decreases self.attributes@.len() - i,
        {
            if self.attributes[i].0 == key {
                proof {
                    lemma_update_existing(self.attributes@, i as int, key, value);
                }
                self.attributes.set(i, (key, value));
                return;
            }
            i = i + 1;
        }
        proof {
            let s = self.attributes@;
            assert(s.push((key, value)).drop_last() =~= s);
        }
        self.attributes.push((key, value));
    }

    /// Sets one attribute, replacing any earlier value under the same key.
    /// An unsupported value fails and changes nothing; an ended span keeps its attributes.
    /// On success returns the converted value.
    pub fn set_attribute(&mut self, key: String, value: &HostValue) -> (r: Result<AttributeValue, BindingError>)
        requires
            old(self).wf(),
        ensures
            final(self).wf(),
            r.is_ok() == is_scalar(*value),
            r matches Err(e) ==> e.kind == ErrorKind::TypeConversion,
            r matches Ok(a) ==> convert(*value) == Some(a),
            final(self).attrs() == if r.is_ok() && !old(self).ended {
                old(self).attrs().insert(key@, convert(*value)->Some_0)
            } else {
                old(self).attrs()
            },
            final(self).name == old(self).name,
            final(self).tracer_name == old(self).tracer_name,
            final(self).tracer_version == old(self).tracer_version,
            final(self).ended == old(self).ended,
    {
        let a = to_attribute_value(value)?;
        if !self.ended {
            self.upsert(key, a.duplicate());
        }
        Ok(a)
    }

    /// Applies a batch of attributes in order, all or nothing: if any value is unsupported
    /// the call fails and no attribute of the batch is applied. On success returns the
    /// converted batch.
    pub fn add_attributes(&mut self, pairs: &Vec<(String, HostValue)>) -> (r: Result<
        Vec<(String, AttributeValue)>,
        BindingError,
    >)
        requires
            old(self).wf(),
        ensures
            final(self).wf(),
            r.is_ok() == all_scalar(pairs@),
            r matches Err(e) ==> e.kind == ErrorKind::TypeConversion,
            r matches Ok(l) ==> l@ == converted_pairs(pairs@),
            final(self).attrs() == if r.is_ok() && !old(self).ended {
                apply_pairs(old(self).attrs(), converted_pairs(pairs@))
            } else {
                old(self).attrs()
            },
            final(self).name == old(self).name,
            final(self).tracer_name == old(self).tracer_name,
            final(self).tracer_version == old(self).tracer_version,
            final(self).ended == old(self).ended,
    {
        let list = to_attribute_list(pairs)?;
        if !self.ended {
            let ghost start = self.attrs();
            let mut i: usize = 0;
            while i < list.len()
                invariant
                    i <= list@.len(),
                    self.wf(),
                    self.attrs() == apply_pairs(start, list@.take(i as int)),
                    self.name == old(self).name,
                    self.tracer_name == old(self).tracer_name,
                    self.tracer_version == old(self).tracer_version,
                    self.ended == old(self).ended,
                decreases list@.len() - i,
            {
                let (k, v) = &list[i];
                self.upsert(k.clone(), v.duplicate());
                proof {
                    assert(list@.take(i as int + 1).drop_last() =~= list@.take(i as int));
                }
                i = i + 1;
            }
            assert(list@.take(i as int) =~= list@);
        }
        Ok(list)
    }

    /// Renames the span; an ended span keeps its name.
    pub fn update_name(&mut self, name: String)
        ensures
            final(self).name == if old(self).ended {
                old(self).name
            } else {
                name
            },
            final(self).attributes == old(self).attributes,
            final(self).tracer_name == old(self).tracer_name,
            final(self).tracer_version == old(self).tracer_version,
            final(self).ended == old(self).ended,
    {
        if !self.ended {
            self.name = name;
        }
    }

    /// Ends the span now. An explicit end timestamp is not supported: it is rejected
    /// and the span stays as it was.
    pub fn finish(&mut self, end_timestamp: Option<HostValue>) -> (r: Result<(), BindingError>)
        ensures
            r.is_ok() == end_timestamp.is_none(),
            r matches Err(e) ==> e.kind == ErrorKind::Unimplemented,
            final(self).ended == (old(self).ended || r.is_ok()),
            final(self).name == old(self).name,
            final(self).tracer_name == old(self).tracer_name,
            final(self).tracer_version == old(self).tracer_version,
            final(self).attributes == old(self).attributes,
    {
        if end_timestamp.is_some() {
            return Err(BindingError::with_text(ErrorKind::Unimplemented, "end_timestamp is not supported"));
        }
        self.ended = true;
        Ok(())
    }
}

/// The publications of the span class.
pub open spec fn span_entries() -> Seq<Entry> {
    seq![
        Entry::Class { namespace: "OpenTelemetry::SDK::Trace", name: "Span" },
        Entry::Method { class: "OpenTelemetry::SDK::Trace::Span", name: "finish", arity: -1i32 },
        Entry::Method { class: "OpenTelemetry::SDK::Trace::Span", name: "recording?", arity: 0 },
        Entry::Method { class: "OpenTelemetry::SDK::Trace::Span", name: "set_attribute", arity: 2 },
        Entry::Method { class: "OpenTelemetry::SDK::Trace::Span", name: "add_attribute", arity: 1 },
        Entry::Method { class: "OpenTelemetry::SDK::Trace::Span", name: "name=", arity: 1 },
    ]
}

/// Publishes the span class and its methods.
pub fn init(reg: &mut Registry) -> (r: Result<(), BindingError>)
    ensures
        r.is_ok(),
        final(reg).entries@ == old(reg).entries@ + span_entries(),
{
    reg.add(Entry::Class { namespace: "OpenTelemetry::SDK::Trace", name: "Span" });
    reg.add(Entry::Method { class: "OpenTelemetry::SDK::Trace::Span", name: "finish", arity: -1i32 });
    reg.add(Entry::Method { class: "OpenTelemetry::SDK::Trace::Span", name: "recording?", arity: 0 });
    reg.add(Entry::Method { class: "OpenTelemetry::SDK::Trace::Span", name: "set_attribute", arity: 2 });
    reg.add(Entry::Method { class: "OpenTelemetry::SDK::Trace::Span", name: "add_attribute", arity: 1 });
    reg.add(Entry::Method { class: "OpenTelemetry::SDK::Trace::Span", name: "name=", arity: 1 });
    assert(final(reg).entries@ =~= old(reg).entries@ + span_entries());
    Ok(())
}

} // verus!
