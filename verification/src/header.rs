//! Header fields of a request or a response.
//!
//! A header map is an ordered list of fields. Names are matched without
//! regard to ASCII case, and a name may occur several times.

use vstd::prelude::*;
use vstd::string::StringSliceAdditionalSpecFns;
use vstd::slice::slice_to_vec;

verus! {

/// One header field.
#[derive(Debug)]
pub struct Header {
    pub name: Vec<u8>,
    pub value: Vec<u8>,
}

/// The mathematical content of a [`Header`].
pub struct HeaderView {
    pub name: Seq<u8>,
    pub value: Seq<u8>,
}

impl DeepView for Header {
    type V = HeaderView;

    open spec fn deep_view(&self) -> HeaderView {
        HeaderView { name: self.name@, value: self.value@ }
    }
}

impl View for Header {
    type V = HeaderView;

    open spec fn view(&self) -> HeaderView {
        self.deep_view()
    }
}

/// The lower-case form of an ASCII letter; any other byte unchanged.
pub open spec fn fold(b: u8) -> u8 {
    if 65 <= b <= 90 {
        (b + 32) as u8
    } else {
        b
    }
}

/// Whether two header names are the same name: equal but for ASCII case.
pub open spec fn same_name(a: Seq<u8>, b: Seq<u8>) -> bool {
    &&& a.len() == b.len()
    &&& forall|i: int| 0 <= i < a.len() ==> fold(#[trigger] a[i]) == fold(b[i])
}

/// The fields of `fields` whose name is not `name`, in their order.
pub open spec fn without(fields: Seq<HeaderView>, name: Seq<u8>) -> Seq<HeaderView>
    decreases fields.len(),
{
    if fields.len() == 0 {
        fields
    } else if same_name(fields.last().name, name) {
        without(fields.drop_last(), name)
    } else {
        without(fields.drop_last(), name).push(fields.last())
    }
}

/// The values of the fields of `fields` whose name is `name`, in their order.
pub open spec fn values_of(fields: Seq<HeaderView>, name: Seq<u8>) -> Seq<Seq<u8>>
    decreases fields.len(),
{
    if fields.len() == 0 {
        Seq::empty()
    } else if same_name(fields.last().name, name) {
        values_of(fields.drop_last(), name).push(fields.last().value)
    } else {
        values_of(fields.drop_last(), name)
    }
}

/// Whether `fields` holds exactly one field named `name`, with value `value`.
pub open spec fn holds_only(fields: Seq<HeaderView>, name: Seq<u8>, value: Seq<u8>) -> bool {
    values_of(fields, name) == seq![value]
}

/// Removing a name leaves no value under it.
pub proof fn lemma_without_has_none(fields: Seq<HeaderView>, name: Seq<u8>)
    ensures
        values_of(without(fields, name), name) == Seq::<Seq<u8>>::empty(),
    decreases fields.len(),
{
    if fields.len() > 0 {
        lemma_without_has_none(fields.drop_last(), name);
        if !same_name(fields.last().name, name) {
            let rest = without(fields.drop_last(), name);
            assert(rest.push(fields.last()).drop_last() == rest);
        }
    }
}

/// Being the same name goes both ways.
pub proof fn lemma_same_name_symmetric(a: Seq<u8>, b: Seq<u8>)
    ensures
        same_name(a, b) == same_name(b, a),
{
    if same_name(a, b) {
        assert forall|i: int| 0 <= i < b.len() implies fold(#[trigger] b[i]) == fold(a[i]) by {
            assert(fold(a[i]) == fold(b[i]));
        }
    }
    if same_name(b, a) {
        assert forall|i: int| 0 <= i < a.len() implies fold(#[trigger] a[i]) == fold(b[i]) by {
            assert(fold(b[i]) == fold(a[i]));
        }
    }
}

/// Being the same name carries over: two names that are the same as a third
/// are the same.
pub proof fn lemma_same_name_transitive(a: Seq<u8>, b: Seq<u8>, c: Seq<u8>)
    requires
        same_name(a, b),
        same_name(b, c),
    ensures
        same_name(a, c),
{
    assert forall|i: int| 0 <= i < a.len() implies fold(#[trigger] a[i]) == fold(c[i]) by {
        assert(fold(a[i]) == fold(b[i]));
        assert(fold(b[i]) == fold(c[i]));
    }
}

/// Taking out one name leaves the values under every other name as they were.
pub proof fn lemma_without_keeps_others(fields: Seq<HeaderView>, name: Seq<u8>, other: Seq<u8>)
    requires
        !same_name(name, other),
    ensures
        values_of(without(fields, name), other) == values_of(fields, other),
    decreases fields.len(),
{
    if fields.len() > 0 {
        lemma_without_keeps_others(fields.drop_last(), name, other);
        let last = fields.last();
        if same_name(last.name, name) {
            if same_name(last.name, other) {
                lemma_same_name_symmetric(last.name, name);
                lemma_same_name_transitive(name, last.name, other);
            }
        } else {
            let rest = without(fields.drop_last(), name);
            assert(rest.push(last).drop_last() == rest);
        }
    }
}

/// Setting one name leaves the values under every other name as they were.
pub proof fn lemma_stamped_keeps_others(
    fields: Seq<HeaderView>,
    name: Seq<u8>,
    value: Seq<u8>,
    other: Seq<u8>,
)
    requires
        !same_name(name, other),
    ensures
        values_of(without(fields, name).push(HeaderView { name, value }), other) == values_of(
            fields,
            other,
        ),
{
    lemma_without_keeps_others(fields, name, other);
    let rest = without(fields, name);
    assert(rest.push(HeaderView { name, value }).drop_last() == rest);
}

/// After a name was set to one value, that value is all there is under it.
pub proof fn lemma_stamped_holds_only(fields: Seq<HeaderView>, name: Seq<u8>, value: Seq<u8>)
    ensures
        holds_only(without(fields, name).push(HeaderView { name, value }), name, value),
{
    let rest = without(fields, name);
    lemma_without_has_none(fields, name);
    let field = HeaderView { name, value };
    assert(rest.push(field).drop_last() == rest);
    assert(same_name(name, name));
    assert(values_of(rest.push(field), name) == values_of(rest, name).push(value));
    assert(Seq::<Seq<u8>>::empty().push(value) =~= seq![value]);
}

/// Whether two names are the same name.
pub fn eq_ignore_case(a: &[u8], b: &[u8]) -> (same: bool)
    ensures
        same == same_name(a@, b@),
{
    if a.len() != b.len() {
        return false;
    }
    let mut i: usize = 0;
    while i < a.len()
        invariant
            i <= a.len(),
            a.len() == b.len(),
            forall|j: int| 0 <= j < i ==> fold(#[trigger] a@[j]) == fold(b@[j]),
        decreases a.len() - i,
    {
        let x = a[i];
        let y = b[i];
        let fx: u8 = if 65 <= x && x <= 90 { x + 32 } else { x };
        let fy: u8 = if 65 <= y && y <= 90 { y + 32 } else { y };
        if fx != fy {
            assert(fold(a@[i as int]) != fold(b@[i as int]));
            return false;
        }
        i += 1;
    }
    true
}

/// An ordered list of header fields.
#[derive(Debug)]
pub struct HeaderMap {
    fields: Vec<Header>,
}

impl View for HeaderMap {
    type V = Seq<HeaderView>;

    closed spec fn view(&self) -> Seq<HeaderView> {
        self.fields.deep_view()
    }
}

impl DeepView for HeaderMap {
    type V = Seq<HeaderView>;

    open spec fn deep_view(&self) -> Seq<HeaderView> {
        self@
    }
}

impl Clone for HeaderMap {
    fn clone(&self) -> (copy: Self)
        ensures
            copy@ == self@,
    {
        let mut fields: Vec<Header> = Vec::new();
        let mut i: usize = 0;
        while i < self.fields.len()
            invariant
                i <= self.fields.len(),
                fields.len() == i,
                forall|j: int| 0 <= j < i ==> fields@[j]@ == self.fields@[j]@,
            decreases self.fields.len() - i,
        {
            let field = &self.fields[i];
            fields.push(Header { name: field.name.clone(), value: field.value.clone() });
            i += 1;
        }
        assert(fields.deep_view() =~= self.fields.deep_view());
        HeaderMap { fields }
    }
}

impl HeaderMap {
    /// A map without fields.
    pub fn new() -> (map: HeaderMap)
        ensures
            map@ == Seq::<HeaderView>::empty(),
    {
        let map = HeaderMap { fields: Vec::new() };
        assert(map.fields.deep_view() =~= Seq::<HeaderView>::empty());
        map
    }

    /// The number of fields.
    pub fn len(&self) -> (n: usize)
        ensures
            n == self@.len(),
    {
        self.fields.len()
    }

    /// Adds a field after those that are there; fields of the same name stay.
    pub fn append(&mut self, name: &str, value: &[u8])
        ensures
            final(self)@ == old(self)@.push(
                HeaderView { name: name.spec_bytes(), value: value@ },
            ),
    {
        self.append_raw(name.as_bytes(), value);
    }

    /// Adds a field whose name is given as bytes.
    pub fn append_raw(&mut self, name: &[u8], value: &[u8])
        ensures
            final(self)@ == old(self)@.push(HeaderView { name: name@, value: value@ }),
    {
        let field = Header { name: slice_to_vec(name), value: slice_to_vec(value) };
        self.fields.push(field);
        assert(self.fields.deep_view() =~= old(self).fields.deep_view().push(
            HeaderView { name: name@, value: value@ },
        ));
    }

    /// Takes out every field named `name`.
    pub fn remove(&mut self, name: &str)
        ensures
            final(self)@ == without(old(self)@, name.spec_bytes()),
    {
        self.remove_raw(name.as_bytes());
    }

    /// Takes out every field with the name given as bytes.
    pub fn remove_raw(&mut self, name: &[u8])
        ensures
            final(self)@ == without(old(self)@, name@),
    {
        let mut kept: Vec<Header> = Vec::new();
        let mut taken: Vec<Header> = Vec::new();
        std::mem::swap(&mut self.fields, &mut taken);
        let ghost all = taken.deep_view();
        let n = taken.len();
        let mut i: usize = 0;
        while i < n
            invariant
                i <= n,
                n == taken.len(),
                taken.deep_view() == all,
                kept.deep_view() == without(all.subrange(0, i as int), name@),
            decreases n - i,
        {
            let field = &taken[i];
            let ghost prev = kept.deep_view();
            assert(all.subrange(0, i + 1).drop_last() == all.subrange(0, i as int));
            assert(all.subrange(0, i + 1).last() == taken@[i as int]@);
            if !eq_ignore_case(field.name.as_slice(), name) {
                kept.push(Header { name: field.name.clone(), value: field.value.clone() });
                assert(kept.deep_view() =~= prev.push(taken@[i as int]@));
            }
            i += 1;
        }
        assert(all.subrange(0, n as int) == all);
        self.fields = kept;
    }

    /// Sets `name` to the one value `value`: fields of that name are replaced.
    pub fn insert(&mut self, name: &str, value: &[u8])
        ensures
            final(self)@ == without(old(self)@, name.spec_bytes()).push(
                HeaderView { name: name.spec_bytes(), value: value@ },
            ),
            holds_only(final(self)@, name.spec_bytes(), value@),
    {
        self.insert_raw(name.as_bytes(), value);
    }

    /// Sets the name given as bytes to the one value `value`.
    pub fn insert_raw(&mut self, name: &[u8], value: &[u8])
        ensures
            final(self)@ == without(old(self)@, name@).push(
                HeaderView { name: name@, value: value@ },
            ),
            holds_only(final(self)@, name@, value@),
    {
        self.remove_raw(name);
        self.append_raw(name, value);
        proof {
            lemma_stamped_holds_only(old(self)@, name@, value@);
        }
    }

    /// The values of the fields named `name`, in their order.
    pub fn get_all(&self, name: &str) -> (values: Vec<Vec<u8>>)
        ensures
            values.deep_view() == values_of(self@, name.spec_bytes()),
    {
        let wanted = name.as_bytes();
        let mut values: Vec<Vec<u8>> = Vec::new();
        let n = self.fields.len();
        let ghost all = self.fields.deep_view();
        assert(values.deep_view() =~= Seq::<Seq<u8>>::empty());
        let mut i: usize = 0;
        while i < n
            invariant
                i <= n,
                n == self.fields.len(),
                all == self.fields.deep_view(),
                wanted@ == name.spec_bytes(),
                values.deep_view() == values_of(all.subrange(0, i as int), name.spec_bytes()),
            decreases n - i,
        {
            let field = &self.fields[i];
            let ghost prev = values.deep_view();
            assert(all.subrange(0, i + 1).drop_last() == all.subrange(0, i as int));
            assert(all.subrange(0, i + 1).last() == self.fields@[i as int]@);
            if eq_ignore_case(field.name.as_slice(), wanted) {
                let value = field.value.clone();
                assert(value.deep_view() =~= field.value@);
                values.push(value);
                assert(values.deep_view() =~= prev.push(self.fields@[i as int].value@));
            }
            i += 1;
        }
        assert(all.subrange(0, n as int) == all);
        values
    }

    /// The field at a position, in the order of the map, if there is one.
    pub fn get(&self, i: usize) -> (field: Option<&Header>)
        ensures
            match field {
                Some(field) => i < self@.len() && field@ == self@[i as int],
                None => i >= self@.len(),
            },
    {
        if i < self.fields.len() {
            Some(&self.fields[i])
        } else {
            None
        }
    }

    /// Whether a field named `name` is there.
    pub fn contains(&self, name: &str) -> (found: bool)
        ensures
            found == (values_of(self@, name.spec_bytes()).len() > 0),
    {
        self.get_all(name).len() > 0
    }
}

} // verus!
