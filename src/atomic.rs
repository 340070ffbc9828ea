use vstd::prelude::*;

use vstd::std_specs::cmp::PartialEqSpec;
use vstd::std_specs::cmp::PartialOrdSpec;

use crate::device::Device;
use crate::error::Error;
use crate::object::Object;
use crate::property::first_match;
use crate::transport::Transport;

verus! {

/// One property write of a transaction: the value `value` for the property
/// `property_id` of the object `object_id`.
#[derive(Debug, Clone, Copy)]
pub struct AtomicProperty {
    pub object_id: u32,
    pub property_id: u32,
    pub value: u64,
}

/// Two writes address the same property of the same object.
pub open spec fn same_key(a: AtomicProperty, b: AtomicProperty) -> bool {
    a.object_id == b.object_id && a.property_id == b.property_id
}

/// The key of `a` comes strictly before the key of `b`, ordering by object id
/// and then by property id.
pub open spec fn key_lt(a: AtomicProperty, b: AtomicProperty) -> bool {
    a.object_id < b.object_id || (a.object_id == b.object_id && a.property_id < b.property_id)
}

/// The comparison of two writes by key alone.
pub open spec fn key_cmp(a: AtomicProperty, b: AtomicProperty) -> core::cmp::Ordering {
    if key_lt(a, b) {
        core::cmp::Ordering::Less
    } else if same_key(a, b) {
        core::cmp::Ordering::Equal
    } else {
        core::cmp::Ordering::Greater
    }
}

impl PartialEq for AtomicProperty {
    fn eq(&self, other: &AtomicProperty) -> (r: bool)
        ensures
            r == same_key(*self, *other),
    {
        self.object_id == other.object_id && self.property_id == other.property_id
    }
}

impl vstd::std_specs::cmp::PartialEqSpecImpl for AtomicProperty {
    open spec fn obeys_eq_spec() -> bool {
        true
    }

    open spec fn eq_spec(&self, other: &AtomicProperty) -> bool {
        same_key(*self, *other)
    }
}

impl Eq for AtomicProperty {
}

impl PartialOrd for AtomicProperty {
    fn partial_cmp(&self, other: &AtomicProperty) -> (r: Option<core::cmp::Ordering>)
        ensures
            r == Some(key_cmp(*self, *other)),
    {
        if self.object_id < other.object_id {
            Some(core::cmp::Ordering::Less)
        } else if self.object_id > other.object_id {
            Some(core::cmp::Ordering::Greater)
        } else if self.property_id < other.property_id {
            Some(core::cmp::Ordering::Less)
        } else if self.property_id > other.property_id {
            Some(core::cmp::Ordering::Greater)
        } else {
            Some(core::cmp::Ordering::Equal)
        }
    }
}

impl vstd::std_specs::cmp::PartialOrdSpecImpl for AtomicProperty {
    open spec fn obeys_partial_cmp_spec() -> bool {
        true
    }

    open spec fn partial_cmp_spec(&self, other: &AtomicProperty) -> Option<core::cmp::Ordering> {
        Some(key_cmp(*self, *other))
    }
}

/// Equality and ordering of writes ignore the value: two writes to the same
/// property of the same object compare equal, and neither is less than the
/// other, whatever values they carry.
pub proof fn lemma_order_ignores_value(a: AtomicProperty, b: AtomicProperty)
    requires
        same_key(a, b),
    ensures
        a.eq_spec(&b),
        b.eq_spec(&a),
        a.partial_cmp_spec(&b) == Some(core::cmp::Ordering::Equal),
        b.partial_cmp_spec(&a) == Some(core::cmp::Ordering::Equal),
        !key_lt(a, b) && !key_lt(b, a),
{
}

impl AtomicProperty {
    pub open spec fn new_spec(object_id: u32, property_id: u32, value: u64) -> AtomicProperty {
        AtomicProperty { object_id, property_id, value }
    }

    /// A write of `value` to property `property_id` of object `object_id`.
    pub fn new(object_id: u32, property_id: u32, value: u64) -> (r: AtomicProperty)
        ensures
            r.object_id == object_id,
            r.property_id == property_id,
            r.value == value,
    {
        AtomicProperty { object_id, property_id, value }
    }

    pub fn get_object_id(&self) -> (r: u32)
        ensures
            r == self.object_id,
    {
        self.object_id
    }

    pub fn get_property_id(&self) -> (r: u32)
        ensures
            r == self.property_id,
    {
        self.property_id
    }

    pub fn get_value(&self) -> (r: u64)
        ensures
            r == self.value,
    {
        self.value
    }
}

/// Keys strictly increase along `s`: it is sorted and holds no key twice.
pub open spec fn strictly_sorted(s: Seq<AtomicProperty>) -> bool {
    forall|i: int, j: int| 0 <= i < j < s.len() ==> key_lt(s[i], s[j])
}

/// Two writes in `s` address the same property with different values.
pub open spec fn has_conflict(s: Seq<AtomicProperty>) -> bool {
    exists|i: int, j: int|
        0 <= i < s.len() && 0 <= j < s.len() && same_key(s[i], s[j]) && s[i].value != s[j].value
}

/// The object ids of a key-sorted sequence of writes, one per run of equal ids.
pub open spec fn group_objects(s: Seq<AtomicProperty>) -> Seq<u32>
    decreases s.len(),
{
    if s.len() == 0 {
        seq![]
    } else {
        let g = group_objects(s.drop_last());
        if s.len() > 1 && s[s.len() - 2].object_id == s.last().object_id {
            g
        } else {
            g.push(s.last().object_id)
        }
    }
}

/// The length of each run of equal object ids of a key-sorted sequence.
pub open spec fn group_counts(s: Seq<AtomicProperty>) -> Seq<u32>
    decreases s.len(),
{
    if s.len() == 0 {
        seq![]
    } else {
        let c = group_counts(s.drop_last());
        if s.len() > 1 && s[s.len() - 2].object_id == s.last().object_id {
            c.update(c.len() - 1, (c.last() + 1) as u32)
        } else {
            c.push(1u32)
        }
    }
}

/// The parallel arrays that the kernel takes for one atomic transaction.
#[derive(Debug, Clone)]
pub struct AtomicBatch {
    /// Object ids, ascending, one per object.
    pub objects: Vec<u32>,
    /// For each object, how many of its properties follow.
    pub counts: Vec<u32>,
    /// Property ids, grouped by object.
    pub props: Vec<u32>,
    /// Values, in the order of `props`.
    pub values: Vec<u64>,
}

/// `b` lays out the key-sorted writes `s` grouped by object.
pub open spec fn batch_of(s: Seq<AtomicProperty>, b: AtomicBatch) -> bool {
    &&& b.objects@ == group_objects(s)
    &&& b.counts@ == group_counts(s)
    &&& b.props@ == s.map_values(|p: AtomicProperty| p.property_id)
    &&& b.values@ == s.map_values(|p: AtomicProperty| p.value)
}

proof fn lemma_no_conflict_push(s: Seq<AtomicProperty>, p: AtomicProperty)
    requires
        !has_conflict(s),
        forall|k: int| 0 <= k < s.len() && same_key(#[trigger] s[k], p) ==> s[k].value == p.value,
    ensures
        !has_conflict(s.push(p)),
{
    let t = s.push(p);
    assert forall|a: int, b: int|
        0 <= a < t.len() && 0 <= b < t.len() && same_key(t[a], t[b]) implies t[a].value
        == t[b].value by {
        if a < s.len() && b < s.len() {
            assert(s[a] == t[a] && s[b] == t[b]);
        } else if a < s.len() {
            assert(s[a] == t[a]);
        } else if b < s.len() {
            assert(s[b] == t[b]);
        }
    }
}

/// Orders the writes by key and drops exact repeats. Fails with
/// `UnsupportedError` when two writes address one property with different
/// values.
pub fn sorted_unique(props: &Vec<AtomicProperty>) -> (r: Result<Vec<AtomicProperty>, Error>)
    ensures
        has_conflict(props@) ==> r == Err::<Vec<AtomicProperty>, Error>(Error::UnsupportedError),
        !has_conflict(props@) ==> r is Ok,
        r matches Ok(s) ==> strictly_sorted(s@) && s@.to_set() == props@.to_set(),
{
    let mut out: Vec<AtomicProperty> = Vec::new();
    let mut i: usize = 0;
    while i < props.len()
        invariant
            i <= props.len(),
            strictly_sorted(out@),
            !has_conflict(props@.take(i as int)),
            forall|x: AtomicProperty| out@.contains(x) <==> props@.take(i as int).contains(x),
        decreases props.len() - i,
    {
        let p = props[i];
        let mut j: usize = 0;
        while j < out.len() && (out[j].object_id < p.object_id || (out[j].object_id == p.object_id
            && out[j].property_id < p.property_id))
            invariant
                j <= out.len(),
                forall|k: int| 0 <= k < j ==> key_lt(out@[k], p),
            decreases out.len() - j,
        {
            j = j + 1;
        }
        assert(props@.take(i as int + 1) =~= props@.take(i as int).push(p));
        if j < out.len() && out[j].object_id == p.object_id && out[j].property_id == p.property_id {
            let q = out[j];
            assert(out@.contains(q));
            let ghost m = choose|m: int| 0 <= m < i && props@.take(i as int)[m] == q;
            if q.value != p.value {
                assert(has_conflict(props@)) by {
                    assert(props@[m] == q);
                    assert(props@[i as int] == p);
                    assert(same_key(props@[m], props@[i as int]) && props@[m].value
                        != props@[i as int].value);
                }
                return Err(Error::UnsupportedError);
            }
            assert(q == p);
            assert forall|x: AtomicProperty|
                out@.contains(x) <==> props@.take(i as int).contains(x) || x == p by {
                if x == p {
                    assert(out@[j as int] == x);
                }
            }
            assert forall|k: int| 0 <= k < i && same_key(#[trigger] props@.take(i as int)[k], p)
                implies props@.take(i as int)[k].value == p.value by {
                assert(same_key(props@.take(i as int)[k], props@.take(i as int)[m]));
            }
            proof { lemma_no_conflict_push(props@.take(i as int), p); }
            assert(props@.take(i as int).push(p) =~= props@.take(i as int + 1));
        } else {
            assert forall|k: int| j <= k < out@.len() implies key_lt(p, out@[k]) by {
                assert(key_lt(p, out@[j as int]));
                if k > j {
                    assert(key_lt(out@[j as int], out@[k]));
                }
            }
            assert(forall|x: AtomicProperty|
                props@.take(i as int).contains(x) ==> !same_key(x, p)) by {
                assert forall|x: AtomicProperty| props@.take(i as int).contains(x) implies !same_key(
                    x,
                    p,
                ) by {
                    assert(out@.contains(x));
                    let k = choose|k: int| 0 <= k < out@.len() && out@[k] == x;
                    if k < j {
                        assert(key_lt(out@[k], p));
                    } else {
                        assert(key_lt(p, out@[k]));
                    }
                }
            }
            assert forall|k: int| 0 <= k < i && same_key(#[trigger] props@.take(i as int)[k], p)
                implies props@.take(i as int)[k].value == p.value by {
                assert(props@.take(i as int).contains(props@.take(i as int)[k]));
            }
            proof { lemma_no_conflict_push(props@.take(i as int), p); }
            assert(props@.take(i as int).push(p) =~= props@.take(i as int + 1));
            let ghost old_out = out@;
            out.insert(j, p);
            assert(out@ =~= old_out.insert(j as int, p));
            assert forall|x: AtomicProperty| out@.contains(x) <==> old_out.contains(x) || x == p by {
                if out@.contains(x) {
                    let k = choose|k: int| 0 <= k < out@.len() && out@[k] == x;
                    if k < j {
                        assert(old_out[k] == x);
                    } else if k > j {
                        assert(old_out[k - 1] == x);
                    }
                }
                if old_out.contains(x) {
                    let k = choose|k: int| 0 <= k < old_out.len() && old_out[k] == x;
                    if k < j {
                        assert(out@[k] == x);
                    } else {
                        assert(out@[k + 1] == x);
                    }
                }
                if x == p {
                    assert(out@[j as int] == p);
                }
            }
            assert forall|x: AtomicProperty|
                out@.contains(x) <==> props@.take(i as int).contains(x) || x == p by {
                assert(old_out.contains(x) <==> props@.take(i as int).contains(x));
            }
        }
        assert forall|x: AtomicProperty|
            out@.contains(x) <==> props@.take(i as int + 1).contains(x) by {
            let t = props@.take(i as int + 1);
            if t.contains(x) {
                let k = choose|k: int| 0 <= k < t.len() && t[k] == x;
                if k < i {
                    assert(props@.take(i as int)[k] == x);
                }
            }
            if props@.take(i as int).contains(x) {
                let k = choose|k: int| 0 <= k < i && props@.take(i as int)[k] == x;
                assert(t[k] == x);
            }
            if x == p {
                assert(t[i as int] == p);
            }
        }
        i = i + 1;
    }
    assert(props@.take(props.len() as int) =~= props@);
    assert(out@.to_set() =~= props@.to_set());
    Ok(out)
}

/// `b` submits exactly the writes of `props`: laid out grouped by object, in
/// ascending key order, each distinct write once.
pub open spec fn submits(props: Seq<AtomicProperty>, b: AtomicBatch) -> bool {
    exists|s: Seq<AtomicProperty>|
        strictly_sorted(s) && s.to_set() == props.to_set() && #[trigger] batch_of(s, b)
}

proof fn lemma_sorted_no_duplicates(s: Seq<AtomicProperty>)
    requires
        strictly_sorted(s),
    ensures
        s.no_duplicates(),
{
    assert forall|i: int, j: int| 0 <= i < s.len() && 0 <= j < s.len() && i != j implies s[i]
        != s[j] by {
        if i < j {
            assert(key_lt(s[i], s[j]));
        } else {
            assert(key_lt(s[j], s[i]));
        }
    }
}

/// Two key-sorted sequences without repeated keys that hold the same writes
/// are the same sequence.
proof fn lemma_sorted_set_unique(s1: Seq<AtomicProperty>, s2: Seq<AtomicProperty>)
    requires
        strictly_sorted(s1),
        strictly_sorted(s2),
        s1.to_set() == s2.to_set(),
    ensures
        s1 == s2,
    decreases s1.len(),
{
    lemma_sorted_no_duplicates(s1);
    lemma_sorted_no_duplicates(s2);
    s1.unique_seq_to_set();
    s2.unique_seq_to_set();
    if s1.len() == 0 {
        assert(s2.len() == 0);
        assert(s1 =~= s2);
    } else {
        assert(s2.len() > 0);
        let a = s1[0];
        let b = s2[0];
        assert(s1.to_set().contains(a));
        assert(s2.to_set().contains(b));
        assert(s2.contains(a));
        assert(s1.contains(b));
        let i = choose|i: int| 0 <= i < s2.len() && s2[i] == a;
        let j = choose|j: int| 0 <= j < s1.len() && s1[j] == b;
        if j > 0 {
            assert(key_lt(s1[0], s1[j]));
            if i > 0 {
                assert(key_lt(s2[0], s2[i]));
            }
            assert(false);
        }
        assert(a == b);
        let t1 = s1.drop_first();
        let t2 = s2.drop_first();
        assert(strictly_sorted(t1)) by {
            assert forall|x: int, y: int| 0 <= x < y < t1.len() implies key_lt(t1[x], t1[y]) by {
                assert(t1[x] == s1[x + 1] && t1[y] == s1[y + 1]);
            }
        }
        assert(strictly_sorted(t2)) by {
            assert forall|x: int, y: int| 0 <= x < y < t2.len() implies key_lt(t2[x], t2[y]) by {
                assert(t2[x] == s2[x + 1] && t2[y] == s2[y + 1]);
            }
        }
        assert(t1.to_set() =~= t2.to_set()) by {
            assert forall|x: AtomicProperty| t1.to_set().contains(x) <==> t2.to_set().contains(x) by {
                if t1.contains(x) {
                    let k = choose|k: int| 0 <= k < t1.len() && t1[k] == x;
                    assert(s1[k + 1] == x);
                    assert(s1.to_set().contains(x));
                    assert(s2.contains(x));
                    let m = choose|m: int| 0 <= m < s2.len() && s2[m] == x;
                    assert(x != a) by {
                        assert(key_lt(s1[0], s1[k + 1]));
                    }
                    assert(m != 0);
                    assert(t2[m - 1] == x);
                }
                if t2.contains(x) {
                    let k = choose|k: int| 0 <= k < t2.len() && t2[k] == x;
                    assert(s2[k + 1] == x);
                    assert(s2.to_set().contains(x));
                    assert(s1.contains(x));
                    let m = choose|m: int| 0 <= m < s1.len() && s1[m] == x;
                    assert(x != b) by {
                        assert(key_lt(s2[0], s2[k + 1]));
                    }
                    assert(m != 0);
                    assert(t1[m - 1] == x);
                }
            }
        }
        lemma_sorted_set_unique(t1, t2);
        assert(s1 =~= s2) by {
            assert forall|x: int| 0 <= x < s1.len() implies s1[x] == s2[x] by {
                if x > 0 {
                    assert(s1[x] == t1[x - 1]);
                    assert(s2[x] == t2[x - 1]);
                }
            }
        }
    }
}

/// What a transaction submits is determined by its writes alone: any two
/// layouts that submit the same writes are identical.
pub proof fn lemma_submission_determined(props: Seq<AtomicProperty>, b1: AtomicBatch, b2: AtomicBatch)
    requires
        submits(props, b1),
        submits(props, b2),
    ensures
        b1.objects@ == b2.objects@,
        b1.counts@ == b2.counts@,
        b1.props@ == b2.props@,
        b1.values@ == b2.values@,
{
    let s1 = choose|s: Seq<AtomicProperty>|
        strictly_sorted(s) && s.to_set() == props.to_set() && #[trigger] batch_of(s, b1);
    let s2 = choose|s: Seq<AtomicProperty>|
        strictly_sorted(s) && s.to_set() == props.to_set() && #[trigger] batch_of(s, b2);
    lemma_sorted_set_unique(s1, s2);
}

/// The total of a list of counts.
pub open spec fn sum_counts(c: Seq<u32>) -> int
    decreases c.len(),
{
    if c.len() == 0 {
        0
    } else {
        sum_counts(c.drop_last()) + c.last()
    }
}

proof fn lemma_group_shape(s: Seq<AtomicProperty>)
    requires
        strictly_sorted(s),
        s.len() <= u32::MAX,
    ensures
        forall|i: int, j: int|
            0 <= i < j < group_objects(s).len() ==> group_objects(s)[i] < group_objects(s)[j],
        forall|k: int| 0 <= k < group_counts(s).len() ==> group_counts(s)[k] >= 1,
        sum_counts(group_counts(s)) == s.len(),
    decreases s.len(),
{
    if s.len() > 0 {
        let t = s.drop_last();
        assert(strictly_sorted(t)) by {
            assert forall|i: int, j: int| 0 <= i < j < t.len() implies key_lt(t[i], t[j]) by {
                assert(t[i] == s[i] && t[j] == s[j]);
            }
        }
        lemma_group_shape(t);
        lemma_group_lengths(t);
        lemma_group_lengths(s);
        let g = group_objects(t);
        let c = group_counts(t);
        if s.len() > 1 && s[s.len() - 2].object_id == s.last().object_id {
            let c2 = c.update(c.len() - 1, (c.last() + 1) as u32);
            assert(c2.drop_last() =~= c.drop_last());
            assert(group_counts(s) == c2);
        } else {
            if s.len() > 1 {
                assert(key_lt(s[s.len() - 2], s.last()));
                assert(g.last() == t.last().object_id);
                assert(t.last() == s[s.len() - 2]);
            }
            assert(group_objects(s) == g.push(s.last().object_id));
            assert(group_counts(s) == c.push(1u32));
            assert(c.push(1u32).drop_last() =~= c);
        }
    }
}

/// What a transaction submits is laid out as the kernel requires: object ids
/// strictly ascending, one count per object, every count at least one, and
/// the counts adding up to the number of property ids and of values.
pub proof fn lemma_submission_shape(props: Seq<AtomicProperty>, b: AtomicBatch)
    requires
        submits(props, b),
        props.len() <= u32::MAX,
    ensures
        forall|i: int, j: int| 0 <= i < j < b.objects@.len() ==> b.objects@[i] < b.objects@[j],
        b.counts@.len() == b.objects@.len(),
        forall|k: int| 0 <= k < b.counts@.len() ==> b.counts@[k] >= 1,
        sum_counts(b.counts@) == b.props@.len(),
        b.props@.len() == b.values@.len(),
{
    let s = choose|s: Seq<AtomicProperty>|
        strictly_sorted(s) && s.to_set() == props.to_set() && #[trigger] batch_of(s, b);
    lemma_sorted_len_bound(s, props);
    lemma_group_lengths(s);
    lemma_group_shape(s);
}

proof fn lemma_group_lengths(s: Seq<AtomicProperty>)
    requires
        s.len() <= u32::MAX,
    ensures
        group_objects(s).len() == group_counts(s).len(),
        s.len() > 0 ==> group_objects(s).len() > 0,
        s.len() > 0 ==> group_objects(s).last() == s.last().object_id,
        s.len() > 0 ==> 1 <= group_counts(s).last() <= s.len(),
    decreases s.len(),
{
    if s.len() > 0 {
        lemma_group_lengths(s.drop_last());
    }
}

/// Lays out key-sorted writes as the kernel's parallel arrays, grouped by
/// object in ascending order of object id.
pub fn group_by_object(s: &Vec<AtomicProperty>) -> (r: AtomicBatch)
    requires
        strictly_sorted(s@),
        s@.len() <= u32::MAX,
    ensures
        batch_of(s@, r),
{
    let mut objects: Vec<u32> = Vec::new();
    let mut counts: Vec<u32> = Vec::new();
    let mut props: Vec<u32> = Vec::new();
    let mut values: Vec<u64> = Vec::new();
    let mut i: usize = 0;
    while i < s.len()
        invariant
            i <= s.len() <= u32::MAX,
            objects@ == group_objects(s@.take(i as int)),
            counts@ == group_counts(s@.take(i as int)),
            props@ == s@.take(i as int).map_values(|p: AtomicProperty| p.property_id),
            values@ == s@.take(i as int).map_values(|p: AtomicProperty| p.value),
        decreases s.len() - i,
    {
        let p = s[i];
        let ghost prev = s@.take(i as int);
        let ghost next = s@.take(i as int + 1);
        assert(next.drop_last() =~= prev);
        proof { lemma_group_lengths(prev); }
        if i > 0 && s[i - 1].object_id == p.object_id {
            let last: usize = counts.len() - 1;
            let c = counts[last];
            counts.set(last, c + 1);
        } else {
            objects.push(p.object_id);
            counts.push(1);
        }
        props.push(p.property_id);
        values.push(p.value);
        i = i + 1;
        assert(props@ =~= next.map_values(|p: AtomicProperty| p.property_id));
        assert(values@ =~= next.map_values(|p: AtomicProperty| p.value));
    }
    assert(s@.take(s.len() as int) =~= s@);
    AtomicBatch { objects, counts, props, values }
}

/// Prepares accumulated writes for one atomic submission: sorts them by key,
/// drops exact repeats and groups them by object.
///
/// Fails with `NoneError` on an empty set, with `OutOfRangeError` when the
/// count does not fit 32 bits, and with `UnsupportedError` when two writes
/// address one property with different values.
pub fn build_batch(props: &Vec<AtomicProperty>) -> (r: Result<AtomicBatch, Error>)
    ensures
        props@.len() == 0 ==> r == Err::<AtomicBatch, Error>(Error::NoneError),
        props@.len() > u32::MAX ==> r == Err::<AtomicBatch, Error>(Error::OutOfRangeError),
        0 < props@.len() <= u32::MAX && has_conflict(props@) ==> r == Err::<AtomicBatch, Error>(
            Error::UnsupportedError,
        ),
        0 < props@.len() <= u32::MAX && !has_conflict(props@) ==> r is Ok,
        r matches Ok(b) ==> submits(props@, b),
{
    if props.len() == 0 {
        return Err(Error::NoneError);
    }
    if props.len() > 0xffff_ffffusize {
        return Err(Error::OutOfRangeError);
    }
    let sorted = match sorted_unique(props) {
        Ok(v) => v,
        Err(e) => return Err(e),
    };
    proof {
        lemma_sorted_len_bound(sorted@, props@);
    }
    let b = group_by_object(&sorted);
    assert(strictly_sorted(sorted@) && sorted@.to_set() == props@.to_set() && batch_of(sorted@, b));
    assert(submits(props@, b));
    Ok(b)
}

proof fn lemma_sorted_len_bound(s: Seq<AtomicProperty>, t: Seq<AtomicProperty>)
    requires
        strictly_sorted(s),
        s.to_set() == t.to_set(),
    ensures
        s.len() <= t.len(),
{
    lemma_sorted_no_duplicates(s);
    s.unique_seq_to_set();
    t.lemma_cardinality_of_set();
}

/// The first position of `s` whose write has the key of `p`, if any.
pub open spec fn key_index(s: Seq<AtomicProperty>, p: AtomicProperty) -> Option<int> {
    if exists|i: int| 0 <= i < s.len() && same_key(#[trigger] s[i], p) {
        Some(
            choose|i: int|
                0 <= i < s.len() && same_key(#[trigger] s[i], p) && forall|k: int|
                    0 <= k < i ==> !same_key(#[trigger] s[k], p),
        )
    } else {
        None
    }
}

/// `s` after replacing the first write with the key of `p` by `p`; `None`
/// when no write has that key.
pub open spec fn replaced(s: Seq<AtomicProperty>, p: AtomicProperty) -> Option<Seq<AtomicProperty>> {
    match key_index(s, p) {
        Some(i) => Some(s.update(i, p)),
        None => None,
    }
}

/// Replacing by key needs a write with that key: it is impossible exactly
/// when no write in `s` has the key of `p`, whatever the values. Appending, by
/// contrast, is always possible (`AtomicRequest::push_property`).
pub proof fn lemma_replace_needs_key(s: Seq<AtomicProperty>, p: AtomicProperty)
    ensures
        replaced(s, p) is None <==> forall|k: int| 0 <= k < s.len() ==> !same_key(#[trigger] s[k], p),
        replaced(s, p) matches Some(t) ==> t.len() == s.len() && exists|i: int|
            0 <= i < s.len() && same_key(s[i], p) && #[trigger] t[i] == p,
{
    if exists|i: int| 0 <= i < s.len() && same_key(#[trigger] s[i], p) {
        let i0 = choose|i: int| 0 <= i < s.len() && same_key(#[trigger] s[i], p);
        lemma_first_key(s, p, i0);
        let i = key_index(s, p)->0;
        assert(replaced(s, p)->0[i] == p);
    }
}

proof fn lemma_first_key(s: Seq<AtomicProperty>, p: AtomicProperty, i: int)
    requires
        0 <= i < s.len(),
        same_key(s[i], p),
    ensures
        exists|j: int|
            0 <= j < s.len() && same_key(#[trigger] s[j], p) && forall|k: int|
                0 <= k < j ==> !same_key(#[trigger] s[k], p),
    decreases i,
{
    if exists|k: int| 0 <= k < i && same_key(#[trigger] s[k], p) {
        let k = choose|k: int| 0 <= k < i && same_key(#[trigger] s[k], p);
        lemma_first_key(s, p, k);
    } else {
        assert(forall|k: int| 0 <= k < i ==> !same_key(#[trigger] s[k], p));
    }
}

/// Writes accumulated for one transaction on one device.
#[derive(Debug)]
pub struct AtomicRequest<'a, T: Transport> {
    dev: &'a Device<T>,
    properties: Vec<AtomicProperty>,
}

impl<'a, T: Transport> AtomicRequest<'a, T> {
    /// The writes accumulated so far, in the order they were added.
    pub closed spec fn spec_properties(&self) -> Seq<AtomicProperty> {
        self.properties@
    }

    /// An empty request.
    pub fn new(dev: &'a Device<T>) -> (r: AtomicRequest<'a, T>)
        ensures
            r.spec_properties() == Seq::<AtomicProperty>::empty(),
    {
        AtomicRequest { dev, properties: Vec::new() }
    }

    pub fn get_properties(&self) -> (r: &Vec<AtomicProperty>)
        ensures
            r@ == self.spec_properties(),
    {
        &self.properties
    }

    /// Appends `p`, whatever the writes already present.
    pub fn push_property(self, p: AtomicProperty) -> (r: AtomicRequest<'a, T>)
        ensures
            r.spec_properties() == self.spec_properties().push(p),
    {
        let mut q = self;
        q.properties.push(p);
        q
    }

    /// Replaces the first write with the key of `p` by `p`. Fails with
    /// `UninitializedError` when no write has that key.
    pub fn replace_property(self, p: AtomicProperty) -> (r: Result<AtomicRequest<'a, T>, Error>)
        ensures
            replaced(self.spec_properties(), p) is None ==> r == Err::<AtomicRequest<'a, T>, Error>(
                Error::UninitializedError,
            ),
            replaced(self.spec_properties(), p) matches Some(s) ==> (r matches Ok(q)
                && q.spec_properties() == s),
    {
        let mut i: usize = 0;
        while i < self.properties.len()
            invariant
                i <= self.properties@.len(),
                forall|k: int| 0 <= k < i ==> !same_key(#[trigger] self.properties@[k], p),
            decreases self.properties.len() - i,
        {
            if self.properties[i] == p {
                assert(same_key(self.properties@[i as int], p));
                let ghost j = key_index(self.properties@, p);
                assert(j == Some(i as int)) by {
                    let c = j->0;
                    if c < i {
                        assert(!same_key(self.properties@[c], p));
                    } else if c > i {
                        assert(!same_key(self.properties@[i as int], p));
                    }
                }
                let mut q = self;
                q.properties.set(i, p);
                return Ok(q);
            }
            i = i + 1;
        }
        Err(Error::UninitializedError)
    }

    /// Appends the write of `value` to `object`'s property named `property`.
    /// Fails only when the name cannot be resolved; a write with the same key
    /// already present is no obstacle.
    pub fn add_property<O: Object<T>>(self, object: &O, property: &str, value: u64) -> (r: Result<
        AtomicRequest<'a, T>,
        Error,
    >)
        ensures
            r matches Ok(q) ==> exists|pid: u32|
                (exists|entries: Seq<(u32, Seq<char>)>| #[trigger] first_match(entries, property@)
                    == Ok::<u32, Error>(pid)) && q.spec_properties() == self.spec_properties().push(
                    #[trigger] AtomicProperty::new_spec(object.spec_id(), pid, value),
                ),
    {
        let id = object.get_property_id(property)?;
        let p = AtomicProperty::new(object.get_id(), id, value);
        assert(p == AtomicProperty::new_spec(object.spec_id(), id, value));
        Ok(self.push_property(p))
    }

    /// Replaces the write to `object`'s property named `property` by one of
    /// `value`. Fails with `UninitializedError` when the request holds no
    /// write to that property.
    pub fn update_property<O: Object<T>>(self, object: &O, property: &str, value: u64) -> (r:
        Result<AtomicRequest<'a, T>, Error>)
        ensures
            r matches Ok(q) ==> exists|pid: u32|
                (exists|entries: Seq<(u32, Seq<char>)>| #[trigger] first_match(entries, property@)
                    == Ok::<u32, Error>(pid)) && replaced(
                    self.spec_properties(),
                    #[trigger] AtomicProperty::new_spec(object.spec_id(), pid, value),
                ) == Some(q.spec_properties()),
            (forall|k: int|
                0 <= k < self.spec_properties().len() ==> (#[trigger] self.spec_properties()[k]).object_id
                    != object.spec_id()) ==> r is Err,
    {
        let id = object.get_property_id(property)?;
        let p = AtomicProperty::new(object.get_id(), id, value);
        assert(p == AtomicProperty::new_spec(object.spec_id(), id, value));
        self.replace_property(p)
    }

    /// Submits the accumulated writes to the device as one transaction.
    pub fn commit(&self) -> (r: Result<(), Error>)
        ensures
            self.spec_properties().len() == 0 ==> r == Err::<(), Error>(Error::NoneError),
            0 < self.spec_properties().len() <= u32::MAX && has_conflict(self.spec_properties())
                ==> r == Err::<(), Error>(Error::UnsupportedError),
    {
        self.dev.atomic_commit(&self.properties)
    }
}

} // verus!
