use vstd::prelude::*;
use vstd::utf8::*;

use crate::device::Device;
use crate::error::Error;
use crate::object::Object;
use crate::object::ObjectType;
use crate::text::name_from_bytes;
use crate::text::trim_nul;
use crate::transport::RawProperty;
use crate::transport::Transport;

verus! {

/// A named property of a kernel object.
#[derive(Debug)]
pub struct Property<'a, T: Transport> {
    dev: &'a Device<T>,
    id: u32,
    name: String,
}

impl<'a, T: Transport> Object<T> for Property<'a, T> {
    open spec fn spec_id(&self) -> u32 {
        self.view_id()
    }

    open spec fn spec_type(&self) -> ObjectType {
        ObjectType::Property
    }

    fn get_dev(&self) -> &Device<T> {
        self.dev
    }

    fn get_id(&self) -> u32 {
        self.id
    }

    fn get_type(&self) -> ObjectType {
        ObjectType::Property
    }

    fn get_property_id(&self, property: &str) -> Result<u32, Error> {
        self.dev.lookup_property_id(ObjectType::Property, self.id, property)
    }
}

impl<'a, T: Transport> Property<'a, T> {
    /// The device this handle belongs to.
    pub closed spec fn spec_dev(&self) -> Device<T> {
        *self.dev
    }

    /// The kernel id of this object.
    pub closed spec fn view_id(&self) -> u32 {
        self.id
    }

    pub closed spec fn spec_name(&self) -> Seq<char> {
        self.name@
    }

    pub closed spec fn spec_prop_id(&self) -> u32 {
        self.id
    }

    /// A property from the kernel's description; its name is the name field
    /// up to the trailing zeros.
    pub fn new(dev: &'a Device<T>, property: RawProperty) -> (r: Result<Property<'a, T>, Error>)
        ensures
            valid_utf8(trim_nul(property.name@)) ==> (r matches Ok(p) && p.spec_prop_id()
                == property.prop_id && p.spec_name() == decode_utf8(trim_nul(property.name@))
                && p.spec_dev() == *dev),
            !valid_utf8(trim_nul(property.name@)) ==> r is Err,
    {
        let name = name_from_bytes(property.name.as_slice())?;
        Ok(Property { dev, name, id: property.prop_id })
    }

    pub fn get_name(&self) -> (r: &str)
        ensures
            r@ == self.spec_name(),
    {
        self.name.as_str()
    }
}

/// The id paired with the first entry named `name`; `NoneError` when no
/// entry has that name.
pub open spec fn first_match(entries: Seq<(u32, Seq<char>)>, name: Seq<char>) -> Result<u32, Error>
    decreases entries.len(),
{
    if entries.len() == 0 {
        Err(Error::NoneError)
    } else if entries[0].1 == name {
        Ok(entries[0].0)
    } else {
        first_match(entries.drop_first(), name)
    }
}

/// The (id, name) pairs of a property list, in order.
pub open spec fn named_ids<'a, T: Transport>(props: Seq<Property<'a, T>>) -> Seq<(u32, Seq<char>)> {
    props.map_values(|p: Property<'a, T>| (p.spec_prop_id(), p.spec_name()))
}

/// The id of the first property in `props` named `name`; `NoneError` when no
/// property has that name.
pub fn find_property_id<'a, T: Transport>(props: &Vec<Property<'a, T>>, name: &str) -> (r: Result<
    u32,
    Error,
>)
    ensures
        r matches Ok(id) ==> exists|i: int|
            0 <= i < props@.len() && props@[i].spec_name() == name@ && #[trigger] props@[i].spec_prop_id() == id
                && forall|k: int| 0 <= k < i ==> #[trigger] props@[k].spec_name() != name@,
        r is Err <==> forall|i: int| 0 <= i < props@.len() ==> #[trigger] props@[i].spec_name() != name@,
        r is Err ==> r == Err::<u32, Error>(Error::NoneError),
        r == first_match(named_ids(props@), name@),
{
    let key = name.to_owned();
    let ghost entries = named_ids(props@);
    let mut i: usize = 0;
    assert(entries.subrange(0, entries.len() as int) =~= entries);
    while i < props.len()
        invariant
            i <= props@.len(),
            key@ == name@,
            entries == named_ids(props@),
            forall|k: int| 0 <= k < i ==> #[trigger] props@[k].spec_name() != name@,
            first_match(entries, name@) == first_match(entries.subrange(i as int, entries.len() as int), name@),
        decreases props.len() - i,
    {
        let ghost rest = entries.subrange(i as int, entries.len() as int);
        if props[i].name == key {
            assert(props@[i as int].spec_name() == name@);
            assert(props@[i as int].spec_prop_id() == props[i as int].id);
            assert(rest[0] == entries[i as int]);
            return Ok(props[i].id);
        }
        assert(rest.drop_first() =~= entries.subrange(i as int + 1, entries.len() as int));
        i = i + 1;
    }
    Err(Error::NoneError)
}

} // verus!
