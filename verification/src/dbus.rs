//! Utilities for working with dbus.

use crate::text::same_str;
use vstd::prelude::*;

verus! {

/// The value of a property, as far as lookups read it.
#[derive(Debug)]
pub enum Value {
    /// A string.
    Str(String),
    /// A value of any other type.
    Other,
}

/// A property of an interface.
#[derive(Debug)]
pub struct Property {
    /// The name of the property.
    pub name: String,
    /// The value of the property.
    pub value: Value,
}

/// An interface of an object, with its properties.
#[derive(Debug)]
pub struct Interface {
    /// The name of the interface.
    pub name: String,
    /// The properties of the interface.
    pub properties: Vec<Property>,
}

/// A managed object, with its interfaces.
#[derive(Debug)]
pub struct Object {
    /// The path of the object.
    pub path: String,
    /// The interfaces of the object.
    pub interfaces: Vec<Interface>,
}

/// The objects that an object manager reports, in the order in which it
/// reports them.
#[derive(Debug)]
pub struct ManagedObjects {
    /// The objects.
    pub objects: Vec<Object>,
}

/// The first interface with the given name.
pub open spec fn interface_named(interfaces: Seq<Interface>, name: Seq<char>) -> Option<Interface>
    decreases interfaces.len(),
{
    if interfaces.len() == 0 {
        None
    } else if interfaces[0].name@ == name {
        Some(interfaces[0])
    } else {
        interface_named(interfaces.drop_first(), name)
    }
}

/// The first property with the given name.
pub open spec fn property_named(properties: Seq<Property>, name: Seq<char>) -> Option<Property>
    decreases properties.len(),
{
    if properties.len() == 0 {
        None
    } else if properties[0].name@ == name {
        Some(properties[0])
    } else {
        property_named(properties.drop_first(), name)
    }
}

/// Whether the object has the interface, the interface has the property, and
/// the property is a string with the given characters.
pub open spec fn has_property_value(
    object: Object,
    interface_name: Seq<char>,
    property_name: Seq<char>,
    property_value: Seq<char>,
) -> bool {
    match interface_named(object.interfaces@, interface_name) {
        Some(interface) => match property_named(interface.properties@, property_name) {
            Some(property) => match property.value {
                Value::Str(value) => value@ == property_value,
                Value::Other => false,
            },
            None => false,
        },
        None => false,
    }
}

/// The path of the first object that has the property value, if there is one.
pub open spec fn object_path(
    objects: Seq<Object>,
    interface_name: Seq<char>,
    property_name: Seq<char>,
    property_value: Seq<char>,
) -> Option<Seq<char>>
    decreases objects.len(),
{
    if objects.len() == 0 {
        None
    } else if has_property_value(objects[0], interface_name, property_name, property_value) {
        Some(objects[0].path@)
    } else {
        object_path(objects.drop_first(), interface_name, property_name, property_value)
    }
}

fn find_interface<'a>(interfaces: &'a Vec<Interface>, name: &str) -> (res: Option<&'a Interface>)
    ensures
        match res {
            Some(interface) => interface_named(interfaces@, name@) == Some(*interface),
            None => interface_named(interfaces@, name@) is None,
        },
{
    let mut at: usize = 0;
    assert(interfaces@.skip(0) == interfaces@);
    while at < interfaces.len()
        invariant
            at <= interfaces@.len(),
            interface_named(interfaces@, name@) == interface_named(
                interfaces@.skip(at as int),
                name@,
            ),
        decreases interfaces@.len() - at,
    {
        let ghost rest = interfaces@.skip(at as int);
        assert(rest.len() > 0 && rest[0] == interfaces@[at as int]);
        assert(rest.drop_first() == interfaces@.skip(at + 1));
        if same_str(interfaces[at].name.as_str(), name) {
            return Some(&interfaces[at]);
        }
        at += 1;
    }
    assert(interfaces@.skip(at as int).len() == 0);
    None
}

fn find_property<'a>(properties: &'a Vec<Property>, name: &str) -> (res: Option<&'a Property>)
    ensures
        match res {
            Some(property) => property_named(properties@, name@) == Some(*property),
            None => property_named(properties@, name@) is None,
        },
{
    let mut at: usize = 0;
    assert(properties@.skip(0) == properties@);
    while at < properties.len()
        invariant
            at <= properties@.len(),
            property_named(properties@, name@) == property_named(
                properties@.skip(at as int),
                name@,
            ),
        decreases properties@.len() - at,
    {
        let ghost rest = properties@.skip(at as int);
        assert(rest.len() > 0 && rest[0] == properties@[at as int]);
        assert(rest.drop_first() == properties@.skip(at + 1));
        if same_str(properties[at].name.as_str(), name) {
            return Some(&properties[at]);
        }
        at += 1;
    }
    assert(properties@.skip(at as int).len() == 0);
    None
}

fn is_match(object: &Object, interface_name: &str, property_name: &str, property_value: &str) -> (res:
    bool)
    ensures
        res == has_property_value(*object, interface_name@, property_name@, property_value@),
{
    match find_interface(&object.interfaces, interface_name) {
        Some(interface) => match find_property(&interface.properties, property_name) {
            Some(property) => match &property.value {
                Value::Str(value) => same_str(value.as_str(), property_value),
                Value::Other => false,
            },
            None => false,
        },
        None => false,
    }
}

/// Gets the path of an interface with a given property value.
///
/// If no property with the given name and value exists on the given interface, this returns `None`.
pub fn get_object_path(
    objects: &ManagedObjects,
    interface_name: &str,
    property_name: &str,
    property_value: &str,
) -> (path: Option<String>)
    ensures
        crate::block::text_view(path) == object_path(
            objects.objects@,
            interface_name@,
            property_name@,
            property_value@,
        ),
{
    let all = &objects.objects;
    let mut at: usize = 0;
    assert(all@.skip(0) == all@);
    while at < all.len()
        invariant
            all@ == objects.objects@,
            at <= all@.len(),
            object_path(all@, interface_name@, property_name@, property_value@) == object_path(
                all@.skip(at as int),
                interface_name@,
                property_name@,
                property_value@,
            ),
        decreases all@.len() - at,
    {
        let ghost rest = all@.skip(at as int);
        assert(rest.len() > 0 && rest[0] == all@[at as int]);
        assert(rest.drop_first() == all@.skip(at + 1));
        if is_match(&all[at], interface_name, property_name, property_value) {
            return Some(all[at].path.clone());
        }
        at += 1;
    }
    assert(all@.skip(at as int).len() == 0);
    None
}

} // verus!
