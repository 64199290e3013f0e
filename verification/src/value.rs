//! Plain values that cross the boundary to the engine: property attributes,
//! function configuration, and the kinds by which handles are typed.
use vstd::prelude::*;

verus! {

/// The flags that the engine keeps with a property.
#[derive(Clone, Copy, Debug, PartialEq, Eq, Structural)]
pub struct PropertyAttribute {
    /// The property cannot be written.
    pub read_only: bool,
    /// The property is skipped when an object's properties are listed.
    pub dont_enum: bool,
    /// The property can neither be removed nor reconfigured.
    pub dont_delete: bool,
}

impl PropertyAttribute {
    /// No special attribute: writable, listed, configurable.
    pub fn none() -> (r: PropertyAttribute)
        ensures
            r == (PropertyAttribute { read_only: false, dont_enum: false, dont_delete: false }),
    {
        PropertyAttribute { read_only: false, dont_enum: false, dont_delete: false }
    }

    /// Only `read_only` is set.
    pub fn read_only() -> (r: PropertyAttribute)
        ensures
            r == (PropertyAttribute { read_only: true, dont_enum: false, dont_delete: false }),
    {
        PropertyAttribute { read_only: true, dont_enum: false, dont_delete: false }
    }

    /// Only `dont_enum` is set.
    pub fn dont_enum() -> (r: PropertyAttribute)
        ensures
            r == (PropertyAttribute { read_only: false, dont_enum: true, dont_delete: false }),
    {
        PropertyAttribute { read_only: false, dont_enum: true, dont_delete: false }
    }

    /// Only `dont_delete` is set.
    pub fn dont_delete() -> (r: PropertyAttribute)
        ensures
            r == (PropertyAttribute { read_only: false, dont_enum: false, dont_delete: true }),
    {
        PropertyAttribute { read_only: false, dont_enum: false, dont_delete: true }
    }

    /// The attributes of `self` together with those of `other`.
    pub fn with(self, other: PropertyAttribute) -> (r: PropertyAttribute)
        ensures
            r.read_only == (self.read_only || other.read_only),
            r.dont_enum == (self.dont_enum || other.dont_enum),
            r.dont_delete == (self.dont_delete || other.dont_delete),
    {
        PropertyAttribute {
            read_only: self.read_only || other.read_only,
            dont_enum: self.dont_enum || other.dont_enum,
            dont_delete: self.dont_delete || other.dont_delete,
        }
    }
}

/// One entry of a template or of an object: a key, a value, both by address,
/// and the attributes the entry was installed with. A template keeps every
/// entry that was set on it, in the order of the calls; an object or a
/// function has one entry for each key.
#[derive(Clone, Copy, Debug, PartialEq, Eq, Structural)]
pub struct Property {
    pub key: usize,
    pub value: usize,
    pub attr: PropertyAttribute,
}

/// Names the host routine that the engine runs when a function is called.
#[derive(Clone, Copy, Debug, PartialEq, Eq, Structural)]
pub struct FunctionCallback {
    pub id: u64,
}

/// Whether a function may be called with `new`.
#[derive(Clone, Copy, Debug, PartialEq, Eq, Structural)]
pub enum ConstructorBehavior {
    Throw,
    Allow,
}

/// What the engine may assume of a callback when it debugs or optimises.
#[derive(Clone, Copy, Debug, PartialEq, Eq, Structural)]
pub enum SideEffectType {
    HasSideEffect,
    HasNoSideEffect,
    HasSideEffectToReceiver,
}

/// All that the engine is told when a function template is made.
/// An address of zero in `data` or `signature` stands for "none".
#[derive(Clone, Copy, Debug, PartialEq, Eq, Structural)]
pub struct FunctionConfig {
    pub callback: FunctionCallback,
    pub data: usize,
    pub signature: usize,
    pub length: i32,
    pub constructor_behavior: ConstructorBehavior,
    pub side_effect_type: SideEffectType,
}

/// The function that a template was realised as in one context.
#[derive(Clone, Copy, Debug, PartialEq, Eq, Structural)]
pub struct Realized {
    pub context: usize,
    pub function: usize,
}

/// Kind of handle: anything the engine's heap holds.
#[derive(Clone, Copy, Debug)]
pub struct Data;

/// Kind of handle: a value that script code can see.
#[derive(Clone, Copy, Debug)]
pub struct Value;

/// Kind of handle: a property key.
#[derive(Clone, Copy, Debug)]
pub struct Name;

/// Kind of handle: a constraint on the receiver of a function.
#[derive(Clone, Copy, Debug)]
pub struct Signature;

/// Kind of handle: an object with properties and internal fields.
#[derive(Clone, Copy, Debug)]
pub struct Object;

/// Kind of handle: a callable object made from a function template.
#[derive(Clone, Copy, Debug)]
pub struct Function;

/// Kind of handle: a world of its own in which script code runs, with its
/// own global object.
#[derive(Clone, Copy, Debug)]
pub struct Context;

/// Kind of handle: what function templates and object templates share.
#[derive(Clone, Copy, Debug)]
pub struct Template;

/// Kind of handle: the blueprint of a function.
#[derive(Clone, Copy, Debug)]
pub struct FunctionTemplate;

/// Kind of handle: the blueprint of an object.
#[derive(Clone, Copy, Debug)]
pub struct ObjectTemplate;

} // verus!
