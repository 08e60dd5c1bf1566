//! Field states of the wire format: a field that may be left out, and a
//! field that may be an explicit `null`.
use vstd::prelude::*;

verus! {

/// A field that is either left out of the payload or holds a value.
#[derive(Debug, Clone, PartialEq, Eq)]
pub enum Omittable<T> {
    Omitted,
    Value(T),
}

impl<T> Omittable<T> {
    /// Whether the field is left out.
    pub fn is_omitted(&self) -> (r: bool)
        ensures
            r == (self is Omitted),
    {
        match self {
            Omittable::Omitted => true,
            Omittable::Value(_) => false,
        }
    }

    /// The value, when the field is present.
    pub fn as_option(&self) -> (r: Option<&T>)
        ensures
            match self {
                Omittable::Omitted => r is None,
                Omittable::Value(v) => r == Some(v),
            },
    {
        match self {
            Omittable::Omitted => None,
            Omittable::Value(v) => Some(v),
        }
    }
}

/// A field that holds either an explicit `null` or a value.
#[derive(Debug, Clone, PartialEq, Eq)]
pub enum Nullable<T> {
    Null,
    Value(T),
}

impl<T> Nullable<T> {
    /// Whether the field is an explicit `null`.
    pub fn is_null(&self) -> (r: bool)
        ensures
            r == (self is Null),
    {
        match self {
            Nullable::Null => true,
            Nullable::Value(_) => false,
        }
    }

    /// The value, unless the field is `null`.
    pub fn as_option(&self) -> (r: Option<&T>)
        ensures
            match self {
                Nullable::Null => r is None,
                Nullable::Value(v) => r == Some(v),
            },
    {
        match self {
            Nullable::Null => None,
            Nullable::Value(v) => Some(v),
        }
    }
}

} // verus!
