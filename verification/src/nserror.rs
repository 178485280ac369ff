//! `NSError`, the object that a failed call hands back.

use vstd::prelude::*;
use crate::arguments::Arguable;
use crate::autorelease::ActiveAutoreleasePool;
use crate::objcinstance::ObjcInstance;
use crate::objectpointers::{AutoreleasedCell, StrongCell};

verus! {

/// Stands for the Objective-C class `NSError`.
#[derive(Debug)]
pub struct NSError {
    _private: (),
}

impl Arguable for NSError {
}

impl ObjcInstance for NSError {
}

/// Taking the value out of a result whose error is an `NSError`.
pub trait ResultNSError<T>: Sized {
    /// The value that a success holds.
    spec fn value(self) -> Option<T>;

    /// Takes the value out of a success.
    fn unwrap_nserror(self, pool: &ActiveAutoreleasePool) -> (value: T)
        requires
            self.value() is Some,
        ensures
            Some(value) == self.value(),
    ;
}

impl<'a, T> ResultNSError<T> for Result<T, AutoreleasedCell<'a, NSError>> {
    open spec fn value(self) -> Option<T> {
        match self {
            Ok(value) => Some(value),
            Err(_) => None,
        }
    }

    fn unwrap_nserror(self, pool: &ActiveAutoreleasePool) -> (value: T) {
        match self {
            Ok(value) => value,
            Err(_) => vstd::pervasive::unreached(),
        }
    }
}

impl<T> ResultNSError<T> for Result<T, StrongCell<NSError>> {
    open spec fn value(self) -> Option<T> {
        match self {
            Ok(value) => Some(value),
            Err(_) => None,
        }
    }

    fn unwrap_nserror(self, pool: &ActiveAutoreleasePool) -> (value: T) {
        match self {
            Ok(value) => value,
            Err(_) => vstd::pervasive::unreached(),
        }
    }
}

} // verus!
