//! The documented built-in implementations that fill unconfigured hook
//! slots.
//!
//! Each default is a stateless capability; a freshly constructed
//! configuration holds exactly these six values.

use crate::describe::Describe;
use vstd::prelude::*;
use vstd::string::StringExecFns;

verus! {

/// The default span-creation strategy.
pub struct DefaultMakeSpan {}

impl DefaultMakeSpan {
    /// Create the default span-creation strategy.
    pub fn new() -> (r: Self)
        ensures
            r == (DefaultMakeSpan {}),
    {
        DefaultMakeSpan {}
    }
}

impl Default for DefaultMakeSpan {
    fn default() -> (r: Self)
        ensures
            r == (DefaultMakeSpan {}),
    {
        DefaultMakeSpan {}
    }
}

impl Clone for DefaultMakeSpan {
    fn clone(&self) -> (r: Self)
        ensures
            r == *self,
    {
        DefaultMakeSpan {}
    }
}

impl Describe for DefaultMakeSpan {
    open spec fn describe_spec(&self) -> Seq<char> {
        "DefaultMakeSpan"@
    }

    fn describe(&self) -> (r: String) {
        String::from_str("DefaultMakeSpan")
    }
}

/// The default request hook.
pub struct DefaultOnRequest {}

impl DefaultOnRequest {
    /// Create the default request hook.
    pub fn new() -> (r: Self)
        ensures
            r == (DefaultOnRequest {}),
    {
        DefaultOnRequest {}
    }
}

impl Default for DefaultOnRequest {
    fn default() -> (r: Self)
        ensures
            r == (DefaultOnRequest {}),
    {
        DefaultOnRequest {}
    }
}

impl Clone for DefaultOnRequest {
    fn clone(&self) -> (r: Self)
        ensures
            r == *self,
    {
        DefaultOnRequest {}
    }
}

impl Describe for DefaultOnRequest {
    open spec fn describe_spec(&self) -> Seq<char> {
        "DefaultOnRequest"@
    }

    fn describe(&self) -> (r: String) {
        String::from_str("DefaultOnRequest")
    }
}

/// The default response hook.
pub struct DefaultOnResponse {}

impl DefaultOnResponse {
    /// Create the default response hook.
    pub fn new() -> (r: Self)
        ensures
            r == (DefaultOnResponse {}),
    {
        DefaultOnResponse {}
    }
}

impl Default for DefaultOnResponse {
    fn default() -> (r: Self)
        ensures
            r == (DefaultOnResponse {}),
    {
        DefaultOnResponse {}
    }
}

impl Clone for DefaultOnResponse {
    fn clone(&self) -> (r: Self)
        ensures
            r == *self,
    {
        DefaultOnResponse {}
    }
}

impl Describe for DefaultOnResponse {
    open spec fn describe_spec(&self) -> Seq<char> {
        "DefaultOnResponse"@
    }

    fn describe(&self) -> (r: String) {
        String::from_str("DefaultOnResponse")
    }
}

/// The default body-chunk hook.
pub struct DefaultOnBodyChunk {}

impl DefaultOnBodyChunk {
    /// Create the default body-chunk hook.
    pub fn new() -> (r: Self)
        ensures
            r == (DefaultOnBodyChunk {}),
    {
        DefaultOnBodyChunk {}
    }
}

impl Default for DefaultOnBodyChunk {
    fn default() -> (r: Self)
        ensures
            r == (DefaultOnBodyChunk {}),
    {
        DefaultOnBodyChunk {}
    }
}

impl Clone for DefaultOnBodyChunk {
    fn clone(&self) -> (r: Self)
        ensures
            r == *self,
    {
        DefaultOnBodyChunk {}
    }
}

impl Describe for DefaultOnBodyChunk {
    open spec fn describe_spec(&self) -> Seq<char> {
        "DefaultOnBodyChunk"@
    }

    fn describe(&self) -> (r: String) {
        String::from_str("DefaultOnBodyChunk")
    }
}

/// The default end-of-stream hook.
pub struct DefaultOnEos {}

impl DefaultOnEos {
    /// Create the default end-of-stream hook.
    pub fn new() -> (r: Self)
        ensures
            r == (DefaultOnEos {}),
    {
        DefaultOnEos {}
    }
}

impl Default for DefaultOnEos {
    fn default() -> (r: Self)
        ensures
            r == (DefaultOnEos {}),
    {
        DefaultOnEos {}
    }
}

impl Clone for DefaultOnEos {
    fn clone(&self) -> (r: Self)
        ensures
            r == *self,
    {
        DefaultOnEos {}
    }
}

impl Describe for DefaultOnEos {
    open spec fn describe_spec(&self) -> Seq<char> {
        "DefaultOnEos"@
    }

    fn describe(&self) -> (r: String) {
        String::from_str("DefaultOnEos")
    }
}

/// The default failure hook.
pub struct DefaultOnFailure {}

impl DefaultOnFailure {
    /// Create the default failure hook.
    pub fn new() -> (r: Self)
        ensures
            r == (DefaultOnFailure {}),
    {
        DefaultOnFailure {}
    }
}

impl Default for DefaultOnFailure {
    fn default() -> (r: Self)
        ensures
            r == (DefaultOnFailure {}),
    {
        DefaultOnFailure {}
    }
}

impl Clone for DefaultOnFailure {
    fn clone(&self) -> (r: Self)
        ensures
            r == *self,
    {
        DefaultOnFailure {}
    }
}

impl Describe for DefaultOnFailure {
    open spec fn describe_spec(&self) -> Seq<char> {
        "DefaultOnFailure"@
    }

    fn describe(&self) -> (r: String) {
        String::from_str("DefaultOnFailure")
    }
}

} // verus!
