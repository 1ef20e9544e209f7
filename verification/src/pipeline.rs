//! Checks made while the text pipeline is built.
//!
//! The linked shader program must know the two uniforms and the five vertex
//! attributes by name. The graphics context answers a lookup with a location,
//! which is negative where the program has no such name; the pipeline cannot
//! be built then.

use crate::layout::{Attribute, VERTEX_BYTES};
use vstd::prelude::*;

verus! {

/// The name of the uniform that holds the orthographic projection.
pub const PROJECTION_UNIFORM: &'static str = "proj";

/// The name of the uniform that holds the window transform.
pub const WINDOW_TRANSFORM_UNIFORM: &'static str = "window_transform";

/// Why the pipeline could not be built.
#[derive(Debug, PartialEq, Eq)]
pub enum PipelineError {
    /// The program has no uniform of this name; `location` is what the lookup
    /// returned.
    MissingUniform { name: String, location: i32 },
    /// The program has no vertex attribute of this name; `location` is what
    /// the lookup returned.
    MissingAttribute { name: String, location: i32 },
}

/// How a vertex attribute is bound to the vertex buffer: `components` scalars
/// per record at `offset` bytes into it, records `stride` bytes apart, and one
/// record per `divisor` instances.
#[derive(Clone, Copy, Debug, PartialEq, Eq)]
pub struct Binding {
    pub index: u32,
    pub components: i32,
    pub stride: i32,
    pub offset: usize,
    pub divisor: u32,
}

/// Accepts the location that the lookup of the uniform `name` returned.
pub fn uniform_location(name: &str, location: i32) -> (checked: Result<i32, PipelineError>)
    ensures
        location >= 0 ==> checked == Ok::<i32, PipelineError>(location),
        location < 0 ==> (checked matches Err(PipelineError::MissingUniform { name: missing, location: returned })
            && missing@ == name@ && returned == location),
{
    if location < 0 {
        Err(PipelineError::MissingUniform { name: name.to_owned(), location })
    } else {
        Ok(location)
    }
}

/// Binds `attribute` at the location that its lookup returned: every instance
/// reads the attribute from a record of its own.
pub fn bind_attribute(attribute: &Attribute, location: i32) -> (bound: Result<Binding, PipelineError>)
    ensures
        location >= 0 ==> bound == Ok::<Binding, PipelineError>(
            Binding {
                index: location as u32,
                components: attribute.components,
                stride: VERTEX_BYTES as i32,
                offset: attribute.offset,
                divisor: 1,
            },
        ),
        location < 0 ==> (bound matches Err(PipelineError::MissingAttribute { name: missing, location: returned })
            && missing@ == attribute.name@ && returned == location),
{
    if location < 0 {
        Err(PipelineError::MissingAttribute { name: attribute.name.to_owned(), location })
    } else {
        Ok(
            Binding {
                index: location as u32,
                components: attribute.components,
                stride: VERTEX_BYTES as i32,
                offset: attribute.offset,
                divisor: 1,
            },
        )
    }
}

} // verus!
