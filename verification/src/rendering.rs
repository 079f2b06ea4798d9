//! Configuration of the rendering collaborator.  Rendering itself
//! consumes the document outside this crate; here stands the plain
//! record it is set up with.

use vstd::prelude::*;

verus! {

/// What the renderer needs to know: where resources and fonts live,
/// whether system fonts join in, and the screen it fits the image to.
#[derive(Clone, Debug)]
pub struct Configuration {
    pub base_dir: Option<String>,
    pub resources_dir: Option<String>,
    pub fonts_dir: Option<String>,
    pub system_fonts: bool,
    pub screen_size: Option<(u32, u32)>,
}

} // verus!
