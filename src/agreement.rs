//! How the extension query and the surface request agree.
use vstd::prelude::*;

use crate::extension::required_extension;
use crate::handle::WindowHandle;
use crate::surface::surface_call;

verus! {

/// Every supported kind of handle has both a surface call and a surface
/// extension, and a kind without support has neither: the two operations
/// never part ways on which handles they serve.
pub proof fn lemma_supported_kinds_are_handled(h: WindowHandle)
    ensures
        h.supported() <==> surface_call(h) is Some,
        h.supported() <==> required_extension(h) is Some,
{
}

/// For every supported handle, the extension reported for it is exactly the
/// one that provides the call chosen to make its surface.
pub proof fn lemma_extension_provides_call(h: WindowHandle)
    requires
        h.supported(),
    ensures
        required_extension(h) == Some(surface_call(h).unwrap().extension()),
{
}

} // verus!
