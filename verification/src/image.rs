//! Debug images of compiled code, registered with the debugger.

use vstd::prelude::*;
use wasmtime_runtime::GdbJitImageRegistration;

verus! {

/// `wasmtime_runtime::GdbJitImageRegistration`, an image that the debugger knows of.
#[verifier::external_type_specification]
#[verifier::external_body]
pub struct ExGdbJitImageRegistration(GdbJitImageRegistration);

/// The image that a registration holds: what its `file` returns.
pub uninterp spec fn registered_image(registration: GdbJitImageRegistration) -> Seq<u8>;

/// The image of a registration, where there is one.
pub open spec fn image_of(registration: Option<GdbJitImageRegistration>) -> Option<Seq<u8>> {
    match registration {
        Some(registration) => Some(registered_image(registration)),
        None => None,
    }
}

/// The bytes of an image, where there is one.
pub open spec fn image_bytes(image: Option<Vec<u8>>) -> Option<Seq<u8>> {
    match image {
        Some(bytes) => Some(bytes@),
        None => None,
    }
}

/// Calls `wasmtime_runtime::GdbJitImageRegistration::register`, which tells the debugger of the
/// image and keeps the image as it is. Nothing is said of what the debugger does.
#[verifier::external_body]
fn register(image: Vec<u8>) -> (r: GdbJitImageRegistration)
    ensures
        registered_image(r) == image@,
{
    GdbJitImageRegistration::register(image)
}

/// Registers an image with the debugger, where there is one.
pub fn register_image(image: Option<Vec<u8>>) -> (r: Option<GdbJitImageRegistration>)
    ensures
        image_of(r) == image_bytes(image),
{
    match image {
        Some(bytes) => Some(register(bytes)),
        None => None,
    }
}

/// An image is registered exactly if there is one, with every byte that it holds.
pub proof fn law_registered_image_is_the_one_given(
    image: Option<Vec<u8>>,
    r: Option<GdbJitImageRegistration>,
)
    requires
        call_ensures(register_image, (image,), r),
    ensures
        r is Some <==> image is Some,
        r is Some ==> registered_image(r->0).len() == (image->0).len(),
        forall|i: int|
            image is Some && 0 <= i < (image->0).len() ==> #[trigger] registered_image(r->0)[i]
                == (image->0)[i],
{
}

} // verus!
