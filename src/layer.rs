//! The rendering layer (`CALayer`): a facade over one owned native handle.
use vstd::prelude::*;
use crate::properties::{release_call, NativeCall, ObjcProperty};

verus! {

/// The call that sets the corner radius of the layer at `object`.
pub open spec fn corner_radius_call(object: usize, radius_bits: u64) -> NativeCall {
    NativeCall::SetCornerRadius { object, radius_bits }
}

/// The call that sets the contents of the layer at `object`.
pub open spec fn contents_call(object: usize, contents: usize) -> NativeCall {
    NativeCall::SetContents { object, contents }
}

/// Represents a `CALayer`, owned through its handle.
pub struct Layer {
    /// The underlying layer handle.
    pub objc: ObjcProperty,
}

impl Layer {
    /// The address of the layer object.
    pub open spec fn object(&self) -> usize {
        self.objc.object()
    }

    /// Wraps an existing, already retained `CALayer`; ownership of that
    /// reference passes to the result, with no retain of its own.
    pub fn wrap(layer: usize) -> (r: Self)
        requires
            layer != 0,
        ensures
            r.object() == layer,
    {
        Layer { objc: ObjcProperty::from_retained(layer) }
    }

    /// Sets the corner radius (for all four corners): hands exactly one
    /// call to `send`, carrying the radius, while the layer is held.
    pub fn set_corner_radius<R, F: FnOnce(NativeCall) -> R>(&self, radius_bits: u64, send: F) -> (r: R)
        requires
            send.requires((corner_radius_call(self.object(), radius_bits),)),
        ensures
            send.ensures((corner_radius_call(self.object(), radius_bits),), r),
    {
        self.objc.with_mut(
            (move |object: usize| -> (r: R)
                requires
                    send.requires((corner_radius_call(object, radius_bits),)),
                ensures
                    send.ensures((corner_radius_call(object, radius_bits),), r),
            {
                let call = NativeCall::SetCornerRadius { object, radius_bits };
                send(call)
            }),
        )
    }

    /// Sets the layer's contents to the object at `contents`: hands exactly
    /// one call to `send` while the layer is held.
    pub fn set_contents<R, F: FnOnce(NativeCall) -> R>(&self, contents: usize, send: F) -> (r: R)
        requires
            send.requires((contents_call(self.object(), contents),)),
        ensures
            send.ensures((contents_call(self.object(), contents),), r),
    {
        self.objc.with_mut(
            (move |object: usize| -> (r: R)
                requires
                    send.requires((contents_call(object, contents),)),
                ensures
                    send.ensures((contents_call(object, contents),), r),
            {
                let call = NativeCall::SetContents { object, contents };
                send(call)
            }),
        )
    }

    /// Sets the layer's contents to an image, given by the address of the
    /// image's backing object.
    pub fn set_image_contents<R, F: FnOnce(NativeCall) -> R>(&self, image: usize, send: F) -> (r: R)
        requires
            send.requires((contents_call(self.object(), image),)),
        ensures
            send.ensures((contents_call(self.object(), image),), r),
    {
        self.set_contents(image, send)
    }

    /// Ends the layer's lifetime: hands exactly one release of the layer
    /// object to `send`.
    pub fn release<R, F: FnOnce(NativeCall) -> R>(self, send: F) -> (r: R)
        requires
            send.requires((release_call(self.object()),)),
        ensures
            send.ensures((release_call(self.object()),), r),
    {
        self.objc.release(send)
    }
}

} // verus!
