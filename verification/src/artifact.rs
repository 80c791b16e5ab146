//! The decoded artifact a successful task hands to the consumer, and the
//! trusted boundary to the image decoder.
use vstd::prelude::*;

verus! {

#[verifier::external_type_specification]
#[verifier::external_body]
pub struct ExRetainedImage(egui_extras::RetainedImage);

/// What decoding a byte buffer yields: the pixel dimensions on success, or
/// the decoder's message on failure. Decoding is a pure function of the
/// bytes, so the outcome is named here and every contract that speaks of a
/// decode speaks of this name.
pub uninterp spec fn image_decode_outcome(bytes: Seq<u8>) -> Result<(usize, usize), Seq<char>>;

/// A displayable image together with the plain facts the consumer reads of
/// it: its pixel dimensions, the number of encoded source bytes it was
/// decoded from, and the label it was decoded under.
pub struct ImageArtifact {
    /// The decoded image itself, opaque to everything but the toolkit.
    pub raw: egui_extras::RetainedImage,
    /// Pixel width reported by the decoder.
    pub width: usize,
    /// Pixel height reported by the decoder.
    pub height: usize,
    /// How many encoded bytes the image was decoded from.
    pub source_len: usize,
    /// The label the image was decoded under, e.g. its source URL.
    pub debug_name: String,
}

/// Relies on `egui_extras::RetainedImage::from_image_bytes` (and the
/// decoded image's `width` and `height` accessors): decoding either yields
/// an image of a definite size or a message, and the outcome depends on the
/// input bytes alone — the debug label is only stored, never examined.
#[verifier::external_body]
pub(crate) fn decode_image(debug_name: String, bytes: &Vec<u8>) -> (r: Result<
    ImageArtifact,
    String,
>)
    ensures
        match r {
            Ok(a) => {
                &&& image_decode_outcome(bytes@) == Ok::<(usize, usize), Seq<char>>(
                    (a.width, a.height),
                )
                &&& a.source_len == bytes@.len()
                &&& a.debug_name@ == debug_name@
            },
            Err(e) => image_decode_outcome(bytes@) == Err::<(usize, usize), Seq<char>>(e@),
        },
{
    match egui_extras::RetainedImage::from_image_bytes(debug_name.clone(), bytes.as_slice()) {
        Ok(raw) => {
            let width = raw.width();
            let height = raw.height();
            Ok(ImageArtifact { raw, width, height, source_len: bytes.len(), debug_name })
        },
        Err(e) => Err(e),
    }
}

} // verus!
