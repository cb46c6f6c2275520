//! The reduced profile of the service: one image in, its text out.

use vstd::prelude::*;
use vstd::string::*;
use crate::codec::{decode_reduced, reduced_decoding, reduced_signature};
use crate::form::same_text;
use crate::model::ModelPaths;
use crate::normalize::{region_views, RegionView, TextRegion};
use crate::raster::Raster;

verus! {

/// The status of a request that cannot be served as it stands.
pub const STATUS_BAD_REQUEST: u16 = 400;

/// The status of a request on which the engine failed.
pub const STATUS_INTERNAL_ERROR: u16 = 500;

/// What a region adds to the text: its text and a newline, where it has
/// both a text and a confidence.
pub open spec fn region_entry(region: RegionView) -> Seq<char> {
    match (region.text, region.confidence) {
        (Some(text), Some(_)) => text + seq!['\n'],
        _ => Seq::empty(),
    }
}

/// The text of the regions of one image.
pub open spec fn page_plain_text(regions: Seq<RegionView>) -> Seq<char>
    decreases regions.len(),
{
    if regions.len() == 0 {
        Seq::empty()
    } else {
        page_plain_text(regions.drop_last()) + region_entry(regions.last())
    }
}

/// The text of the regions of all images, image after image.
pub open spec fn plain_text_of(pages: Seq<Vec<TextRegion>>) -> Seq<char>
    decreases pages.len(),
{
    if pages.len() == 0 {
        Seq::empty()
    } else {
        plain_text_of(pages.drop_last()) + page_plain_text(region_views(pages.last()@))
    }
}

/// Whether a field of the form is the one that carries the image.
pub fn is_image_field(name: Option<&str>) -> (r: bool)
    ensures
        r == (name matches Some(text) && text@ == "image"@),
{
    match name {
        Some(text) => same_text(text, "image"),
        None => false,
    }
}

/// The paths of the artifacts that the reduced profile builds its engine
/// from.
pub fn reduced_model_paths() -> (paths: ModelPaths)
    ensures
        paths.detector@ == "models/ppocrv4_mobile_det.onnx"@,
        paths.recognizer@ == "models/ppocrv4_mobile_rec.onnx"@,
        paths.dictionary@ == "models/ppocr_keys_v1.txt"@,
{
    ModelPaths {
        detector: String::from_str("models/ppocrv4_mobile_det.onnx"),
        recognizer: String::from_str("models/ppocrv4_mobile_rec.onnx"),
        dictionary: String::from_str("models/ppocr_keys_v1.txt"),
    }
}

/// What the reduced profile makes of a form: the decoded image of its first
/// field `image`; a form without such a field is a bad request.
pub fn reduced_upload(image: Option<Vec<u8>>) -> (r: Result<Raster, u16>)
    ensures
        match image {
            Some(bytes) => match reduced_decoding(bytes@) {
                Some(decoded) => r matches Ok(raster) && raster.content() == decoded
                    && raster.wf(),
                None => r == Err::<Raster, u16>(STATUS_BAD_REQUEST),
            },
            None => r == Err::<Raster, u16>(STATUS_BAD_REQUEST),
        },
{
    match image {
        Some(bytes) => reduced_image(bytes.as_slice()),
        None => Err(STATUS_BAD_REQUEST),
    }
}

/// Decodes the image of a request: the first image that decoding as PNG, as
/// JPEG and as WebP gives, in this order. A buffer that none of them decodes
/// is a bad request; so is every buffer that begins as neither a PNG, a JPEG
/// nor a WebP stream does.
pub fn reduced_image(bytes: &[u8]) -> (r: Result<Raster, u16>)
    ensures
        match reduced_decoding(bytes@) {
            Some(image) => r matches Ok(raster) && raster.content() == image,
            None => r == Err::<Raster, u16>(STATUS_BAD_REQUEST),
        },
        match r {
            Ok(image) => image.wf() && reduced_signature(bytes@),
            Err(status) => status == STATUS_BAD_REQUEST,
        },
        !reduced_signature(bytes@) ==> r == Err::<Raster, u16>(STATUS_BAD_REQUEST),
{
    match decode_reduced(bytes) {
        Some(image) => Ok(image),
        None => Err(STATUS_BAD_REQUEST),
    }
}

/// Appends to `text` what the regions of one image add.
fn append_page(regions: &Vec<TextRegion>, text: &mut String)
    ensures
        final(text)@ == old(text)@ + page_plain_text(region_views(regions@)),
{
    let ghost views = region_views(regions@);
    let ghost before = text@;
    proof {
        assert(views.take(0) =~= Seq::empty());
        assert(before + page_plain_text(views.take(0)) =~= before);
    }
    let mut i: usize = 0;
    while i < regions.len()
        invariant
            i <= regions.len(),
            views == region_views(regions@),
            text@ == before + page_plain_text(views.take(i as int)),
        decreases regions.len() - i,
    {
        proof {
            reveal_strlit("\n");
            assert("\n"@ =~= seq!['\n']);
            assert(views.take(i + 1).drop_last() =~= views.take(i as int));
            assert(views.take(i + 1).last() == regions[i as int]@);
        }
        let ghost so_far = text@;
        let region = &regions[i];
        match (&region.text, region.confidence) {
            (Some(line), Some(_)) => {
                text.append(line.as_str());
                text.append("\n");
                proof {
                    assert(text@ =~= so_far + (line@ + seq!['\n']));
                    assert(text@ =~= before + page_plain_text(views.take(i + 1)));
                }
            },
            _ => {
                proof {
                    assert(region_entry(regions[i as int]@) =~= Seq::empty());
                    assert(so_far =~= before + page_plain_text(views.take(i + 1)));
                }
            },
        }
        i += 1;
    }
    proof {
        assert(views.take(regions.len() as int) =~= views);
    }
}

/// The text of a recognition: of each region that has a text and a
/// confidence the text and a newline, in the order of the regions.
pub fn plain_text(pages: &Vec<Vec<TextRegion>>) -> (text: String)
    ensures
        text@ == plain_text_of(pages@),
{
    let mut text = String::new();
    let mut i: usize = 0;
    proof {
        assert(pages@.take(0) =~= Seq::empty());
    }
    while i < pages.len()
        invariant
            i <= pages.len(),
            text@ == plain_text_of(pages@.take(i as int)),
        decreases pages.len() - i,
    {
        proof {
            assert(pages@.take(i + 1).drop_last() =~= pages@.take(i as int));
            assert(pages@.take(i + 1).last() == pages[i as int]);
        }
        append_page(&pages[i], &mut text);
        i += 1;
    }
    proof {
        assert(pages@.take(pages.len() as int) =~= pages@);
    }
    text
}

/// Ends a request of the reduced profile: the text of what the engine
/// returned, or an internal error where the engine failed.
pub fn reduced_answer(outcome: Result<Vec<Vec<TextRegion>>, String>) -> (r: Result<String, u16>)
    ensures
        match outcome {
            Ok(pages) => r matches Ok(text) && text@ == plain_text_of(pages@),
            Err(_) => r == Err::<String, u16>(STATUS_INTERNAL_ERROR),
        },
{
    match outcome {
        Ok(pages) => Ok(plain_text(&pages)),
        Err(_) => Err(STATUS_INTERNAL_ERROR),
    }
}

} // verus!
