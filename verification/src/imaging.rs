//! Image handling for decision requests: PNG encoding of captured frames,
//! base64 data URLs for network transport, and the request content list.

use vstd::prelude::*;
use vstd::string::*;
use crate::domain::Region;
use crate::ports::ScreenCapture;

verus! {

/// The PNG encoding of an RGBA pixel buffer with the given dimensions, when
/// the encoder accepts it.
pub uninterp spec fn png_encoding(width: u32, height: u32, bytes: Seq<u8>) -> Option<Seq<u8>>;

/// Relies on image::RgbaImage::from_raw (which accepts a buffer of exactly
/// width * height * 4 bytes) and ImageBuffer::write_to with the PNG format:
/// the encoding depends on the dimensions and the pixel bytes alone.
#[verifier::external_body]
fn encode_png_rgba(width: u32, height: u32, bytes: Vec<u8>) -> (r: Option<Vec<u8>>)
    requires
        bytes@.len() == width * height * 4,
    ensures
        r is Some <==> png_encoding(width, height, bytes@) is Some,
        r is Some ==> r.unwrap()@ == png_encoding(width, height, bytes@).unwrap(),
{
    let img = match image::RgbaImage::from_raw(width, height, bytes) {
        Some(i) => i,
        None => {
            return None;
        },
    };
    let mut out: Vec<u8> = Vec::new();
    match img.write_to(&mut std::io::Cursor::new(&mut out), image::ImageFormat::Png) {
        Ok(()) => Some(out),
        Err(_) => None,
    }
}

/// The standard (padded) base64 encoding of a byte sequence.
pub uninterp spec fn base64_of(data: Seq<u8>) -> Seq<char>;

/// Relies on base64::Engine::encode with the STANDARD engine: four output
/// characters for every three input bytes, padded. The length bound keeps
/// the input clear of the encoder's internal size computation, which panics
/// on overflow.
#[verifier::external_body]
fn base64_standard(data: &Vec<u8>) -> (r: String)
    requires
        data@.len() <= usize::MAX / 4,
    ensures
        r@ == base64_of(data@),
        r@.len() == 4 * ((data@.len() + 2) / 3),
{
    base64::Engine::encode(&base64::engine::general_purpose::STANDARD, data)
}

/// The data URL a PNG image travels in.
pub open spec fn data_url_text(png: Seq<u8>) -> Seq<char> {
    "data:image/png;base64,"@ + base64_of(png)
}

/// The base64 data URL for one PNG image; `None` for an image too large to
/// encode.
pub fn image_data_url(png: &Vec<u8>) -> (r: Option<String>)
    ensures
        r is Some <==> png@.len() <= usize::MAX / 4,
        r is Some ==> r.unwrap()@ == data_url_text(png@),
{
    if png.len() > usize::MAX / 4 {
        return None;
    }
    let mut url: String = "data:image/png;base64,".to_owned();
    let encoded = base64_standard(png);
    url.append(encoded.as_str());
    Some(url)
}

/// One part of a decision request: instructions, or one region image.
pub enum MessageContent {
    Text { text: String },
    ImageUrl { url: String },
}

/// The request content for one decision: the system message first, then one
/// data URL per captured region image, in region order. `None` when an image
/// is too large to encode as base64.
pub fn build_request_content(system_message: String, images: &Vec<Vec<u8>>) -> (r: Option<
    Vec<MessageContent>,
>)
    ensures
        r is Some ==> r.unwrap()@.len() == images@.len() + 1,
        r is Some ==> (r.unwrap()@[0] matches MessageContent::Text { text } && text@
            == system_message@),
        r is Some ==> forall|i: int|
            0 <= i < images@.len() ==> (#[trigger] r.unwrap()@[i + 1] matches
                MessageContent::ImageUrl { url } && url@ == data_url_text(images@[i]@)),
{
    let ghost sys = system_message@;
    let mut content: Vec<MessageContent> = Vec::new();
    content.push(MessageContent::Text { text: system_message });
    let mut k: usize = 0;
    while k < images.len()
        invariant
            k <= images@.len(),
            content@.len() == k + 1,
            content@[0] matches MessageContent::Text { text } && text@ == sys,
            forall|i: int|
                0 <= i < k ==> (#[trigger] content@[i + 1] matches MessageContent::ImageUrl {
                    url,
                } && url@ == data_url_text(images@[i]@)),
        decreases images@.len() - k,
    {
        match image_data_url(&images[k]) {
            Some(url) => {
                content.push(MessageContent::ImageUrl { url });
            },
            None => {
                return None;
            },
        }
        k += 1;
    }
    Some(content)
}

/// The error text when capturing a region fails.
pub open spec fn capture_fail_text(id: Seq<char>, detail: Seq<char>) -> Seq<char> {
    "Failed to capture region '"@ + id + "': "@ + detail
}

/// The error text when encoding a region's pixels as PNG fails.
pub open spec fn encode_fail_text(id: Seq<char>) -> Seq<char> {
    "Failed to encode PNG for region '"@ + id + "'"@
}

/// `img` is the PNG encoding, at the region's dimensions, of some full
/// RGBA frame for the region.
pub open spec fn is_png_of_some_frame(region: Region, img: Seq<u8>) -> bool {
    exists|b: Seq<u8>|
        b.len() == region.rect.width * region.rect.height * 4 && png_encoding(
            region.rect.width,
            region.rect.height,
            b,
        ) == Some(img)
}

/// The message reports a capture or encoding failure of region `i`.
pub open spec fn names_failed_region(regions: Seq<Region>, i: int, m: Seq<char>) -> bool {
    &&& 0 <= i < regions.len()
    &&& ((exists|d: Seq<char>| m == capture_fail_text(regions[i].id@, d)) || m
        == encode_fail_text(regions[i].id@))
}

/// The message reports the failure of one of the regions.
pub open spec fn names_some_failed_region(regions: Seq<Region>, m: Seq<char>) -> bool {
    exists|i: int| names_failed_region(regions, i, m)
}

/// Capture every region through the port and encode each frame as PNG, in
/// region order. A zero-area region always fails; a successful result holds
/// one genuine PNG encoding per region, at the region's dimensions.
pub fn capture_region_images<C: ScreenCapture>(regions: &Vec<Region>, capture: &C) -> (r: Result<
    Vec<Vec<u8>>,
    String,
>)
    ensures
        (exists|i: int| 0 <= i < regions@.len() && regions@[i].rect.spec_zero_area()) ==> r
            is Err,
        r is Ok ==> r.unwrap()@.len() == regions@.len(),
        r is Ok ==> forall|i: int|
            0 <= i < regions@.len() ==> is_png_of_some_frame(
                regions@[i],
                (#[trigger] r.unwrap()@[i])@,
            ),
        r matches Err(m) ==> names_some_failed_region(regions@, m@),
{
    let mut images: Vec<Vec<u8>> = Vec::new();
    let mut k: usize = 0;
    while k < regions.len()
        invariant
            k <= regions@.len(),
            images@.len() == k,
            forall|i: int| 0 <= i < k ==> !(#[trigger] regions@[i]).rect.spec_zero_area(),
            forall|i: int|
                0 <= i < k ==> is_png_of_some_frame(regions@[i], (#[trigger] images@[i])@),
        decreases regions@.len() - k,
    {
        let region = &regions[k];
        let frame = match capture.capture_region(region) {
            Ok(f) => f,
            Err(e) => {
                let mut msg: String = "Failed to capture region '".to_owned();
                msg.append(region.id.as_str());
                msg.append("': ");
                msg.append(e.code.as_str());
                msg.append(": ");
                msg.append(e.detail.as_str());
                proof {
                    assert(msg@ =~= capture_fail_text(
                        regions@[k as int].id@,
                        e.code@ + ": "@ + e.detail@,
                    ));
                    assert(names_some_failed_region(regions@, msg@)) by {
                        assert(names_failed_region(regions@, k as int, msg@));
                    }
                }
                return Err(msg);
            },
        };
        let ghost fb = frame.bytes@;
        let ghost images_pre = images@;
        match encode_png_rgba(frame.width, frame.height, frame.bytes) {
            Some(png) => {
                let ghost pv = png@;
                images.push(png);
                proof {
                    assert forall|i: int|
                        0 <= i < k + 1 implies is_png_of_some_frame(
                        regions@[i],
                        (#[trigger] images@[i])@,
                    ) by {
                        if i == k {
                            assert(images@[i]@ == pv);
                            assert(is_png_of_some_frame(regions@[i], pv)) by {
                                assert(fb.len() == regions@[i].rect.width
                                    * regions@[i].rect.height * 4 && png_encoding(
                                    regions@[i].rect.width,
                                    regions@[i].rect.height,
                                    fb,
                                ) == Some(pv));
                            }
                        } else {
                            assert(images@[i]@ == images_pre[i]@);
                        }
                    }
                }
            },
            None => {
                let mut msg: String = "Failed to encode PNG for region '".to_owned();
                msg.append(region.id.as_str());
                msg.append("'");
                proof {
                    assert(msg@ =~= encode_fail_text(regions@[k as int].id@));
                    assert(names_some_failed_region(regions@, msg@)) by {
                        assert(names_failed_region(regions@, k as int, msg@));
                    }
                }
                return Err(msg);
            },
        }
        k += 1;
    }
    Ok(images)
}

} // verus!
