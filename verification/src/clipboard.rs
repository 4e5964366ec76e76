//! Clipboard content: how it is fingerprinted, written for the wire, framed,
//! and how an image travels as a lossless still image.

use crate::bytes::{be_bytes, be_value, copy_range, le_bytes, le_value, push_all, push_be};
use crate::bytes::{lemma_be_bytes_len, lemma_be_value_of_bytes};
use crate::bytes::{lemma_le_bytes_len, lemma_le_value_of_bytes, lemma_pow256_values};
use crate::bytes::{push_le, read_be, read_le};
use crate::primitives::{sha256, sha256_digest};
use crate::text::{hex_encode, hex_text, lemma_hex_text_injective, utf8_string};
use image::ImageEncoder;
use vstd::prelude::*;
use vstd::string::*;
use vstd::utf8::{decode_utf8, encode_utf8, valid_utf8};

verus! {

/// The longest frame that is taken from the network: 50 MiB.
pub const MAX_PACKET_SIZE: usize = 52_428_800;

/// Length of the length that precedes each frame.
pub const FRAME_HEADER_LEN: usize = 4;

/// Bytes of one pixel of a clipboard image: red, green, blue, alpha.
pub const BYTES_PER_PIXEL: usize = 4;

/// Content as it travels between peers.
#[derive(Debug, PartialEq, Eq)]
pub enum ClipContent {
    Text(String),
    /// An image, as the bytes of a PNG file.
    Image(Vec<u8>),
}

/// Content for the wire as plain values.
pub enum ClipContentView {
    Text(Seq<char>),
    Image(Seq<u8>),
}

impl View for ClipContent {
    type V = ClipContentView;

    open spec fn view(&self) -> ClipContentView {
        match self {
            ClipContent::Text(text) => ClipContentView::Text(text@),
            ClipContent::Image(png) => ClipContentView::Image(png@),
        }
    }
}

/// Content as the clipboard of the machine holds it.
#[derive(Debug, PartialEq, Eq)]
pub enum ClipboardData {
    Text(String),
    /// An image as rows of pixels, four bytes each.
    Image { width: usize, height: usize, bytes: Vec<u8> },
}

/// Clipboard content as plain values.
pub enum ClipboardDataView {
    Text(Seq<char>),
    Image { width: usize, height: usize, bytes: Seq<u8> },
}

impl View for ClipboardData {
    type V = ClipboardDataView;

    open spec fn view(&self) -> ClipboardDataView {
        match self {
            ClipboardData::Text(text) => ClipboardDataView::Text(text@),
            ClipboardData::Image { width, height, bytes } => ClipboardDataView::Image {
                width: *width,
                height: *height,
                bytes: bytes@,
            },
        }
    }
}

/// The fingerprint of a payload: its SHA-256 digest in hexadecimal.
pub open spec fn fingerprint(data: Seq<u8>) -> Seq<char> {
    hex_text(sha256_digest(data))
}

/// The bytes that are fingerprinted for clipboard content: the UTF-8 bytes of
/// text, the pixel bytes of an image.
pub open spec fn fingerprinted_bytes(data: ClipboardDataView) -> Seq<u8> {
    match data {
        ClipboardDataView::Text(text) => encode_utf8(text),
        ClipboardDataView::Image { width, height, bytes } => bytes,
    }
}

/// Two payloads have one fingerprint exactly where they have one digest: the
/// fingerprint tells apart whatever SHA-256 tells apart.
pub proof fn lemma_fingerprints_differ_as_digests(a: Seq<u8>, b: Seq<u8>)
    ensures
        fingerprint(a) == fingerprint(b) <==> sha256_digest(a) == sha256_digest(b),
        a == b ==> fingerprint(a) == fingerprint(b),
{
    if fingerprint(a) == fingerprint(b) {
        lemma_hex_text_injective(sha256_digest(a), sha256_digest(b));
    }
}

/// The fingerprint of `data`.
pub fn hash_data(data: &[u8]) -> (r: String)
    ensures
        r@ == fingerprint(data@),
{
    let digest = sha256(data);
    hex_encode(digest.as_slice())
}

/// The bytes of content for the wire: the kind on four little-endian bytes, 0
/// for text and 1 for an image, then the length of the content on eight, then
/// the content, text as UTF-8.
pub open spec fn content_bytes(content: ClipContentView) -> Seq<u8> {
    match content {
        ClipContentView::Text(text) => le_bytes(0, 4) + le_bytes(encode_utf8(text).len(), 8)
            + encode_utf8(text),
        ClipContentView::Image(png) => le_bytes(1, 4) + le_bytes(png.len(), 8) + png,
    }
}

/// The content that `bytes` holds, or nothing where the kind is unknown, the
/// bytes are fewer than announced, or text is no UTF-8. What follows the
/// content is not looked at.
pub open spec fn content_parsed(bytes: Seq<u8>) -> Option<ClipContentView> {
    if bytes.len() < 12 || le_value(bytes.subrange(4, 12)) > bytes.len() - 12 {
        None
    } else {
        let kind = le_value(bytes.subrange(0, 4));
        let body = bytes.subrange(12, 12 + le_value(bytes.subrange(4, 12)) as int);
        if kind == 0 {
            if valid_utf8(body) {
                Some(ClipContentView::Text(decode_utf8(body)))
            } else {
                None
            }
        } else if kind == 1 {
            Some(ClipContentView::Image(body))
        } else {
            None
        }
    }
}

/// Content that was written is read back as it was.
pub proof fn lemma_content_parses(content: ClipContentView)
    requires
        match content {
            ClipContentView::Text(text) => encode_utf8(text).len() <= u64::MAX,
            ClipContentView::Image(png) => png.len() <= u64::MAX,
        },
    ensures
        content_parsed(content_bytes(content)) == Some(content),
{
    broadcast use vstd::utf8::encode_utf8_valid_utf8, vstd::utf8::encode_utf8_decode_utf8;

    lemma_pow256_values();
    let all = content_bytes(content);
    match content {
        ClipContentView::Text(text) => {
            let body = encode_utf8(text);
            lemma_le_bytes_len(0, 4);
            lemma_le_bytes_len(body.len(), 8);
            lemma_le_value_of_bytes(0, 4);
            lemma_le_value_of_bytes(body.len(), 8);
            assert(all.subrange(0, 4) =~= le_bytes(0, 4));
            assert(all.subrange(4, 12) =~= le_bytes(body.len(), 8));
            assert(all.subrange(12, 12 + body.len() as int) =~= body);
        },
        ClipContentView::Image(png) => {
            lemma_le_bytes_len(1, 4);
            lemma_le_bytes_len(png.len(), 8);
            lemma_le_value_of_bytes(1, 4);
            lemma_le_value_of_bytes(png.len(), 8);
            assert(all.subrange(0, 4) =~= le_bytes(1, 4));
            assert(all.subrange(4, 12) =~= le_bytes(png.len(), 8));
            assert(all.subrange(12, 12 + png.len() as int) =~= png);
        },
    }
}

/// Writes content for the wire.
pub fn write_content(content: &ClipContent) -> (r: Vec<u8>)
    ensures
        r@ == content_bytes(content@),
{
    let mut out: Vec<u8> = Vec::new();
    match content {
        ClipContent::Text(text) => {
            let body = text.as_str().as_bytes();
            push_le(&mut out, 0, 4);
            push_le(&mut out, body.len() as u64, 8);
            push_all(&mut out, body);
        },
        ClipContent::Image(png) => {
            push_le(&mut out, 1, 4);
            push_le(&mut out, png.len() as u64, 8);
            push_all(&mut out, png.as_slice());
        },
    }
    out
}

/// Reads content from the wire.
pub fn read_content(bytes: &[u8]) -> (r: Option<ClipContent>)
    ensures
        match content_parsed(bytes@) {
            Some(content) => r matches Some(got) && got@ == content,
            None => r is None,
        },
{
    if bytes.len() < 12 {
        return None;
    }
    let kind: u64 = read_le(bytes, 0, 4);
    let size: u64 = read_le(bytes, 4, 8);
    if size > (bytes.len() - 12) as u64 {
        return None;
    }
    let body = copy_range(bytes, 12, 12 + size as usize);
    if kind == 0 {
        match utf8_string(body) {
            Some(text) => Some(ClipContent::Text(text)),
            None => None,
        }
    } else if kind == 1 {
        Some(ClipContent::Image(body))
    } else {
        None
    }
}

/// An image packed into one buffer: width and height, each on eight
/// big-endian bytes, then the pixels.
pub open spec fn raw_buffer(width: usize, height: usize, bytes: Seq<u8>) -> Seq<u8> {
    be_bytes(width as nat, 8) + be_bytes(height as nat, 8) + bytes
}

/// Packs an image into one buffer.
pub fn encode_raw_buffer(w: usize, h: usize, bytes: Vec<u8>) -> (r: Vec<u8>)
    ensures
        r@ == raw_buffer(w, h, bytes@),
{
    let mut v: Vec<u8> = Vec::new();
    push_be(&mut v, w as u64, 8);
    push_be(&mut v, h as u64, 8);
    push_all(&mut v, bytes.as_slice());
    v
}

/// Unpacks an image from a buffer of at least the 16 bytes of the two
/// dimensions, which fit the machine's word.
pub fn decode_raw_buffer(v: Vec<u8>) -> (r: (usize, usize, Vec<u8>))
    requires
        v@.len() >= 16,
        be_value(v@.subrange(0, 8)) <= usize::MAX,
        be_value(v@.subrange(8, 16)) <= usize::MAX,
    ensures
        r.0 == be_value(v@.subrange(0, 8)),
        r.1 == be_value(v@.subrange(8, 16)),
        r.2@ == v@.subrange(16, v@.len() as int),
{
    let w: u64 = read_be(v.as_slice(), 0, 8);
    let h: u64 = read_be(v.as_slice(), 8, 8);
    let pixels = copy_range(v.as_slice(), 16, v.len());
    (w as usize, h as usize, pixels)
}

/// An image that was packed is unpacked as it was.
pub proof fn lemma_raw_buffer_unpacks(width: usize, height: usize, bytes: Seq<u8>)
    ensures
        ({
            let packed = raw_buffer(width, height, bytes);
            &&& packed.len() == bytes.len() + 16
            &&& be_value(packed.subrange(0, 8)) == width
            &&& be_value(packed.subrange(8, 16)) == height
            &&& packed.subrange(16, packed.len() as int) == bytes
        }),
{
    let packed = raw_buffer(width, height, bytes);
    lemma_pow256_values();
    lemma_be_bytes_len(width as nat, 8);
    lemma_be_bytes_len(height as nat, 8);
    lemma_be_value_of_bytes(width as nat, 8);
    lemma_be_value_of_bytes(height as nat, 8);
    assert(packed.subrange(0, 8) =~= be_bytes(width as nat, 8));
    assert(packed.subrange(8, 16) =~= be_bytes(height as nat, 8));
}

/// A frame: the length of `data` on four big-endian bytes, then `data`.
pub open spec fn framed(data: Seq<u8>) -> Seq<u8> {
    be_bytes(data.len(), 4) + data
}

/// Why a frame was not made or not taken.
#[derive(Clone, Copy, Debug, PartialEq, Eq, Structural)]
pub enum FrameError {
    /// The length is above the maximum: nothing of the frame is read.
    FrameTooLarge,
}

/// Frames `data` for sending. Data longer than a frame may be is refused.
pub fn frame(data: &[u8]) -> (r: Result<Vec<u8>, FrameError>)
    ensures
        data@.len() <= MAX_PACKET_SIZE ==> (r matches Ok(made) && made@ == framed(data@)),
        data@.len() > MAX_PACKET_SIZE ==> (r matches Err(e) && e == FrameError::FrameTooLarge),
{
    if data.len() > MAX_PACKET_SIZE {
        return Err(FrameError::FrameTooLarge);
    }
    let mut out: Vec<u8> = Vec::new();
    push_be(&mut out, data.len() as u64, FRAME_HEADER_LEN);
    push_all(&mut out, data);
    Ok(out)
}

/// Reads the length that precedes a frame, before anything else of the frame
/// is read and before any room is made for it. A length above the maximum is
/// refused.
pub fn accept_frame_length(header: &[u8; 4]) -> (r: Result<usize, FrameError>)
    ensures
        be_value(header@) <= MAX_PACKET_SIZE ==> (r matches Ok(len) && len == be_value(header@)),
        be_value(header@) > MAX_PACKET_SIZE ==> (r matches Err(e) && e == FrameError::FrameTooLarge),
{
    let len: u64 = read_be(header.as_slice(), 0, FRAME_HEADER_LEN);
    proof {
        assert(header@.subrange(0, 4) =~= header@);
    }
    if len > MAX_PACKET_SIZE as u64 {
        Err(FrameError::FrameTooLarge)
    } else {
        Ok(len as usize)
    }
}

/// The length that precedes a frame of data that was framed is the data's.
pub proof fn lemma_frame_length(data: Seq<u8>)
    requires
        data.len() <= MAX_PACKET_SIZE,
    ensures
        framed(data).len() == data.len() + FRAME_HEADER_LEN,
        be_value(framed(data).subrange(0, FRAME_HEADER_LEN as int)) == data.len(),
        framed(data).subrange(FRAME_HEADER_LEN as int, framed(data).len() as int) == data,
{
    lemma_pow256_values();
    lemma_be_bytes_len(data.len(), 4);
    lemma_be_value_of_bytes(data.len(), 4);
    assert(framed(data).subrange(0, 4) =~= be_bytes(data.len(), 4));
}

/// The PNG file of an image of `width` by `height` pixels of four bytes, or
/// nothing where the encoder refuses it.
pub uninterp spec fn png_encoded(width: u32, height: u32, pixels: Seq<u8>) -> Option<Seq<u8>>;

/// Width, height and pixels, four bytes each, of the image in the file
/// `file`, or nothing where the file is no image that is understood.
pub uninterp spec fn png_decoded(file: Seq<u8>) -> Option<(u32, u32, Seq<u8>)>;

/// `write_image` of `image::codecs::png::PngEncoder`, for pixels of red, green,
/// blue and alpha, into a buffer in memory. It is called only with as many
/// bytes as the image has, since it panics on any other number.
/// Claimed: the file is a function of the three arguments.
#[verifier::external_body]
pub(crate) fn png_encode(width: u32, height: u32, pixels: &[u8]) -> (r: Option<Vec<u8>>)
    requires
        width * height * BYTES_PER_PIXEL == pixels@.len(),
    ensures
        crate::primitives::bytes_of(r) == png_encoded(width, height, pixels@),
{
    let mut file: Vec<u8> = Vec::new();
    let encoder = image::codecs::png::PngEncoder::new(&mut file);
    match encoder.write_image(pixels, width, height, image::ColorType::Rgba8) {
        Ok(()) => Some(file),
        Err(_) => None,
    }
}

/// `image::load_from_memory`, then `to_rgba8` and the image's dimensions.
/// Claimed: the result is a function of the file.
#[verifier::external_body]
pub(crate) fn png_decode(file: &[u8]) -> (r: Option<(u32, u32, Vec<u8>)>)
    ensures
        match r {
            Some(image) => png_decoded(file@) == Some((image.0, image.1, image.2@)),
            None => png_decoded(file@) is None,
        },
{
    match image::load_from_memory(file) {
        Ok(picture) => Some((picture.width(), picture.height(), picture.to_rgba8().into_raw())),
        Err(_) => None,
    }
}

/// The PNG file of a clipboard image, or nothing where the dimensions do not
/// fit 32 bits, the pixels are not as many as the dimensions say, or the
/// encoder refuses the image.
pub open spec fn image_file(width: usize, height: usize, pixels: Seq<u8>) -> Option<Seq<u8>> {
    if width <= u32::MAX && height <= u32::MAX && width * height * BYTES_PER_PIXEL == pixels.len() {
        png_encoded(width as u32, height as u32, pixels)
    } else {
        None
    }
}

/// Compresses a clipboard image to a PNG file.
pub fn encode_to_png(width: usize, height: usize, raw: &[u8]) -> (r: Option<Vec<u8>>)
    ensures
        crate::primitives::bytes_of(r) == image_file(width, height, raw@),
{
    if width > u32::MAX as usize || height > u32::MAX as usize {
        return None;
    }
    proof {
        assert(width * height <= 0xFFFF_FFFF * 0xFFFF_FFFF) by (nonlinear_arith)
            requires
                0 <= width <= 0xFFFF_FFFF,
                0 <= height <= 0xFFFF_FFFF,
        ;
    }
    let area: u64 = width as u64 * height as u64;
    let size: usize = raw.len();
    if area > (u64::MAX / 4) || area * 4 != size as u64 {
        return None;
    }
    png_encode(width as u32, height as u32, raw)
}

} // verus!
