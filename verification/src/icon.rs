//! Placeholder application icon: a structurally valid single-frame icon
//! container holding one fully transparent 1x1 pixel.
//!
//! The payload is fixed: a 6-byte container header, a 16-byte directory
//! entry, a 40-byte bitmap-info header, 4 bytes of pixel color data and
//! 4 bytes of opacity-mask data, 70 bytes in all. Provisioning is
//! best-effort and never overwrites an existing icon file: the caller
//! reports whether a file is already present at the icon path, and the
//! payload is produced only when none is.

use vstd::prelude::*;

verus! {

/// Container header (ICONDIR): reserved word, image type 1 (icon),
/// image count 1.
pub open spec fn icon_dir_header() -> Seq<u8> {
    seq![0x00u8, 0x00, 0x01, 0x00, 0x01, 0x00]
}

/// Directory entry (ICONDIRENTRY) for the single frame: width 1, height 1,
/// no palette, 1 color plane, 32 bits per pixel, 48 bytes of bitmap data
/// starting at offset 22.
pub open spec fn icon_dir_entry() -> Seq<u8> {
    seq![
        0x01u8, 0x01, 0x00, 0x00,
        0x01, 0x00,
        0x20, 0x00,
        0x30, 0x00, 0x00, 0x00,
        0x16, 0x00, 0x00, 0x00,
    ]
}

/// Bitmap-info header (BITMAPINFOHEADER, 40 bytes): width 1, height 2
/// (the image row plus the implicit opacity-mask row), 1 plane, 32 bits
/// per pixel, no compression, remaining fields zero.
pub open spec fn icon_bitmap_header() -> Seq<u8> {
    seq![
        0x28u8, 0x00, 0x00, 0x00,
        0x01, 0x00, 0x00, 0x00,
        0x02, 0x00, 0x00, 0x00,
        0x01, 0x00,
        0x20, 0x00,
        0x00, 0x00, 0x00, 0x00,
        0x00, 0x00, 0x00, 0x00,
        0x00, 0x00, 0x00, 0x00,
        0x00, 0x00, 0x00, 0x00,
        0x00, 0x00, 0x00, 0x00,
        0x00, 0x00, 0x00, 0x00,
    ]
}

/// Color data for the single pixel: fully transparent, all channels zero.
pub open spec fn icon_pixel_data() -> Seq<u8> {
    seq![0x00u8, 0x00, 0x00, 0x00]
}

/// Opacity mask for the single pixel, padded to 32 bits: all zero.
pub open spec fn icon_mask_data() -> Seq<u8> {
    seq![0x00u8, 0x00, 0x00, 0x00]
}

/// The whole placeholder payload: header, entry, bitmap header, pixel
/// color data, opacity mask, in that order.
pub open spec fn icon_payload() -> Seq<u8> {
    icon_dir_header() + icon_dir_entry() + icon_bitmap_header() + icon_pixel_data()
        + icon_mask_data()
}

/// The payload is exactly 70 bytes and opens with the 6-byte container
/// header.
pub proof fn icon_payload_shape()
    ensures
        icon_payload().len() == 70,
        icon_payload().subrange(0, 6) == icon_dir_header(),
{
    assert(icon_payload().subrange(0, 6) =~= icon_dir_header());
}

/// The directory entry's declared layout agrees with the payload itself:
/// the bitmap data is declared to start at offset 22, which is exactly
/// the length of the container header plus the entry, and to be 48 bytes
/// long, which is exactly the bitmap-info header, pixel color data and
/// opacity mask that follow it to the end of the payload.
pub proof fn icon_payload_consistent()
    ensures
        icon_dir_header().len() + icon_dir_entry().len() == 22,
        icon_dir_entry()[12] == 0x16u8,
        icon_bitmap_header().len() + icon_pixel_data().len() + icon_mask_data().len() == 48,
        icon_dir_entry()[8] == 0x30u8,
        icon_payload().subrange(22, 70) == icon_bitmap_header() + icon_pixel_data()
            + icon_mask_data(),
{
    assert(icon_payload().subrange(22, 70) =~= icon_bitmap_header() + icon_pixel_data()
        + icon_mask_data());
}

/// The placeholder icon payload as bytes ready to be written to disk.
pub fn icon_bytes() -> (r: Vec<u8>)
    ensures
        r@ == icon_payload(),
{
    let r: Vec<u8> = vec![
        0x00, 0x00, 0x01, 0x00, 0x01, 0x00,
        0x01, 0x01, 0x00, 0x00, 0x01, 0x00, 0x20, 0x00,
        0x30, 0x00, 0x00, 0x00, 0x16, 0x00, 0x00, 0x00,
        0x28, 0x00, 0x00, 0x00, 0x01, 0x00, 0x00, 0x00,
        0x02, 0x00, 0x00, 0x00, 0x01, 0x00, 0x20, 0x00,
        0x00, 0x00, 0x00, 0x00, 0x00, 0x00, 0x00, 0x00,
        0x00, 0x00, 0x00, 0x00, 0x00, 0x00, 0x00, 0x00,
        0x00, 0x00, 0x00, 0x00, 0x00, 0x00, 0x00, 0x00,
        0x00, 0x00, 0x00, 0x00,
        0x00, 0x00, 0x00, 0x00,
    ];
    assert(r@ =~= icon_payload());
    r
}

/// Directory under the project root that holds the icon assets.
pub fn icon_dir_name() -> (r: &'static str)
    ensures
        r@ == "icons"@,
{
    "icons"
}

/// File name of the default icon asset inside the icon directory.
pub fn icon_file_name() -> (r: &'static str)
    ensures
        r@ == "icon.ico"@,
{
    "icon.ico"
}

/// Decide the provisioning action. The caller reports whether a file
/// already exists at the icon path; the placeholder payload is produced
/// exactly when none does, so an existing icon is never overwritten, its
/// bytes and length untouched. Writing the payload, like every failure
/// along the way, is the caller's best-effort concern.
pub fn provision_payload(already_exists: bool) -> (r: Option<Vec<u8>>)
    ensures
        r is Some <==> !already_exists,
        r matches Some(v) ==> v@ == icon_payload(),
{
    if already_exists {
        None
    } else {
        Some(icon_bytes())
    }
}

} // verus!
