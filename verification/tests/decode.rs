use wad2::{export_name, get_entry_name, indexed_to_rgb, decode_indexed_image, EntryType,
    MipTexture, Palette, Rgb, WadError, WadFile};

fn name16(name: &[u8]) -> [u8; 16] {
    let mut n = [0u8; 16];
    n[..name.len()].copy_from_slice(name);
    n
}

fn gray_palette_block() -> Vec<u8> {
    let mut block = Vec::new();
    for k in 0..256u32 {
        let b = k as u8;
        block.extend_from_slice(&[b, b, b]);
    }
    block
}

fn shifted_palette() -> Palette {
    let mut block = Vec::new();
    for k in 0..256u32 {
        let b = k as u8;
        block.extend_from_slice(&[b, b.wrapping_add(1), b.wrapping_add(2)]);
    }
    Palette::from_data(&block)
}

/// A 40-byte mip record for an 8x8 texture, followed by its four pixel
/// buffers (64, 16, 4 and 1 bytes), level 0 filled with `fill`.
fn texture_bytes(name: &[u8], fill: u8) -> Vec<u8> {
    let mut buf = Vec::new();
    buf.extend_from_slice(&name16(name));
    buf.extend_from_slice(&8u32.to_le_bytes());
    buf.extend_from_slice(&8u32.to_le_bytes());
    buf.extend_from_slice(&40u32.to_le_bytes());
    buf.extend_from_slice(&104u32.to_le_bytes());
    buf.extend_from_slice(&120u32.to_le_bytes());
    buf.extend_from_slice(&124u32.to_le_bytes());
    for _ in 0..64 {
        buf.push(fill);
    }
    for _ in 0..16 {
        buf.push(0);
    }
    for _ in 0..4 {
        buf.push(0);
    }
    buf.push(0);
    buf
}

#[test]
fn palette_roundtrip_gray() {
    let block = gray_palette_block();
    let pal = Palette::from_data(&block);
    assert_eq!(pal.len(), 256);
    for i in 0..=255u8 {
        assert_eq!(pal.index(i), Rgb { r: i, g: i, b: i });
    }
    assert_eq!(pal.to_image(), block);
}

#[test]
fn decoder_fills_with_palette_color() {
    let pal = shifted_palette();
    let image = vec![0u8; 1024];
    let rgb = decode_indexed_image(&image, 32, 32, &pal).unwrap();
    assert_eq!(rgb.len(), 3072);
    for i in 0..1024 {
        assert_eq!(rgb[3 * i], 0);
        assert_eq!(rgb[3 * i + 1], 1);
        assert_eq!(rgb[3 * i + 2], 2);
    }
}

#[test]
fn decoder_detects_pixel_count_mismatch() {
    let pal = shifted_palette();
    let image = vec![0u8; 1023];
    assert!(matches!(
        decode_indexed_image(&image, 32, 32, &pal),
        Err(WadError::PixelCountMismatch)
    ));
}

#[test]
fn indexed_to_rgb_is_pointwise() {
    let pal = shifted_palette();
    let image = [0u8, 1, 255];
    let rgb = indexed_to_rgb(&image, &pal);
    assert_eq!(rgb.len(), 3);
    assert_eq!(rgb[0], Rgb { r: 0, g: 1, b: 2 });
    assert_eq!(rgb[1], Rgb { r: 1, g: 2, b: 3 });
    assert_eq!(rgb[2], Rgb { r: 255, g: 0, b: 1 });
}

#[test]
fn star_name_exports_as_hash() {
    let raw = name16(b"*lava");
    assert_eq!(export_name(&raw), "#lava");
    assert_eq!(get_entry_name(&raw), "*lava");
}

#[test]
fn name_stops_at_first_zero() {
    let mut raw = name16(b"ab");
    raw[3] = b'c';
    raw[4] = b'd';
    assert_eq!(get_entry_name(&raw), "ab");
    assert_eq!(export_name(&raw), "ab");
}

#[test]
fn name_bytes_above_ascii_are_kept() {
    let mut raw = [0u8; 16];
    raw[0] = 0xe9;
    let s = get_entry_name(&raw);
    let mut chars = s.chars();
    assert_eq!(chars.next().map(|c| c as u32), Some(0xe9));
    assert_eq!(chars.next(), None);
}

#[test]
fn mip_read_parses_record_and_level0() {
    let buf = texture_bytes(b"brick", 7);
    let t = MipTexture::read(&buf, 0).unwrap();
    assert_eq!(&t.name[..5], b"brick");
    assert_eq!(t.width, 8);
    assert_eq!(t.height, 8);
    assert_eq!(t.offset1, 40);
    assert_eq!(t.offset2, 104);
    assert_eq!(t.offset4, 120);
    assert_eq!(t.offset8, 124);
    assert_eq!(t.image1, vec![7u8; 64]);
    assert_eq!(t.name(), "brick");
}

#[test]
fn mip_read_rejects_truncated_record() {
    let buf = texture_bytes(b"brick", 7);
    assert!(matches!(MipTexture::read(&buf[..30], 0), Err(WadError::TruncatedPixelData)));
    assert!(matches!(MipTexture::read(&buf, 100), Err(WadError::TruncatedPixelData)));
}

#[test]
fn mip_read_rejects_bad_dimensions() {
    // Zero width.
    let mut buf = texture_bytes(b"brick", 7);
    buf[16..20].copy_from_slice(&0u32.to_le_bytes());
    assert!(matches!(MipTexture::read(&buf, 0), Err(WadError::InvalidTextureDimensions)));
    // Width that is not a multiple of 8.
    let mut buf = texture_bytes(b"brick", 7);
    buf[16..20].copy_from_slice(&12u32.to_le_bytes());
    assert!(matches!(MipTexture::read(&buf, 0), Err(WadError::InvalidTextureDimensions)));
}

#[test]
fn mip_read_rejects_out_of_bounds_pixels() {
    // Level 0 pixels pushed past the end of the buffer.
    let mut buf = texture_bytes(b"brick", 7);
    buf[24..28].copy_from_slice(&200u32.to_le_bytes());
    assert!(matches!(MipTexture::read(&buf, 0), Err(WadError::TruncatedPixelData)));
    // Level 3 out of bounds is rejected too, though it is not exported.
    let mut buf = texture_bytes(b"brick", 7);
    buf[36..40].copy_from_slice(&5000u32.to_le_bytes());
    assert!(matches!(MipTexture::read(&buf, 0), Err(WadError::TruncatedPixelData)));
}

#[test]
fn mip_to_rgb_image_maps_each_pixel() {
    let mut buf = texture_bytes(b"brick", 0);
    // Give the first three level-0 pixels distinct palette indices.
    buf[40] = 3;
    buf[41] = 200;
    let t = MipTexture::read(&buf, 0).unwrap();
    let pal = shifted_palette();
    let rgb = t.to_rgb_image(&pal);
    assert_eq!(rgb.len(), 192);
    assert_eq!(&rgb[0..3], &[3, 4, 5]);
    assert_eq!(&rgb[3..6], &[200, 201, 202]);
    assert_eq!(&rgb[6..9], &[0, 1, 2]);
}

#[test]
fn decode_texture_end_to_end() {
    // Header, palette entry, texture entry "*fire", palette block,
    // texture record with its four pixel buffers.
    let mut buf = Vec::new();
    buf.extend_from_slice(&0x32444157u32.to_le_bytes());
    buf.extend_from_slice(&2u32.to_le_bytes());
    buf.extend_from_slice(&12u32.to_le_bytes());
    // Palette entry: payload [76, 844).
    buf.extend_from_slice(&76u32.to_le_bytes());
    buf.extend_from_slice(&768u32.to_le_bytes());
    buf.extend_from_slice(&768u32.to_le_bytes());
    buf.extend_from_slice(&[0x40, 0, 0, 0]);
    buf.extend_from_slice(&name16(b"palette"));
    // Texture entry: payload [844, 969).
    buf.extend_from_slice(&844u32.to_le_bytes());
    buf.extend_from_slice(&125u32.to_le_bytes());
    buf.extend_from_slice(&125u32.to_le_bytes());
    buf.extend_from_slice(&[0x44, 0, 0, 0]);
    buf.extend_from_slice(&name16(b"*fire"));
    buf.extend_from_slice(&gray_palette_block());
    buf.extend_from_slice(&texture_bytes(b"*fire", 9));
    assert_eq!(buf.len(), 969);

    let wad = WadFile::new(buf);
    let pal = wad.get_palette().unwrap().unwrap();
    let entries = wad.enumerate_entries().unwrap();
    assert_eq!(entries.len(), 2);
    assert_eq!(entries[1].entry_type, EntryType::MipTexture);
    let d = wad.decode_texture(&entries[1], &pal).unwrap();
    assert_eq!(d.name, "#fire");
    assert_eq!(d.width, 8);
    assert_eq!(d.height, 8);
    assert_eq!(d.rgb, vec![9u8; 192]);
}

#[test]
fn decode_texture_skips_only_the_bad_entry() {
    // One broken texture entry does not poison the walk: the caller can
    // go on and decode the good one.
    let mut buf = Vec::new();
    buf.extend_from_slice(&0x32444157u32.to_le_bytes());
    buf.extend_from_slice(&3u32.to_le_bytes());
    buf.extend_from_slice(&12u32.to_le_bytes());
    // Palette entry: payload [108, 876).
    buf.extend_from_slice(&108u32.to_le_bytes());
    buf.extend_from_slice(&768u32.to_le_bytes());
    buf.extend_from_slice(&768u32.to_le_bytes());
    buf.extend_from_slice(&[0x40, 0, 0, 0]);
    buf.extend_from_slice(&name16(b"palette"));
    // Broken texture entry: record would start at the last byte.
    buf.extend_from_slice(&1000u32.to_le_bytes());
    buf.extend_from_slice(&1u32.to_le_bytes());
    buf.extend_from_slice(&1u32.to_le_bytes());
    buf.extend_from_slice(&[0x44, 0, 0, 0]);
    buf.extend_from_slice(&name16(b"bad"));
    // Good texture entry: payload [876, 1001).
    buf.extend_from_slice(&876u32.to_le_bytes());
    buf.extend_from_slice(&125u32.to_le_bytes());
    buf.extend_from_slice(&125u32.to_le_bytes());
    buf.extend_from_slice(&[0x44, 0, 0, 0]);
    buf.extend_from_slice(&name16(b"good"));
    buf.extend_from_slice(&gray_palette_block());
    buf.extend_from_slice(&texture_bytes(b"good", 1));
    assert_eq!(buf.len(), 1001);

    let wad = WadFile::new(buf);
    let pal = wad.get_palette().unwrap().unwrap();
    let entries = wad.enumerate_entries().unwrap();
    assert!(matches!(
        wad.decode_texture(&entries[1], &pal),
        Err(WadError::TruncatedPixelData)
    ));
    let d = wad.decode_texture(&entries[2], &pal).unwrap();
    assert_eq!(d.name, "good");
    assert_eq!(d.rgb, vec![1u8; 192]);
}
