use vstd::prelude::*;

verus! {

/// A pixel position, in pixels from the top-left corner.
#[derive(Clone, Copy, Debug, PartialEq, Eq, Structural)]
pub struct Position {
    pub x: usize,
    pub y: usize,
}

/// A colour, one byte per channel.
#[derive(Clone, Copy, Debug, PartialEq, Eq, Structural)]
pub struct Color {
    pub red: u8,
    pub green: u8,
    pub blue: u8,
}

/// A coloured position.
#[derive(Clone, Copy, Debug, PartialEq, Eq, Structural)]
pub struct Pixel {
    pub position: Position,
    pub color: Color,
}

/// How a pixel's bytes are laid out in the frame buffer.
#[derive(Clone, Copy, Debug, PartialEq, Eq, Structural)]
pub enum PixelFormat {
    Rgb,
    Bgr,
    /// One grey byte per pixel.
    U8,
    /// A layout this code does not draw.
    Unknown,
}

/// The geometry of a linear frame buffer.
#[derive(Clone, Copy, Debug, PartialEq, Eq, Structural)]
pub struct FrameBufferInfo {
    pub byte_len: usize,
    pub pixel_format: PixelFormat,
    pub bytes_per_pixel: usize,
    /// Pixels per line in memory, at least the visible width.
    pub stride: usize,
}

/// The bytes to store at `offset` in the frame buffer to colour one pixel.
#[derive(Debug)]
pub struct PixelWrite {
    pub offset: usize,
    pub bytes: Vec<u8>,
}

/// The bytes of a colour in a pixel format: red, blue, green for `Rgb`;
/// blue, green, red for `Bgr`; the mean of the three for `U8`.
pub open spec fn color_bytes(format: PixelFormat, c: Color) -> Seq<u8> {
    match format {
        PixelFormat::Rgb => seq![c.red, c.blue, c.green],
        PixelFormat::Bgr => seq![c.blue, c.green, c.red],
        PixelFormat::U8 => seq![((c.red + c.green + c.blue) / 3) as u8],
        PixelFormat::Unknown => Seq::empty(),
    }
}

/// Byte offset of a position: the pixel index times the pixel size.
pub open spec fn pixel_offset(info: FrameBufferInfo, p: Position) -> int {
    (p.y * info.stride + p.x) * info.bytes_per_pixel
}

/// Where and what to write to colour the pixel at `position`; none when the
/// format is unknown or the pixel's bytes would fall outside the buffer.
pub fn pixel_write(info: &FrameBufferInfo, position: Position, color: Color) -> (r: Option<
    PixelWrite,
>)
    ensures
        r is Some <==> info.pixel_format != PixelFormat::Unknown && pixel_offset(*info, position)
            + color_bytes(info.pixel_format, color).len() <= info.byte_len,
        r matches Some(w) ==> w.offset == pixel_offset(*info, position) && w.bytes@
            == color_bytes(info.pixel_format, color),
{
    let mut bytes: Vec<u8> = Vec::new();
    match info.pixel_format {
        PixelFormat::Rgb => {
            bytes.push(color.red);
            bytes.push(color.blue);
            bytes.push(color.green);
        },
        PixelFormat::Bgr => {
            bytes.push(color.blue);
            bytes.push(color.green);
            bytes.push(color.red);
        },
        PixelFormat::U8 => {
            let sum: u16 = color.red as u16 + color.green as u16 + color.blue as u16;
            bytes.push((sum / 3) as u8);
        },
        PixelFormat::Unknown => {
            return None;
        },
    }
    proof {
        assert(bytes@ =~= color_bytes(info.pixel_format, color));
    }
    let bpp = info.bytes_per_pixel;
    let ghost full = pixel_offset(*info, position);
    let offset: usize = if bpp == 0 {
        0
    } else {
        let line = match position.y.checked_mul(info.stride) {
            Some(v) => v,
            None => {
                proof {
                    lemma_offset_at_least(position.y * info.stride, position.x as int, bpp as int);
                }
                return None;
            },
        };
        let index = match line.checked_add(position.x) {
            Some(v) => v,
            None => {
                proof {
                    lemma_offset_at_least(position.y * info.stride, position.x as int, bpp as int);
                }
                return None;
            },
        };
        match index.checked_mul(bpp) {
            Some(v) => v,
            None => {
                return None;
            },
        }
    };
    proof {
        if bpp == 0 {
            assert(full == 0) by (nonlinear_arith)
                requires
                    full == (position.y * info.stride + position.x) * bpp,
                    bpp == 0,
            ;
        }
    }
    if offset > info.byte_len || info.byte_len - offset < bytes.len() {
        return None;
    }
    Some(PixelWrite { offset, bytes })
}

proof fn lemma_offset_at_least(line: int, x: int, bpp: int)
    requires
        line >= 0,
        x >= 0,
        bpp >= 1,
    ensures
        (line + x) * bpp >= line + x,
{
    assert((line + x) * bpp >= line + x) by (nonlinear_arith)
        requires
            line + x >= 0,
            bpp >= 1,
    ;
}

} // verus!
