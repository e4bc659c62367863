//! Textures embedded in a model file.

use vstd::prelude::*;
use crate::util::{RawSlice, ptr_to_slice};

verus! {

/// One pixel of an uncompressed texture, in ARGB8888 order of channels.
#[derive(Clone, Copy, Debug, PartialEq, Eq, Structural)]
pub struct Texel {
    /// Blue.
    pub b: u8,
    /// Green.
    pub g: u8,
    /// Red.
    pub r: u8,
    /// Alpha.
    pub a: u8,
}

/// A texture embedded in a model file.
#[derive(Clone, Copy, Debug)]
pub struct Texture {
    /// The width in texels, or, for a compressed texture, its size in bytes.
    pub width: u32,
    /// The height in texels, or 0 for a compressed texture.
    pub height: u32,
    /// The file extension of a compressed texture's format, zero-padded.
    pub format_hint: [u8; 4],
    /// The address of the texture data.
    pub pc_data: usize,
}

/// The data of an embedded texture.
#[derive(Clone, Copy, Debug, PartialEq, Eq, Structural)]
pub enum TextureData {
    /// Compressed data in a file format such as PNG.
    Encoded {
        /// The length of the data in bytes.
        len: u32,
        /// The bytes of the data.
        data: RawSlice,
    },
    /// Uncompressed texels.
    Decoded {
        /// The width in texels.
        width: u32,
        /// The height in texels.
        height: u32,
        /// The texels, row by row.
        data: RawSlice,
    },
}

impl Texture {
    /// The data of the texture: compressed where the height is 0, else
    /// `width * height` texels.
    pub fn get_texture_data(&self) -> (r: TextureData)
        requires
            self.width * self.height <= usize::MAX,
        ensures
            self.height == 0 ==> r == (TextureData::Encoded {
                len: self.width,
                data: RawSlice { addr: if self.width == 0 { 0 } else { self.pc_data }, len: self.width as usize },
            }),
            self.height != 0 ==> r == (TextureData::Decoded {
                width: self.width,
                height: self.height,
                data: RawSlice {
                    addr: if self.width == 0 { 0 } else { self.pc_data },
                    len: (self.width * self.height) as usize,
                },
            }),
    {
        if self.height == 0 {
            TextureData::Encoded { len: self.width, data: ptr_to_slice(self.pc_data, self.width) }
        } else {
            let len: usize = (self.width as usize) * (self.height as usize);
            let addr: usize = if len == 0 { 0 } else { self.pc_data };
            proof {
                assert(len == 0 <==> self.width == 0) by (nonlinear_arith)
                    requires
                        len == self.width * self.height,
                        self.height != 0,
                ;
            }
            TextureData::Decoded {
                width: self.width,
                height: self.height,
                data: RawSlice { addr, len },
            }
        }
    }
}

} // verus!
