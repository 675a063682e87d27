use vstd::prelude::*;

verus! {

/// Mathematical model of a three-channel, 8-bit image: its dimensions
/// and its pixel bytes in row-major order, three bytes per pixel
/// (red, green, blue), with no alpha channel.
pub struct ImageModel {
    pub width: u32,
    pub height: u32,
    pub pixels: Seq<u8>,
}

impl ImageModel {
    /// The pixel sequence holds exactly three bytes for every pixel.
    pub open spec fn wf(&self) -> bool {
        self.pixels.len() == 3 * (self.width as int) * (self.height as int)
    }
}

/// A three-channel, 8-bit image held as plain values: the form every
/// decoded input is normalized into before it is blurred and encoded.
pub struct RgbImageData {
    pub width: u32,
    pub height: u32,
    pub pixels: Vec<u8>,
}

impl View for RgbImageData {
    type V = ImageModel;

    open spec fn view(&self) -> ImageModel {
        ImageModel { width: self.width, height: self.height, pixels: self.pixels@ }
    }
}

impl RgbImageData {
    /// The buffer length matches the dimensions: three bytes per pixel.
    pub open spec fn wf(&self) -> bool {
        self@.wf()
    }
}

} // verus!
