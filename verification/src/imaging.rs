//! The pure side of the image tools: parameter types, validation, preset
//! tables, watermark placement and batch output-path planning.  Decoding,
//! transforming and saving pixels is the image backend's work and happens
//! outside; everything that can be computed from plain values is here.

use vstd::prelude::*;
use crate::handler::u64_to_string;
use crate::strutil::{has_char, last_index, rfind_char};

verus! {

/// An image-tool error: a message and a machine-readable kind.
pub struct ImageError {
    pub message: String,
    pub error_type: String,
}

/// Information about an image file.
pub struct ImageInfo {
    pub path: String,
    pub filename: String,
    pub width: u32,
    pub height: u32,
    pub format: String,
    pub file_size: u64,
    pub color_space: String,
    pub has_alpha: bool,
}

/// A rectangular crop region.
pub struct CropParams {
    pub x: u32,
    pub y: u32,
    pub width: u32,
    pub height: u32,
}

/// Which axes to mirror.
pub struct FlipParams {
    pub horizontal: bool,
    pub vertical: bool,
}

/// A rotation by a quarter-turn multiple (0, 90, 180 or 270 degrees).
pub struct RotateParams {
    pub angle: u32,
}

/// The interpolation filter a resize uses.
#[derive(Clone, Copy, PartialEq, Eq, Structural)]
pub enum ResizeType {
    Nearest,
    Triangle,
    CatmullRom,
    Gaussian,
    Lanczos3,
}

/// A named common output size.
pub struct PresetSize {
    pub name: String,
    pub width: u32,
    pub height: u32,
}

/// A grid collage: the images, the grid shape, the gap and background, and
/// an optional fixed output width.
pub struct CollageParams {
    pub image_paths: Vec<String>,
    pub rows: u32,
    pub columns: u32,
    pub gap: u32,
    pub background_color: (u8, u8, u8),
    pub output_width: Option<u32>,
}

/// A named common collage layout.
pub struct PresetCollage {
    pub name: String,
    pub rows: u32,
    pub columns: u32,
    pub description: String,
}

/// The format an export writes.
#[derive(Clone, Copy, PartialEq, Eq, Structural)]
pub enum ExportFormat {
    Jpeg,
    Png,
    WebP,
    Bmp,
}

/// How an export is written: format, quality and destination.
pub struct ExportOptions {
    pub format: ExportFormat,
    pub quality: u8,
    pub output_path: String,
}

/// A point of a mosaic brush stroke.
pub struct MosaicPoint {
    pub x: u32,
    pub y: u32,
}

/// A region a mosaic is applied to.
pub enum MosaicRegion {
    Rect { x: u32, y: u32, width: u32, height: u32 },
    Ellipse { x: u32, y: u32, width: u32, height: u32 },
    Brush { points: Vec<MosaicPoint> },
}

/// The regions and block size of a mosaic pass.
pub struct MosaicParams {
    pub regions: Vec<MosaicRegion>,
    pub block_size: u32,
}

/// What kind of watermark is applied.
#[derive(Clone, Copy, PartialEq, Eq, Structural)]
pub enum WatermarkType {
    Text,
    Image,
}

/// Where a watermark is placed: one of the nine grid anchors, or custom
/// coordinates.
#[derive(Clone, Copy, PartialEq, Eq, Structural)]
pub enum WatermarkPosition {
    TopLeft,
    TopCenter,
    TopRight,
    CenterLeft,
    Center,
    CenterRight,
    BottomLeft,
    BottomCenter,
    BottomRight,
    Custom,
}

/// `a - b`, stopping at zero.
pub open spec fn sat_sub(a: int, b: int) -> int {
    if a >= b {
        a - b
    } else {
        0
    }
}

/// Where a watermark of the given size lands on the base image: anchored
/// with a ten-pixel padding, centered by halving the leftover space, and
/// custom coordinates taken as given (zero when absent).
pub open spec fn spec_calculate_position(
    base_w: int,
    base_h: int,
    wm_w: int,
    wm_h: int,
    position: WatermarkPosition,
    custom_x: Option<u32>,
    custom_y: Option<u32>,
) -> (int, int) {
    let pad = 10;
    match position {
        WatermarkPosition::TopLeft => (pad, pad),
        WatermarkPosition::TopCenter => (sat_sub(base_w, wm_w) / 2, pad),
        WatermarkPosition::TopRight => (sat_sub(base_w, wm_w + pad), pad),
        WatermarkPosition::CenterLeft => (pad, sat_sub(base_h, wm_h) / 2),
        WatermarkPosition::Center => (sat_sub(base_w, wm_w) / 2, sat_sub(base_h, wm_h) / 2),
        WatermarkPosition::CenterRight => (sat_sub(base_w, wm_w + pad), sat_sub(base_h, wm_h) / 2),
        WatermarkPosition::BottomLeft => (pad, sat_sub(base_h, wm_h + pad)),
        WatermarkPosition::BottomCenter => (sat_sub(base_w, wm_w) / 2, sat_sub(base_h, wm_h + pad)),
        WatermarkPosition::BottomRight => (sat_sub(base_w, wm_w + pad), sat_sub(
            base_h,
            wm_h + pad,
        )),
        WatermarkPosition::Custom => (
            (match custom_x {
                Some(x) => x as int,
                None => 0,
            }),
            (match custom_y {
                Some(y) => y as int,
                None => 0,
            }),
        ),
    }
}

/// `a - b` on machine integers, stopping at zero.
fn sat_sub_u32(a: u32, b: u32) -> (r: u32)
    ensures
        r as int == sat_sub(a as int, b as int),
{
    if a >= b {
        a - b
    } else {
        0
    }
}

/// Compute where a watermark lands on the base image.
pub fn calculate_position(
    base_width: u32,
    base_height: u32,
    wm_width: u32,
    wm_height: u32,
    position: &WatermarkPosition,
    custom_x: Option<u32>,
    custom_y: Option<u32>,
) -> (r: (u32, u32))
    ensures
        (r.0 as int, r.1 as int) == spec_calculate_position(
            base_width as int,
            base_height as int,
            wm_width as int,
            wm_height as int,
            *position,
            custom_x,
            custom_y,
        ),
{
    let padding: u32 = 10;
    match position {
        WatermarkPosition::TopLeft => (padding, padding),
        WatermarkPosition::TopCenter => (sat_sub_u32(base_width, wm_width) / 2, padding),
        WatermarkPosition::TopRight => {
            let x = if wm_width <= u32::MAX - padding {
                sat_sub_u32(base_width, wm_width + padding)
            } else {
                0
            };
            (x, padding)
        },
        WatermarkPosition::CenterLeft => (padding, sat_sub_u32(base_height, wm_height) / 2),
        WatermarkPosition::Center => (
            sat_sub_u32(base_width, wm_width) / 2,
            sat_sub_u32(base_height, wm_height) / 2,
        ),
        WatermarkPosition::CenterRight => {
            let x = if wm_width <= u32::MAX - padding {
                sat_sub_u32(base_width, wm_width + padding)
            } else {
                0
            };
            (x, sat_sub_u32(base_height, wm_height) / 2)
        },
        WatermarkPosition::BottomLeft => {
            let y = if wm_height <= u32::MAX - padding {
                sat_sub_u32(base_height, wm_height + padding)
            } else {
                0
            };
            (padding, y)
        },
        WatermarkPosition::BottomCenter => {
            let y = if wm_height <= u32::MAX - padding {
                sat_sub_u32(base_height, wm_height + padding)
            } else {
                0
            };
            (sat_sub_u32(base_width, wm_width) / 2, y)
        },
        WatermarkPosition::BottomRight => {
            let x = if wm_width <= u32::MAX - padding {
                sat_sub_u32(base_width, wm_width + padding)
            } else {
                0
            };
            let y = if wm_height <= u32::MAX - padding {
                sat_sub_u32(base_height, wm_height + padding)
            } else {
                0
            };
            (x, y)
        },
        WatermarkPosition::Custom => {
            let x = match custom_x {
                Some(x) => x,
                None => 0,
            };
            let y = match custom_y {
                Some(y) => y,
                None => 0,
            };
            (x, y)
        },
    }
}

/// The preset size table: name, width, height.
pub open spec fn spec_preset_sizes() -> Seq<(Seq<char>, u32, u32)> {
    seq![
        ("4K"@, 3840u32, 2160u32),
        ("1080p (FHD)"@, 1920u32, 1080u32),
        ("720p (HD)"@, 1280u32, 720u32),
        ("480p"@, 854u32, 480u32),
        ("Instagram Square"@, 1080u32, 1080u32),
        ("Instagram Portrait"@, 1080u32, 1350u32),
        ("Instagram Landscape"@, 1080u32, 608u32),
        ("微信头像"@, 300u32, 300u32),
        ("微信朋友圈"@, 1280u32, 1280u32),
        ("Twitter Header"@, 1500u32, 500u32),
        ("Facebook Cover"@, 820u32, 312u32),
    ]
}

/// The common preset sizes, exactly the table above.
pub fn get_preset_sizes() -> (r: Vec<PresetSize>)
    ensures
        r@.len() == spec_preset_sizes().len(),
        forall|i: int|
            0 <= i < r@.len() ==> (r@[i].name@, r@[i].width, r@[i].height)
                == spec_preset_sizes()[i],
{
    let mut v: Vec<PresetSize> = Vec::new();
    v.push(PresetSize { name: "4K".to_owned(), width: 3840, height: 2160 });
    v.push(PresetSize { name: "1080p (FHD)".to_owned(), width: 1920, height: 1080 });
    v.push(PresetSize { name: "720p (HD)".to_owned(), width: 1280, height: 720 });
    v.push(PresetSize { name: "480p".to_owned(), width: 854, height: 480 });
    v.push(PresetSize { name: "Instagram Square".to_owned(), width: 1080, height: 1080 });
    v.push(PresetSize { name: "Instagram Portrait".to_owned(), width: 1080, height: 1350 });
    v.push(PresetSize { name: "Instagram Landscape".to_owned(), width: 1080, height: 608 });
    v.push(PresetSize { name: "微信头像".to_owned(), width: 300, height: 300 });
    v.push(PresetSize { name: "微信朋友圈".to_owned(), width: 1280, height: 1280 });
    v.push(PresetSize { name: "Twitter Header".to_owned(), width: 1500, height: 500 });
    v.push(PresetSize { name: "Facebook Cover".to_owned(), width: 820, height: 312 });
    v
}

/// The preset collage table: name, rows, columns, description.
pub open spec fn spec_preset_collages() -> Seq<(Seq<char>, u32, u32, Seq<char>)> {
    seq![
        ("2x2 拼图"@, 2u32, 2u32, "4张图片，2行2列"@),
        ("3x3 拼图"@, 3u32, 3u32, "9张图片，3行3列"@),
        ("4x4 拼图"@, 4u32, 4u32, "16张图片，4行4列"@),
        ("1x3 横条"@, 1u32, 3u32, "3张图片，1行3列"@),
        ("3x1 竖条"@, 3u32, 1u32, "3张图片，3行1列"@),
    ]
}

/// The common collage layouts, exactly the table above.
pub fn get_preset_collages() -> (r: Vec<PresetCollage>)
    ensures
        r@.len() == spec_preset_collages().len(),
        forall|i: int|
            0 <= i < r@.len() ==> (r@[i].name@, r@[i].rows, r@[i].columns, r@[i].description@)
                == spec_preset_collages()[i],
{
    let mut v: Vec<PresetCollage> = Vec::new();
    v.push(
        PresetCollage {
            name: "2x2 拼图".to_owned(),
            rows: 2,
            columns: 2,
            description: "4张图片，2行2列".to_owned(),
        },
    );
    v.push(
        PresetCollage {
            name: "3x3 拼图".to_owned(),
            rows: 3,
            columns: 3,
            description: "9张图片，3行3列".to_owned(),
        },
    );
    v.push(
        PresetCollage {
            name: "4x4 拼图".to_owned(),
            rows: 4,
            columns: 4,
            description: "16张图片，4行4列".to_owned(),
        },
    );
    v.push(
        PresetCollage {
            name: "1x3 横条".to_owned(),
            rows: 1,
            columns: 3,
            description: "3张图片，1行3列".to_owned(),
        },
    );
    v.push(
        PresetCollage {
            name: "3x1 竖条".to_owned(),
            rows: 3,
            columns: 1,
            description: "3张图片，3行1列".to_owned(),
        },
    );
    v
}

/// Validate a collage's grid: the path list must be non-empty, the grid
/// must have rows and columns, and the image count must equal the cell
/// count.
pub fn validate_collage_params(params: &CollageParams) -> (r: Result<(), ImageError>)
    ensures
        r is Ok <==> params.image_paths@.len() > 0 && params.rows > 0 && params.columns > 0
            && params.image_paths@.len() == (params.rows as int) * (params.columns as int),
        r is Err ==> r.unwrap_err().error_type@ == "ValidationError"@,
{
    if params.image_paths.len() == 0 {
        return Err(
            ImageError {
                message: "图片路径列表不能为空".to_owned(),
                error_type: "ValidationError".to_owned(),
            },
        );
    }
    if params.rows == 0 || params.columns == 0 {
        return Err(
            ImageError {
                message: "行数和列数必须大于0".to_owned(),
                error_type: "ValidationError".to_owned(),
            },
        );
    }
    proof {
        vstd::arithmetic::mul::lemma_mul_upper_bound(
            params.rows as int,
            0xffffffff,
            params.columns as int,
            0xffffffff,
        );
    }
    let expected: u64 = (params.rows as u64) * (params.columns as u64);
    let actual: u64 = params.image_paths.len() as u64;
    if actual != expected {
        let mut msg = "图片数量不匹配: 期望 ".to_owned();
        msg.append(u64_to_string(expected).as_str());
        msg.append(" 张，实际 ");
        msg.append(u64_to_string(actual).as_str());
        msg.append(" 张");
        return Err(ImageError { message: msg, error_type: "ValidationError".to_owned() });
    }
    Ok(())
}

/// The final path component: everything after the last slash, the whole
/// path when there is none.
pub open spec fn spec_file_name(p: Seq<char>) -> Seq<char> {
    if has_char(p, '/') {
        p.skip(last_index(p, '/') + 1)
    } else {
        p
    }
}

/// The stem of the final path component: the name with the extension after
/// its last interior dot stripped; "output" for an empty name.
pub open spec fn spec_file_stem(p: Seq<char>) -> Seq<char> {
    let base = spec_file_name(p);
    if base.len() == 0 {
        "output"@
    } else if has_char(base, '.') && last_index(base, '.') > 0 {
        base.take(last_index(base, '.'))
    } else {
        base
    }
}

/// The final path component of a path string.
pub fn file_name_of(path: &str) -> (r: String)
    ensures
        r@ == spec_file_name(path@),
{
    match rfind_char(path, '/') {
        Some(i) => {
            let n = path.unicode_len();
            let r = path.substring_char(i + 1, n).to_owned();
            assert(r@ =~= path@.skip(i + 1));
            r
        },
        None => path.to_owned(),
    }
}

/// The stem of a path's final component.
pub fn file_stem_of(path: &str) -> (r: String)
    ensures
        r@ == spec_file_stem(path@),
{
    let base = file_name_of(path);
    if base.as_str().unicode_len() == 0 {
        return "output".to_owned();
    }
    match rfind_char(base.as_str(), '.') {
        Some(i) => {
            if i > 0 {
                let r = base.as_str().substring_char(0, i).to_owned();
                assert(r@ =~= base@.take(i as int));
                r
            } else {
                base
            }
        },
        None => base,
    }
}

/// The file extension an export format writes.
pub open spec fn spec_format_ext(format: ExportFormat) -> Seq<char> {
    match format {
        ExportFormat::Jpeg => "jpg"@,
        ExportFormat::Png => "png"@,
        ExportFormat::WebP => "webp"@,
        ExportFormat::Bmp => "bmp"@,
    }
}

/// The extension string of an export format.
pub fn format_ext(format: &ExportFormat) -> (r: &'static str)
    ensures
        r@ == spec_format_ext(*format),
{
    match format {
        ExportFormat::Jpeg => "jpg",
        ExportFormat::Png => "png",
        ExportFormat::WebP => "webp",
        ExportFormat::Bmp => "bmp",
    }
}

/// The output path a batch conversion writes one input to: the input's
/// stem under the output directory, with the format's extension.
pub open spec fn spec_convert_output(out_dir: Seq<char>, input: Seq<char>, format: ExportFormat)
    -> Seq<char> {
    out_dir + "/"@ + spec_file_stem(input) + "."@ + spec_format_ext(format)
}

/// Plan a batch format conversion: for each input path, the output path its
/// converted image is written to, in order.
pub fn batch_convert_images(paths: &Vec<String>, output_dir: &str, format: &ExportFormat) -> (r:
    Vec<String>)
    ensures
        r@.len() == paths@.len(),
        forall|i: int|
            0 <= i < r@.len() ==> r@[i]@ == spec_convert_output(output_dir@, paths@[i]@, *format),
{
    let n = paths.len();
    let mut out: Vec<String> = Vec::new();
    let mut i: usize = 0;
    while i < n
        invariant
            n == paths@.len(),
            i <= n,
            out@.len() == i,
            forall|k: int|
                0 <= k < i ==> out@[k]@ == spec_convert_output(output_dir@, paths@[k]@, *format),
        decreases n - i,
    {
        let stem = file_stem_of(paths[i].as_str());
        let mut p = output_dir.to_owned();
        p.append("/");
        p.append(stem.as_str());
        p.append(".");
        p.append(format_ext(format));
        out.push(p);
        i = i + 1;
    }
    out
}

/// The output path a batch crop writes one input to: the input's file name
/// prefixed with "cropped_", under the output directory; an empty name
/// becomes "output.jpg".
pub open spec fn spec_crop_output(out_dir: Seq<char>, input: Seq<char>) -> Seq<char> {
    let base = if spec_file_name(input).len() == 0 {
        "output.jpg"@
    } else {
        spec_file_name(input)
    };
    out_dir + "/cropped_"@ + base
}

/// Plan a batch crop: for each input path, the output path its cropped
/// image is written to, in order.
pub fn batch_crop_images(paths: &Vec<String>, output_dir: &str) -> (r: Vec<String>)
    ensures
        r@.len() == paths@.len(),
        forall|i: int| 0 <= i < r@.len() ==> r@[i]@ == spec_crop_output(output_dir@, paths@[i]@),
{
    let n = paths.len();
    let mut out: Vec<String> = Vec::new();
    let mut i: usize = 0;
    while i < n
        invariant
            n == paths@.len(),
            i <= n,
            out@.len() == i,
            forall|k: int| 0 <= k < i ==> out@[k]@ == spec_crop_output(output_dir@, paths@[k]@),
        decreases n - i,
    {
        let base = file_name_of(paths[i].as_str());
        let mut p = output_dir.to_owned();
        p.append("/cropped_");
        if base.as_str().unicode_len() == 0 {
            p.append("output.jpg");
        } else {
            p.append(base.as_str());
        }
        out.push(p);
        i = i + 1;
    }
    out
}

/// The quarter-turn angles a rotation accepts.
pub fn validate_rotate_params(params: &RotateParams) -> (r: bool)
    ensures
        r <==> (params.angle == 0 || params.angle == 90 || params.angle == 180 || params.angle
            == 270),
{
    params.angle == 0 || params.angle == 90 || params.angle == 180 || params.angle == 270
}

} // verus!
