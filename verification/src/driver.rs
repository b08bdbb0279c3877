//! Presence records for the two downloaded artifacts the tool can fetch:
//! the packet-interception driver the transparent redirector needs, and
//! the background-removal model.  The downloads and file checks happen
//! outside; what their findings mean is decided here.

use vstd::prelude::*;

verus! {

/// Whether the packet-interception driver is installed, and where.
pub struct WinDivertInfo {
    pub installed: bool,
    pub version: Option<String>,
    pub path: String,
}

/// Interpret a check of the driver directory: the driver counts as
/// installed exactly when its file was found, and only then is the known
/// driver version reported.
pub fn windivert_info(found: bool, driver_dir: String) -> (r: WinDivertInfo)
    ensures
        r.installed == found,
        found ==> r.version is Some && r.version.unwrap()@ == "2.2.2"@,
        !found ==> r.version is None,
        r.path@ == driver_dir@,
{
    WinDivertInfo {
        installed: found,
        version: if found {
            Some("2.2.2".to_owned())
        } else {
            None
        },
        path: driver_dir,
    }
}

/// Whether the background-removal model is downloaded, and its details.
pub struct ModelInfo {
    pub downloaded: bool,
    pub path: Option<String>,
    pub size: Option<u64>,
    pub version: String,
}

/// The phases of a model download.
#[derive(Clone, Copy, PartialEq, Eq, Structural)]
pub enum DownloadStatus {
    Preparing,
    Downloading,
    Verifying,
    Completed,
    Failed,
}

/// A width and height in pixels.
pub struct Dimensions {
    pub width: u32,
    pub height: u32,
}

/// The path the background-removal model is stored at, inside the model
/// directory.
pub fn get_model_path(models_dir: &str) -> (r: String)
    ensures
        r@ == models_dir@ + "/rmbg-1.4.onnx"@,
{
    let mut p = models_dir.to_owned();
    p.append("/rmbg-1.4.onnx");
    p
}

/// Interpret a check of the model file: downloaded exactly when the file
/// was found, with its path and size reported only then.
pub fn check_model_status(found: bool, model_path: String, size: u64) -> (r: ModelInfo)
    ensures
        r.downloaded == found,
        found ==> r.path is Some && r.path.unwrap()@ == model_path@,
        found ==> r.size == Some(size),
        !found ==> r.path is None && r.size is None,
        r.version@ == "1.4"@,
{
    if found {
        ModelInfo {
            downloaded: true,
            path: Some(model_path),
            size: Some(size),
            version: "1.4".to_owned(),
        }
    } else {
        ModelInfo { downloaded: false, path: None, size: None, version: "1.4".to_owned() }
    }
}

} // verus!
