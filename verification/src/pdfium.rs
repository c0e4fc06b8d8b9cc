//! Where the pdfium library used to render PDF pages comes from: its file
//! name on each system and the release archive built for it.
use vstd::prelude::*;

use crate::text::str_eq;

verus! {

/// The file name of the pdfium shared library on system `os`.
pub open spec fn pdfium_lib_filename_spec(os: Seq<char>) -> Seq<char> {
    if os == "macos"@ {
        "libpdfium.dylib"@
    } else {
        "libpdfium.so"@
    }
}

/// The file name of the pdfium shared library on system `os` (as
/// `std::env::consts::OS` names it).
pub fn pdfium_lib_filename(os: &str) -> (r: String)
    ensures
        r@ == pdfium_lib_filename_spec(os@),
{
    if str_eq(os, "macos") {
        String::from_str("libpdfium.dylib")
    } else {
        String::from_str("libpdfium.so")
    }
}

/// The release slug of the pdfium build for `os` on `arch`, if one is
/// published.
pub open spec fn platform_slug(os: Seq<char>, arch: Seq<char>) -> Option<Seq<char>> {
    if os == "macos"@ && arch == "aarch64"@ {
        Some("mac-arm64"@)
    } else if os == "macos"@ && arch == "x86_64"@ {
        Some("mac-x64"@)
    } else if os == "linux"@ && arch == "x86_64"@ {
        Some("linux-x64"@)
    } else if os == "linux"@ && arch == "aarch64"@ {
        Some("linux-arm64"@)
    } else {
        None
    }
}

/// The release slug of the pdfium build for `os` on `arch`; any other
/// platform is refused, naming both.
pub fn pdfium_platform_slug(os: &str, arch: &str) -> (r: Result<String, String>)
    ensures
        match r {
            Ok(s) => platform_slug(os@, arch@) == Some(s@),
            Err(e) => platform_slug(os@, arch@) is None
                && e@ == "unsupported platform: os="@ + os@ + ", arch="@ + arch@,
        },
{
    let mac = str_eq(os, "macos");
    let linux = str_eq(os, "linux");
    let arm = str_eq(arch, "aarch64");
    let x64 = str_eq(arch, "x86_64");
    if mac && arm {
        Ok(String::from_str("mac-arm64"))
    } else if mac && x64 {
        Ok(String::from_str("mac-x64"))
    } else if linux && x64 {
        Ok(String::from_str("linux-x64"))
    } else if linux && arm {
        Ok(String::from_str("linux-arm64"))
    } else {
        let mut e = String::from_str("unsupported platform: os=");
        e.append(os);
        e.append(", arch=");
        e.append(arch);
        Err(e)
    }
}

/// The URL of the latest pdfium release archive for a platform slug.
pub fn pdfium_download_url(slug: &str) -> (r: String)
    ensures
        r@ == "https://github.com/bblanchon/pdfium-binaries/releases/latest/download/pdfium-"@ + slug@
            + ".tgz"@,
{
    let mut u = String::from_str("https://github.com/bblanchon/pdfium-binaries/releases/latest/download/pdfium-");
    u.append(slug);
    u.append(".tgz");
    u
}

} // verus!
