use codex_core::pdfium::pdfium_download_url;
use codex_core::pdfium::pdfium_lib_filename;
use codex_core::pdfium::pdfium_platform_slug;

#[test]
fn library_file_name_follows_the_system() {
    assert_eq!(pdfium_lib_filename("macos"), "libpdfium.dylib");
    assert_eq!(pdfium_lib_filename("linux"), "libpdfium.so");
}

#[test]
fn platform_slugs_of_supported_platforms() {
    assert_eq!(pdfium_platform_slug("macos", "aarch64"), Ok("mac-arm64".to_string()));
    assert_eq!(pdfium_platform_slug("macos", "x86_64"), Ok("mac-x64".to_string()));
    assert_eq!(pdfium_platform_slug("linux", "x86_64"), Ok("linux-x64".to_string()));
    assert_eq!(pdfium_platform_slug("linux", "aarch64"), Ok("linux-arm64".to_string()));
}

#[test]
fn unsupported_platform_is_named() {
    assert_eq!(
        pdfium_platform_slug("windows", "x86_64"),
        Err("unsupported platform: os=windows, arch=x86_64".to_string())
    );
}

#[test]
fn download_url_names_the_slug() {
    assert_eq!(
        pdfium_download_url("linux-x64"),
        "https://github.com/bblanchon/pdfium-binaries/releases/latest/download/pdfium-linux-x64.tgz"
    );
}
