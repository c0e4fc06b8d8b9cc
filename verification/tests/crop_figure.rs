use codex_core::crop_figure::{
    clamp_crop, figure_asset_path, figure_file_name, figure_sidecar_name, next_figure_number, page_index, pdf_url_hash, PixelRect,
};

#[test]
fn crop_stays_inside_the_image() {
    let r = clamp_crop(PixelRect { x: 1990, y: 10, w: 50, h: 5000 }, 2000, 3000);
    assert_eq!(r, PixelRect { x: 1990, y: 10, w: 10, h: 2990 });
    let r = clamp_crop(PixelRect { x: 5000, y: 5000, w: 1, h: 1 }, 100, 100);
    assert_eq!(r, PixelRect { x: 99, y: 99, w: 1, h: 1 });
    let r = clamp_crop(PixelRect { x: 3, y: 3, w: 3, h: 3 }, 0, 0);
    assert_eq!(r, PixelRect { x: 0, y: 0, w: 0, h: 0 });
}

#[test]
fn pages_are_one_based() {
    assert_eq!(page_index(1), 0);
    assert_eq!(page_index(7), 6);
    assert_eq!(page_index(0), 0);
}

#[test]
fn figures_are_numbered_after_existing_ones() {
    let names: Vec<String> =
        ["fig-1.png", "fig-1.json", "fig-2.png", "notes.png", "fig-x.png.bak"].iter().map(|s| s.to_string()).collect();
    assert_eq!(next_figure_number(&names), 3);
    assert_eq!(next_figure_number(&[]), 1);
    assert_eq!(figure_file_name(3), "fig-3.png");
    assert_eq!(figure_sidecar_name(3), "fig-3.json");
    assert_eq!(figure_asset_path("abcd", "fig-3.png"), "/assets/abcd/fig-3.png");
}

#[test]
fn pdf_url_hash_is_the_head_of_the_sha256_digest() {
    assert_eq!(pdf_url_hash("abc"), "ba7816bf8f01cfea");
    assert_eq!(pdf_url_hash(""), "e3b0c44298fc1c14");
    assert_eq!(pdf_url_hash("https://arxiv.org/pdf/1706.03762").len(), 16);
}
