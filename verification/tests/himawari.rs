use live_earth_wallpaper::himawari::{
    date_to_path, metadata_time, metadata_url, tile_order, tile_url, ImageLevel, ImageMetadata,
};

#[test]
fn test_date_to_path() {
    assert_eq!(date_to_path("2024-01-15 12:30:00"), "2024/01/15/123000");
}

#[test]
fn test_image_level() {
    assert_eq!(ImageLevel::Level4.grid_size(), 4);
    assert_eq!(ImageLevel::Level4.total_pixels(), 2200);
}

#[test]
fn image_levels_grid_and_pixels() {
    let levels = [
        (ImageLevel::Level1, 1, 550),
        (ImageLevel::Level2, 2, 1100),
        (ImageLevel::Level4, 4, 2200),
        (ImageLevel::Level8, 8, 4400),
        (ImageLevel::Level16, 16, 8800),
        (ImageLevel::Level20, 20, 11000),
    ];
    for (level, grid, pixels) in levels {
        assert_eq!(level.grid_size(), grid);
        assert_eq!(level.total_pixels(), pixels);
    }
}

#[test]
fn date_to_path_keeps_other_characters() {
    assert_eq!(date_to_path(""), "");
    assert_eq!(date_to_path("a:b-c d"), "ab/c/d");
}

#[test]
fn himawari_addresses() {
    assert_eq!(metadata_url(), "https://himawari8-dl.nict.go.jp/himawari8/img/FULL_24h/latest.json");
    assert_eq!(
        tile_url(ImageLevel::Level4, "2024/01/15/123000", 3, 1),
        "https://himawari8-dl.nict.go.jp/himawari8/img/D531106/4d/550/2024/01/15/123000_3_1.png"
    );
    assert_eq!(
        tile_url(ImageLevel::Level20, "2024/01/15/123000", 19, 0),
        "https://himawari8-dl.nict.go.jp/himawari8/img/D531106/20d/550/2024/01/15/123000_19_0.png"
    );
}

#[test]
fn himawari_tiles_row_by_row() {
    assert_eq!(tile_order(ImageLevel::Level1), vec![(0, 0)]);
    assert_eq!(tile_order(ImageLevel::Level2), vec![(0, 0), (1, 0), (0, 1), (1, 1)]);
    assert_eq!(tile_order(ImageLevel::Level20).len(), 400);
    assert_eq!(ImageLevel::Level4.tile_origin(3, 2), (1650, 1100));
}

#[test]
fn himawari_metadata_time() {
    let m = ImageMetadata { date: "2024-01-15 12:30:00".to_string() };
    assert_eq!(metadata_time(&m), Some(1705321800));
    let bad = ImageMetadata { date: "2024/01/15 12:30".to_string() };
    assert_eq!(metadata_time(&bad), None);
    assert_eq!(m.clone().date, "2024-01-15 12:30:00");
}
