use live_earth_wallpaper::satellite::{
    cache_filename, cache_meta_filename, slider_zoom_fits, slider_zoom_for_size, Satellite,
};
use live_earth_wallpaper::slider::{
    latest_slider_timestamp, response_accepted, response_within_limit, slider_band_grid,
    slider_date_path, try_slider_band_grid, BandFetch,
    slider_image_time, slider_product, slider_tile_url, slider_timestamps_url, SliderError,
    MAX_SLIDER_METADATA_SIZE, MAX_TILE_SIZE, TARGET_IMAGE_SIZE,
};

#[test]
fn satellite_names_and_rotation() {
    assert_eq!(Satellite::Himawari.name(), "Himawari-9");
    assert_eq!(Satellite::GoesEast.name(), "GOES-East");
    assert_eq!(Satellite::GoesWest.name(), "GOES-West");
    assert_eq!(Satellite::Gk2a.name(), "GK2A");
    assert_eq!(Satellite::Meteosat12.name(), "Meteosat-12");
    assert_eq!(Satellite::Himawari.next(), Satellite::GoesEast);
    assert_eq!(Satellite::Meteosat12.next(), Satellite::Himawari);
    assert_eq!(Satellite::default(), Satellite::Himawari);
    for &s in Satellite::all() {
        assert_eq!(s.next().next().next().next().next(), s);
    }
    assert_eq!(Satellite::all().len(), 5);
    assert_eq!(Satellite::all()[3], Satellite::Gk2a);
}

#[test]
fn cache_filenames_are_per_satellite() {
    assert_eq!(cache_filename(Satellite::Himawari), "earth_cache_himawari.png");
    assert_eq!(cache_filename(Satellite::GoesEast), "earth_cache_goes_east.png");
    assert_eq!(cache_filename(Satellite::GoesWest), "earth_cache_goes_west.png");
    assert_eq!(cache_filename(Satellite::Gk2a), "earth_cache_gk2a.png");
    assert_eq!(cache_filename(Satellite::Meteosat12), "earth_cache_meteosat12.png");
    assert_eq!(cache_meta_filename(Satellite::Gk2a), "earth_cache_gk2a.png.txt");
    let all = Satellite::all();
    for i in 0..all.len() {
        for j in 0..all.len() {
            if i != j {
                assert_ne!(cache_filename(all[i]), cache_filename(all[j]));
            }
        }
    }
}

#[test]
fn zoom_is_smallest_sufficient() {
    assert_eq!(slider_zoom_for_size(2200, 688), 2);
    assert_eq!(slider_zoom_for_size(2200, 678), 2);
    assert_eq!(slider_zoom_for_size(2200, 696), 2);
    assert_eq!(slider_zoom_for_size(688, 688), 0);
    assert_eq!(slider_zoom_for_size(689, 688), 1);
    assert_eq!(slider_zoom_for_size(0, 0), 0);
    assert_eq!(slider_zoom_for_size(100_000, 688), 5);
    assert_eq!(slider_zoom_for_size(1, 0), 5);
}

#[test]
fn band_grid_layout() {
    let g = slider_band_grid(TARGET_IMAGE_SIZE, 688);
    assert_eq!(g.zoom, 2);
    assert_eq!(g.tiles_per_side, 4);
    assert_eq!(g.total_size(), 2752);
    assert_eq!(g.tile_origin(0, 0), (0, 0));
    assert_eq!(g.tile_origin(1, 3), (2064, 688));
    let g = slider_band_grid(500, 696);
    assert_eq!((g.zoom, g.tiles_per_side, g.total_size()), (0, 1, 696));
}

#[test]
fn products_per_satellite() {
    let p = slider_product(Satellite::Himawari);
    assert_eq!((p.id, p.time_band, p.blue_band, p.red_band, p.veggie_band, p.tile_size),
        ("himawari", "band_03", "band_01", "band_03", "band_04", 688));
    let p = slider_product(Satellite::GoesEast);
    assert_eq!((p.id, p.time_band, p.blue_band, p.red_band, p.veggie_band, p.tile_size),
        ("goes-19", "band_02", "band_01", "band_02", "band_03", 678));
    let p = slider_product(Satellite::GoesWest);
    assert_eq!((p.id, p.time_band, p.tile_size), ("goes-18", "band_02", 678));
    let p = slider_product(Satellite::Gk2a);
    assert_eq!((p.id, p.time_band, p.tile_size), ("gk2a", "band_03", 688));
    let p = slider_product(Satellite::Meteosat12);
    assert_eq!((p.id, p.red_band, p.tile_size), ("meteosat-12", "band_03", 696));
}

#[test]
fn slider_addresses() {
    assert_eq!(
        slider_timestamps_url("goes-19", "band_02"),
        "https://slider.cira.colostate.edu/data/json/goes-19/full_disk/band_02/latest_times.json"
    );
    assert_eq!(
        slider_tile_url("himawari", "band_01", 20240115123000, "2024/01/15", 2, 3, 1),
        "https://slider.cira.colostate.edu/data/imagery/2024/01/15/himawari---full_disk/band_01/20240115123000/02/003_001.png"
    );
    assert_eq!(
        slider_tile_url("gk2a", "band_04", -5, "x", 5, 1234, 0),
        "https://slider.cira.colostate.edu/data/imagery/x/gk2a---full_disk/band_04/-5/05/1234_000.png"
    );
}

#[test]
fn latest_timestamp_and_date_path() {
    assert_eq!(slider_date_path(20240115123000), "2024/01/15");
    assert_eq!(slider_date_path(12345678), "1234/56/78");
    assert_eq!(
        latest_slider_timestamp(&vec![20240115123000, 20240115122000]),
        Ok((20240115123000, "2024/01/15".to_string()))
    );
    assert_eq!(latest_slider_timestamp(&vec![]), Err(SliderError::NoTimestamps));
}

#[test]
fn image_time_from_timestamp() {
    assert_eq!(slider_image_time(20240115123000), Ok(1705321800));
    assert_eq!(slider_image_time(20241315123000), Err(SliderError::BadTimestamp));
    assert_eq!(slider_image_time(42), Err(SliderError::BadTimestamp));
}

#[test]
fn response_size_limits() {
    assert!(response_within_limit(None, MAX_SLIDER_METADATA_SIZE));
    assert!(response_within_limit(Some(65536), MAX_SLIDER_METADATA_SIZE));
    assert!(!response_within_limit(Some(65537), MAX_SLIDER_METADATA_SIZE));
    assert!(response_within_limit(Some(2 * 1024 * 1024), MAX_TILE_SIZE));
    assert!(!response_within_limit(Some(2 * 1024 * 1024 + 1), MAX_TILE_SIZE));
}

#[test]
fn received_body_is_held_to_the_limit() {
    assert!(response_accepted(None, 1024, 1024));
    assert!(response_accepted(Some(1024), 1024, 1024));
    assert!(!response_accepted(None, 1025, 1024));
    assert!(!response_accepted(Some(10), 1025, 1024));
    assert!(!response_accepted(Some(1025), 10, 1024));
    assert!(response_accepted(Some(2_097_152), 2_097_152, 2_097_152));
    assert!(!response_accepted(None, 2_097_153, 2_097_152));
}

#[test]
fn zoom_fit_check() {
    assert!(slider_zoom_fits(2200, 688));
    assert!(slider_zoom_fits(1, u32::MAX));
    assert!(!slider_zoom_fits(u32::MAX, 200_000_000));
    assert!(slider_zoom_fits(u32::MAX, 100_000_000));
    assert_eq!(try_slider_band_grid(u32::MAX, 200_000_000), None);
    assert_eq!(try_slider_band_grid(2200, 688), Some(slider_band_grid(2200, 688)));
}

#[test]
fn band_tiles_row_by_row() {
    let g = slider_band_grid(2200, 688);
    assert_eq!(g.tiles_per_side, 4);
    let order = g.tile_order();
    assert_eq!(order.len(), 16);
    assert_eq!(order[0], (0, 0));
    assert_eq!(order[1], (0, 1));
    assert_eq!(order[3], (0, 3));
    assert_eq!(order[4], (1, 0));
    assert_eq!(order[15], (3, 3));
    assert_eq!(slider_band_grid(688, 688).tile_order(), vec![(0, 0)]);
}

#[test]
fn band_fetch_requests_in_order_until_complete() {
    let g = slider_band_grid(2200, 688);
    let mut b = BandFetch::new(g);
    let mut seen = Vec::new();
    while let Some(t) = b.next_tile() {
        seen.push(t);
        b.record(true);
    }
    assert_eq!(seen, g.tile_order());
    assert!(b.is_complete());
}

#[test]
fn band_fetch_stops_at_first_failure() {
    let g = slider_band_grid(2200, 688);
    let mut b = BandFetch::new(g);
    assert_eq!(b.next_tile(), Some((0, 0)));
    b.record(true);
    assert_eq!(b.next_tile(), Some((0, 1)));
    b.record(true);
    assert_eq!(b.next_tile(), Some((0, 2)));
    b.record(false);
    assert_eq!(b.next_tile(), None);
    assert!(!b.is_complete());
    assert_eq!(b.fetched, 2);
}
