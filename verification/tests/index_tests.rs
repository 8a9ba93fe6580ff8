use udp_tracker::category::Category;
use udp_tracker::index::Item;
use udp_tracker::index::Pagination;
use udp_tracker::index::RarbgTorrent;
use udp_tracker::metadata::Series;
use udp_tracker::metadata::first_imdb_id;

#[test]
fn category_names_match_the_query_strings() {
    assert_eq!(Category::XXX.name(), "xxx");
    assert_eq!(Category::MoviesX265_4kHdr.name(), "movies_x265_4k_hdr");
    assert_eq!(Category::TvEpisodes.name(), "tv");
    assert_eq!(Category::TvHdEpisodes.name(), "tv_sd");
    assert_eq!(Category::GamesPs4.name(), "games_ps4");
}

#[test]
fn category_codes_round_trip() {
    let all = [
        Category::XXX,
        Category::MoviesX264,
        Category::MoviesX264_1080,
        Category::MoviesX264_720,
        Category::MoviesX264_3d,
        Category::MoviesX264_4k,
        Category::MoviesX265_4k,
        Category::MoviesX265_4kHdr,
        Category::MoviesXvid,
        Category::MoviesXvid720,
        Category::MoviesFullBd,
        Category::MoviesBdRemux,
        Category::MoviesX265_1080,
        Category::TvEpisodes,
        Category::TvHdEpisodes,
        Category::TvUhdEpisodes,
        Category::MusicMp3,
        Category::MusicFlac,
        Category::GamesPcIso,
        Category::GamesPcRip,
        Category::SoftwarePcIso,
        Category::GamesPs4,
    ];
    for c in all {
        assert_eq!(Category::from_code(c.code()), Some(c));
    }
    assert_eq!(Category::XXX.code(), 4);
    assert_eq!(Category::TvEpisodes.code(), 18);
    assert_eq!(Category::from_code(0), None);
    assert_eq!(Category::from_code(999), None);
}

#[test]
fn pagination_amount_applies_floor_and_default() {
    let unspecified = Pagination { offset: 0, amount: None };
    assert_eq!(unspecified.amount(), 10);
    let small = Pagination { offset: 0, amount: Some(5) };
    assert_eq!(small.amount(), 100);
    let exact = Pagination { offset: 0, amount: Some(100) };
    assert_eq!(exact.amount(), 100);
    let large = Pagination { offset: 3, amount: Some(250) };
    assert_eq!(large.amount(), 250);
}

#[test]
fn torrent_record_renders_from_an_index_row() {
    let item = Item {
        id: 1,
        title: "some show".to_string(),
        hash: "abcdef".to_string(),
        dt: "2020-01-01".to_string(),
        cat: "tv".to_string(),
        imdb: Some("tt0944947".to_string()),
        size: Some(1024),
        ext_id: None,
    };
    let t = RarbgTorrent::from_item(item);
    assert_eq!(t.title, "some show");
    assert_eq!(t.category, "tv");
    assert_eq!(t.download, "abcdef");
    assert_eq!(t.publish_date, "2020-01-01");
    assert_eq!(t.seeders, None);
    assert_eq!(t.leechers, None);
    assert_eq!(t.episode_info.imdb, "tt0944947");
    assert_eq!(t.episode_info.tvrage, None);
    assert_eq!(t.episode_info.tvdb, None);
    assert_eq!(t.ranked, None);
    assert_eq!(t.info_page, "");
}

#[test]
fn missing_imdb_id_becomes_the_empty_string() {
    let item = Item {
        id: 2,
        title: "t".to_string(),
        hash: "h".to_string(),
        dt: "d".to_string(),
        cat: "c".to_string(),
        imdb: None,
        size: None,
        ext_id: None,
    };
    let t = RarbgTorrent::from_item(item);
    assert_eq!(t.episode_info.imdb, "");
}

#[test]
fn first_imdb_id_picks_the_first_record_that_has_one() {
    let series = vec![
        Series { title: "a".to_string(), imdb_id: None },
        Series { title: "b".to_string(), imdb_id: Some("tt1".to_string()) },
        Series { title: "c".to_string(), imdb_id: Some("tt2".to_string()) },
    ];
    assert_eq!(first_imdb_id(&series), Some("tt1".to_string()));

    let none = vec![
        Series { title: "a".to_string(), imdb_id: None },
        Series { title: "b".to_string(), imdb_id: None },
    ];
    assert_eq!(first_imdb_id(&none), None);
    assert_eq!(first_imdb_id(&Vec::new()), None);
}
