//! The content categories of the index, with their numeric codes and
//! their query-string names.  Unknown codes are rejected, never
//! defaulted.

use vstd::prelude::*;

verus! {

/// A content category of the index.
#[derive(Clone, Copy, Debug, PartialEq, Eq, Structural)]
#[allow(clippy::upper_case_acronyms)]
pub enum Category {
    XXX,
    MoviesX264,
    MoviesX264_1080,
    MoviesX264_720,
    MoviesX264_3d,
    MoviesX264_4k,
    MoviesX265_4k,
    MoviesX265_4kHdr,
    MoviesXvid,
    MoviesXvid720,
    MoviesFullBd,
    MoviesBdRemux,
    MoviesX265_1080,
    TvEpisodes,
    TvHdEpisodes,
    TvUhdEpisodes,
    MusicMp3,
    MusicFlac,
    GamesPcIso,
    GamesPcRip,
    SoftwarePcIso,
    GamesPs4,
}

/// The numeric code of a category.
pub open spec fn spec_category_code(c: Category) -> i64 {
    match c {
        Category::XXX => 4i64,
        Category::MoviesX264 => 17i64,
        Category::MoviesX264_1080 => 44i64,
        Category::MoviesX264_720 => 45i64,
        Category::MoviesX264_3d => 47i64,
        Category::MoviesX264_4k => 50i64,
        Category::MoviesX265_4k => 51i64,
        Category::MoviesX265_4kHdr => 52i64,
        Category::MoviesXvid => 14i64,
        Category::MoviesXvid720 => 48i64,
        Category::MoviesFullBd => 42i64,
        Category::MoviesBdRemux => 46i64,
        Category::MoviesX265_1080 => 54i64,
        Category::TvEpisodes => 18i64,
        Category::TvHdEpisodes => 41i64,
        Category::TvUhdEpisodes => 49i64,
        Category::MusicMp3 => 23i64,
        Category::MusicFlac => 25i64,
        Category::GamesPcIso => 27i64,
        Category::GamesPcRip => 28i64,
        Category::SoftwarePcIso => 33i64,
        Category::GamesPs4 => 53i64,
    }
}

/// The category a numeric code denotes, if any.
pub open spec fn spec_category_from_code(v: i64) -> Option<Category> {
    if v == 4 {
        Some(Category::XXX)
    } else if v == 17 {
        Some(Category::MoviesX264)
    } else if v == 44 {
        Some(Category::MoviesX264_1080)
    } else if v == 45 {
        Some(Category::MoviesX264_720)
    } else if v == 47 {
        Some(Category::MoviesX264_3d)
    } else if v == 50 {
        Some(Category::MoviesX264_4k)
    } else if v == 51 {
        Some(Category::MoviesX265_4k)
    } else if v == 52 {
        Some(Category::MoviesX265_4kHdr)
    } else if v == 14 {
        Some(Category::MoviesXvid)
    } else if v == 48 {
        Some(Category::MoviesXvid720)
    } else if v == 42 {
        Some(Category::MoviesFullBd)
    } else if v == 46 {
        Some(Category::MoviesBdRemux)
    } else if v == 54 {
        Some(Category::MoviesX265_1080)
    } else if v == 18 {
        Some(Category::TvEpisodes)
    } else if v == 41 {
        Some(Category::TvHdEpisodes)
    } else if v == 49 {
        Some(Category::TvUhdEpisodes)
    } else if v == 23 {
        Some(Category::MusicMp3)
    } else if v == 25 {
        Some(Category::MusicFlac)
    } else if v == 27 {
        Some(Category::GamesPcIso)
    } else if v == 28 {
        Some(Category::GamesPcRip)
    } else if v == 33 {
        Some(Category::SoftwarePcIso)
    } else if v == 53 {
        Some(Category::GamesPs4)
    } else {
        None
    }
}

/// The query-string name of a category.
pub open spec fn spec_category_name(c: Category) -> Seq<char> {
    match c {
        Category::XXX => "xxx"@,
        Category::MoviesX264 => "movies_x264"@,
        Category::MoviesX264_1080 => "movies_x264_1080"@,
        Category::MoviesX264_720 => "movies_x264_720"@,
        Category::MoviesX264_3d => "movies_x264_3d"@,
        Category::MoviesX264_4k => "movies_x264_4k"@,
        Category::MoviesX265_4k => "movies_x265_4k"@,
        Category::MoviesX265_4kHdr => "movies_x265_4k_hdr"@,
        Category::MoviesXvid => "movies_xvid"@,
        Category::MoviesXvid720 => "movies_xvid_720"@,
        Category::MoviesFullBd => "movies_full_bd"@,
        Category::MoviesBdRemux => "movies_bd_remux"@,
        Category::MoviesX265_1080 => "movies_x265_1080"@,
        Category::TvEpisodes => "tv"@,
        Category::TvHdEpisodes => "tv_sd"@,
        Category::TvUhdEpisodes => "tv_uhd"@,
        Category::MusicMp3 => "music_mp3"@,
        Category::MusicFlac => "music_flac"@,
        Category::GamesPcIso => "games_pc_iso"@,
        Category::GamesPcRip => "games_pc_rip"@,
        Category::SoftwarePcIso => "software_pc_iso"@,
        Category::GamesPs4 => "games_ps4"@,
    }
}

impl Category {
    /// The numeric code of this category.
    pub fn code(&self) -> (r: i64)
        ensures
            r == spec_category_code(*self),
    {
        match self {
            Category::XXX => 4,
            Category::MoviesX264 => 17,
            Category::MoviesX264_1080 => 44,
            Category::MoviesX264_720 => 45,
            Category::MoviesX264_3d => 47,
            Category::MoviesX264_4k => 50,
            Category::MoviesX265_4k => 51,
            Category::MoviesX265_4kHdr => 52,
            Category::MoviesXvid => 14,
            Category::MoviesXvid720 => 48,
            Category::MoviesFullBd => 42,
            Category::MoviesBdRemux => 46,
            Category::MoviesX265_1080 => 54,
            Category::TvEpisodes => 18,
            Category::TvHdEpisodes => 41,
            Category::TvUhdEpisodes => 49,
            Category::MusicMp3 => 23,
            Category::MusicFlac => 25,
            Category::GamesPcIso => 27,
            Category::GamesPcRip => 28,
            Category::SoftwarePcIso => 33,
            Category::GamesPs4 => 53,
        }
    }

    /// The category a numeric code denotes; an unknown code is invalid.
    pub fn from_code(v: i64) -> (r: Option<Category>)
        ensures
            r == spec_category_from_code(v),
    {
        if v == 4 {
            Some(Category::XXX)
        } else if v == 17 {
            Some(Category::MoviesX264)
        } else if v == 44 {
            Some(Category::MoviesX264_1080)
        } else if v == 45 {
            Some(Category::MoviesX264_720)
        } else if v == 47 {
            Some(Category::MoviesX264_3d)
        } else if v == 50 {
            Some(Category::MoviesX264_4k)
        } else if v == 51 {
            Some(Category::MoviesX265_4k)
        } else if v == 52 {
            Some(Category::MoviesX265_4kHdr)
        } else if v == 14 {
            Some(Category::MoviesXvid)
        } else if v == 48 {
            Some(Category::MoviesXvid720)
        } else if v == 42 {
            Some(Category::MoviesFullBd)
        } else if v == 46 {
            Some(Category::MoviesBdRemux)
        } else if v == 54 {
            Some(Category::MoviesX265_1080)
        } else if v == 18 {
            Some(Category::TvEpisodes)
        } else if v == 41 {
            Some(Category::TvHdEpisodes)
        } else if v == 49 {
            Some(Category::TvUhdEpisodes)
        } else if v == 23 {
            Some(Category::MusicMp3)
        } else if v == 25 {
            Some(Category::MusicFlac)
        } else if v == 27 {
            Some(Category::GamesPcIso)
        } else if v == 28 {
            Some(Category::GamesPcRip)
        } else if v == 33 {
            Some(Category::SoftwarePcIso)
        } else if v == 53 {
            Some(Category::GamesPs4)
        } else {
            None
        }
    }

    /// The query-string name of this category.
    pub fn name(&self) -> (r: String)
        ensures
            r@ == spec_category_name(*self),
    {
        match self {
            Category::XXX => String::from_str("xxx"),
            Category::MoviesX264 => String::from_str("movies_x264"),
            Category::MoviesX264_1080 => String::from_str("movies_x264_1080"),
            Category::MoviesX264_720 => String::from_str("movies_x264_720"),
            Category::MoviesX264_3d => String::from_str("movies_x264_3d"),
            Category::MoviesX264_4k => String::from_str("movies_x264_4k"),
            Category::MoviesX265_4k => String::from_str("movies_x265_4k"),
            Category::MoviesX265_4kHdr => String::from_str("movies_x265_4k_hdr"),
            Category::MoviesXvid => String::from_str("movies_xvid"),
            Category::MoviesXvid720 => String::from_str("movies_xvid_720"),
            Category::MoviesFullBd => String::from_str("movies_full_bd"),
            Category::MoviesBdRemux => String::from_str("movies_bd_remux"),
            Category::MoviesX265_1080 => String::from_str("movies_x265_1080"),
            Category::TvEpisodes => String::from_str("tv"),
            Category::TvHdEpisodes => String::from_str("tv_sd"),
            Category::TvUhdEpisodes => String::from_str("tv_uhd"),
            Category::MusicMp3 => String::from_str("music_mp3"),
            Category::MusicFlac => String::from_str("music_flac"),
            Category::GamesPcIso => String::from_str("games_pc_iso"),
            Category::GamesPcRip => String::from_str("games_pc_rip"),
            Category::SoftwarePcIso => String::from_str("software_pc_iso"),
            Category::GamesPs4 => String::from_str("games_ps4"),
        }
    }
}

/// Every category is recovered from its own numeric code.
pub proof fn lemma_category_code_round_trip(c: Category)
    ensures
        spec_category_from_code(spec_category_code(c)) == Some(c),
{
}

} // verus!
