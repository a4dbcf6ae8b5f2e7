//! The adapters: one per kind of source, each turning what the source
//! answers into the canonical record.

pub mod cdata_rss;
pub mod champion_cross;
pub mod comic_fuz;
pub mod comic_pixiv;
pub mod comic_walker;
pub mod gangan_online;
pub mod ichijin_plus;
pub mod rss_manga;
pub mod urasunday;
pub mod yanmaga;
pub mod ganma;
pub mod mecha_comic;
pub mod gamma_plus;
pub mod manga_up;
