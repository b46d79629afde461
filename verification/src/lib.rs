//! A music request queue: listeners add song links, a worker downloads a
//! bounded number of them ahead of time, and a player takes them in order.
//!
//! The library holds the queue state machine, the naming of the files it
//! produces and the converter's command line, the startup and polling
//! decisions, the page-title lookup and the address and QR code of the web
//! page; the program around it performs the downloads, the playback and the
//! web serving.
pub mod decimal;
pub mod files;
pub mod laws;
pub mod page;
pub mod player;
pub mod server;
pub mod startup;

pub use decimal::u64_to_decimal;
pub use files::{ffmpeg_args, ffmpeg_program, file_in_dir, mp3_file_name, mp3_file_path, raw_file_name, raw_file_path};
pub use page::title_from_page;
pub use player::{
    new_download_queue, new_now_playing, new_queue, next_counter, DownloadReport, DownloadedSong, PlayerState,
    QueueCommand, Song, WorkerAction, MAX_LOADS,
};
pub use server::{qr_code_for, qr_image_for, server_url, GrayImage, QrCodeError, QrModules, QR_MODULE_PIXELS, QR_QUIET_ZONE};
pub use startup::{poll_step, startup_plan, LibraryDir, PollStep, StartupPlan, BUSY_PAUSE_SECS, EMPTY_PAUSE_SECS};
